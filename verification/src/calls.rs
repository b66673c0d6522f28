//! The Vyper functions that the contract calls on the EVM chain, and how a request
//! becomes their ABI arguments.
use crate::abi::{
    address_valid, address_value, param_kinds, parse_address, token_values, type_check,
    types_check, AbiFunction, AbiKind, AbiParam, AbiToken, AbiType, AbiValue, FunctionSpec,
    ParamSpec,
};
use crate::msg::{BotInfo, SwapInfo};
use vstd::prelude::*;

verus! {

pub open spec fn param(name: Seq<char>, kind: AbiKind) -> ParamSpec {
    ParamSpec { name, kind }
}

pub open spec fn address_array_kind() -> AbiKind {
    AbiKind::Array(Box::new(AbiKind::Address))
}

pub open spec fn uint256_array_kind() -> AbiKind {
    AbiKind::Array(Box::new(AbiKind::Uint(256)))
}

/// `(address[11], uint256[5][5], uint256, uint256, address[5])`
pub open spec fn swap_info_kind() -> AbiKind {
    AbiKind::Tuple(
        seq![
            AbiKind::FixedArray(Box::new(AbiKind::Address), 11),
            AbiKind::FixedArray(Box::new(AbiKind::FixedArray(Box::new(AbiKind::Uint(256)), 5)), 5),
            AbiKind::Uint(256),
            AbiKind::Uint(256),
            AbiKind::FixedArray(Box::new(AbiKind::Address), 5),
        ],
    )
}

/// `add_collateral(address[] bots, (..)[][] swap_infos, address[] collateral, uint256[] lend_amount)`
pub open spec fn add_collateral_function() -> FunctionSpec {
    FunctionSpec {
        name: "add_collateral"@,
        inputs: seq![
            param("bots"@, address_array_kind()),
            param(
                "swap_infos"@,
                AbiKind::Array(Box::new(AbiKind::Array(Box::new(swap_info_kind())))),
            ),
            param("collateral"@, address_array_kind()),
            param("lend_amount"@, uint256_array_kind()),
        ],
    }
}

/// `repay(address[] bots, address[] collateral, uint256[] repay_amount)`
pub open spec fn repay_function() -> FunctionSpec {
    FunctionSpec {
        name: "repay"@,
        inputs: seq![
            param("bots"@, address_array_kind()),
            param("collateral"@, address_array_kind()),
            param("repay_amount"@, uint256_array_kind()),
        ],
    }
}

/// `set_paloma()`
pub open spec fn set_paloma_function() -> FunctionSpec {
    FunctionSpec { name: "set_paloma"@, inputs: Seq::empty() }
}

/// A function of one input.
pub open spec fn unary_function(name: Seq<char>, input: Seq<char>, kind: AbiKind) -> FunctionSpec {
    FunctionSpec { name, inputs: seq![param(input, kind)] }
}

pub open spec fn uint_value(u: [u8; 32]) -> AbiValue {
    AbiValue::Uint(u@)
}

pub open spec fn address_values(v: Seq<String>) -> Seq<AbiValue> {
    v.map_values(|s: String| address_value(s@))
}

pub open spec fn uint_values(v: Seq<[u8; 32]>) -> Seq<AbiValue> {
    v.map_values(|u: [u8; 32]| uint_value(u))
}

/// A swap as the tuple `(route, swap_params, amount, expected, pools)`.
pub open spec fn swap_info_value(si: SwapInfo) -> AbiValue {
    AbiValue::Tuple(
        seq![
            AbiValue::FixedArray(address_values(si.route@)),
            AbiValue::FixedArray(
                si.swap_params@.map_values(
                    |row: Vec<[u8; 32]>| AbiValue::FixedArray(uint_values(row@)),
                ),
            ),
            uint_value(si.amount),
            uint_value(si.expected),
            AbiValue::FixedArray(address_values(si.pools@)),
        ],
    )
}

/// The swaps of one bot.
pub open spec fn swap_infos_value(v: Seq<SwapInfo>) -> AbiValue {
    AbiValue::Array(v.map_values(|si: SwapInfo| swap_info_value(si)))
}

/// The arguments of `add_collateral` for the handled bots: their addresses, swaps,
/// collateral tokens and amounts, each in request order.
pub open spec fn add_collateral_args(bots: Seq<BotInfo>) -> Seq<AbiValue> {
    seq![
        AbiValue::Array(bots.map_values(|b: BotInfo| address_value(b.bot@))),
        AbiValue::Array(bots.map_values(|b: BotInfo| swap_infos_value(b.swap_infos@))),
        AbiValue::Array(bots.map_values(|b: BotInfo| address_value(b.collateral@))),
        AbiValue::Array(bots.map_values(|b: BotInfo| uint_value(b.amount))),
    ]
}

/// The arguments of `repay` for the handled bots.
pub open spec fn repay_args(bots: Seq<BotInfo>) -> Seq<AbiValue> {
    seq![
        AbiValue::Array(bots.map_values(|b: BotInfo| address_value(b.bot@))),
        AbiValue::Array(bots.map_values(|b: BotInfo| address_value(b.collateral@))),
        AbiValue::Array(bots.map_values(|b: BotInfo| uint_value(b.amount))),
    ]
}

pub open spec fn addresses_valid(v: Seq<String>) -> bool {
    forall|i: int| 0 <= i < v.len() ==> address_valid(#[trigger] v[i]@)
}

/// A swap that encodes: 11 route addresses, 5 rows of 5 parameters, 5 pool addresses.
pub open spec fn swap_info_ok(si: SwapInfo) -> bool {
    &&& si.route@.len() == 11
    &&& addresses_valid(si.route@)
    &&& si.swap_params@.len() == 5
    &&& forall|i: int| 0 <= i < 5 ==> (#[trigger] si.swap_params@[i])@.len() == 5
    &&& si.pools@.len() == 5
    &&& addresses_valid(si.pools@)
}

/// A bot that `add_collateral` can encode.
pub open spec fn add_collateral_bot_ok(b: BotInfo) -> bool {
    &&& address_valid(b.bot@)
    &&& address_valid(b.collateral@)
    &&& forall|i: int| 0 <= i < b.swap_infos@.len() ==> swap_info_ok(#[trigger] b.swap_infos@[i])
}

/// A bot that `repay` can encode.
pub open spec fn repay_bot_ok(b: BotInfo) -> bool {
    address_valid(b.bot@) && address_valid(b.collateral@)
}

// ---------------------------------------------------------------------------
// Type checks of the arguments.

/// A list of at most five values checks place by place once each place checks.
proof fn lemma_checks_at_each_place(vs: Seq<AbiValue>, ks: Seq<AbiKind>)
    requires
        vs.len() <= 5,
        vs.len() <= ks.len(),
        vs.len() > 0 ==> type_check(vs[0], ks[0]),
        vs.len() > 1 ==> type_check(vs[1], ks[1]),
        vs.len() > 2 ==> type_check(vs[2], ks[2]),
        vs.len() > 3 ==> type_check(vs[3], ks[3]),
        vs.len() > 4 ==> type_check(vs[4], ks[4]),
    ensures
        forall|i: int| 0 <= i < vs.len() ==> type_check(#[trigger] vs[i], ks[i]),
{
    assert forall|i: int| 0 <= i < vs.len() implies type_check(#[trigger] vs[i], ks[i]) by {
        if i == 0 {
        } else if i == 1 {
        } else if i == 2 {
        } else if i == 3 {
        } else {
        }
    }
}

proof fn lemma_addresses_check(v: Seq<String>, n: nat)
    requires
        addresses_valid(v),
        v.len() == n,
    ensures
        type_check(AbiValue::FixedArray(address_values(v)), AbiKind::FixedArray(Box::new(AbiKind::Address), n)),
{
    let vs = address_values(v);
    assert forall|i: int| 0 <= i < vs.len() implies type_check(#[trigger] vs[i], AbiKind::Address) by {
        assert(vs[i] == address_value(v[i]@));
    }
}

proof fn lemma_swap_info_checks(si: SwapInfo)
    requires
        swap_info_ok(si),
    ensures
        type_check(swap_info_value(si), swap_info_kind()),
{
    lemma_addresses_check(si.route@, 11);
    lemma_addresses_check(si.pools@, 5);
    let row_kind = AbiKind::FixedArray(Box::new(AbiKind::Uint(256)), 5);
    let rows = si.swap_params@.map_values(
        |row: Vec<[u8; 32]>| AbiValue::FixedArray(uint_values(row@)),
    );
    assert forall|i: int| 0 <= i < rows.len() implies type_check(#[trigger] rows[i], row_kind) by {
        let us = uint_values(si.swap_params@[i]@);
        assert(rows[i] == AbiValue::FixedArray(us));
        assert forall|j: int| 0 <= j < us.len() implies type_check(
            #[trigger] us[j],
            AbiKind::Uint(256),
        ) by {
            assert(us[j] == uint_value(si.swap_params@[i]@[j]));
        }
    }
    assert(type_check(AbiValue::FixedArray(rows), AbiKind::FixedArray(Box::new(row_kind), 5)));
    let vs = swap_info_value(si)->Tuple_0;
    let ks = swap_info_kind()->Tuple_0;
    lemma_checks_at_each_place(vs, ks);
}

proof fn lemma_swap_infos_check(v: Seq<SwapInfo>)
    requires
        forall|i: int| 0 <= i < v.len() ==> swap_info_ok(#[trigger] v[i]),
    ensures
        type_check(swap_infos_value(v), AbiKind::Array(Box::new(swap_info_kind()))),
{
    let vs = v.map_values(|si: SwapInfo| swap_info_value(si));
    assert forall|i: int| 0 <= i < vs.len() implies type_check(#[trigger] vs[i], swap_info_kind()) by {
        lemma_swap_info_checks(v[i]);
    }
}

/// The `add_collateral` arguments of well-formed bots type-check.
pub proof fn lemma_add_collateral_args_check(bots: Seq<BotInfo>)
    requires
        forall|i: int| 0 <= i < bots.len() ==> add_collateral_bot_ok(#[trigger] bots[i]),
    ensures
        types_check(add_collateral_args(bots), param_kinds(add_collateral_function().inputs)),
{
    let args = add_collateral_args(bots);
    let kinds = param_kinds(add_collateral_function().inputs);
    assert(kinds =~= seq![
        address_array_kind(),
        AbiKind::Array(Box::new(AbiKind::Array(Box::new(swap_info_kind())))),
        address_array_kind(),
        uint256_array_kind(),
    ]);
    let a0 = args[0]->Array_0;
    assert forall|i: int| 0 <= i < a0.len() implies type_check(#[trigger] a0[i], AbiKind::Address) by {
        assert(add_collateral_bot_ok(bots[i]));
    }
    let a1 = args[1]->Array_0;
    assert forall|i: int| 0 <= i < a1.len() implies type_check(
        #[trigger] a1[i],
        AbiKind::Array(Box::new(swap_info_kind())),
    ) by {
        assert(add_collateral_bot_ok(bots[i]));
        lemma_swap_infos_check(bots[i].swap_infos@);
    }
    let a2 = args[2]->Array_0;
    assert forall|i: int| 0 <= i < a2.len() implies type_check(#[trigger] a2[i], AbiKind::Address) by {
        assert(add_collateral_bot_ok(bots[i]));
    }
    let a3 = args[3]->Array_0;
    assert forall|i: int| 0 <= i < a3.len() implies type_check(#[trigger] a3[i], AbiKind::Uint(256)) by {
    }
    lemma_checks_at_each_place(args, kinds);
}

/// The `repay` arguments of well-formed bots type-check.
pub proof fn lemma_repay_args_check(bots: Seq<BotInfo>)
    requires
        forall|i: int| 0 <= i < bots.len() ==> repay_bot_ok(#[trigger] bots[i]),
    ensures
        types_check(repay_args(bots), param_kinds(repay_function().inputs)),
{
    let args = repay_args(bots);
    let kinds = param_kinds(repay_function().inputs);
    assert(kinds =~= seq![address_array_kind(), address_array_kind(), uint256_array_kind()]);
    let a0 = args[0]->Array_0;
    assert forall|i: int| 0 <= i < a0.len() implies type_check(#[trigger] a0[i], AbiKind::Address) by {
        assert(repay_bot_ok(bots[i]));
    }
    let a1 = args[1]->Array_0;
    assert forall|i: int| 0 <= i < a1.len() implies type_check(#[trigger] a1[i], AbiKind::Address) by {
        assert(repay_bot_ok(bots[i]));
    }
    let a2 = args[2]->Array_0;
    assert forall|i: int| 0 <= i < a2.len() implies type_check(#[trigger] a2[i], AbiKind::Uint(256)) by {
    }
    lemma_checks_at_each_place(args, kinds);
}

// ---------------------------------------------------------------------------
// Building the types and the tokens.

pub(crate) fn array_token(v: Vec<AbiToken>) -> (t: AbiToken)
    ensures
        t@ == AbiValue::Array(token_values(v@)),
{
    let t = AbiToken::Array(v);
    assert(t@->Array_0 =~= token_values(v@));
    t
}

fn fixed_array_token(v: Vec<AbiToken>) -> (t: AbiToken)
    ensures
        t@ == AbiValue::FixedArray(token_values(v@)),
{
    let t = AbiToken::FixedArray(v);
    assert(t@->FixedArray_0 =~= token_values(v@));
    t
}

fn tuple_token(v: Vec<AbiToken>) -> (t: AbiToken)
    ensures
        t@ == AbiValue::Tuple(token_values(v@)),
{
    let t = AbiToken::Tuple(v);
    assert(t@->Tuple_0 =~= token_values(v@));
    t
}

/// The token of an address text.
pub(crate) fn address_token(s: &String) -> (t: AbiToken)
    requires
        address_valid(s@),
    ensures
        t@ == address_value(s@),
{
    let bytes = parse_address(s.as_str()).unwrap();
    AbiToken::Address(bytes)
}

fn address_tokens(v: &Vec<String>) -> (ts: Vec<AbiToken>)
    requires
        addresses_valid(v@),
    ensures
        token_values(ts@) == address_values(v@),
{
    let mut ts: Vec<AbiToken> = Vec::new();
    let mut i: usize = 0;
    while i < v.len()
        invariant
            i <= v@.len(),
            addresses_valid(v@),
            ts@.len() == i,
            forall|j: int| 0 <= j < i ==> (#[trigger] ts@[j])@ == address_value(v@[j]@),
        decreases v@.len() - i,
    {
        ts.push(address_token(&v[i]));
        i = i + 1;
    }
    assert(token_values(ts@) =~= address_values(v@));
    ts
}

fn uint_tokens(v: &Vec<[u8; 32]>) -> (ts: Vec<AbiToken>)
    ensures
        token_values(ts@) == uint_values(v@),
{
    let mut ts: Vec<AbiToken> = Vec::new();
    let mut i: usize = 0;
    while i < v.len()
        invariant
            i <= v@.len(),
            ts@.len() == i,
            forall|j: int| 0 <= j < i ==> (#[trigger] ts@[j])@ == uint_value(v@[j]),
        decreases v@.len() - i,
    {
        ts.push(AbiToken::Uint(v[i]));
        i = i + 1;
    }
    assert(token_values(ts@) =~= uint_values(v@));
    ts
}

fn swap_params_token(rows: &Vec<Vec<[u8; 32]>>) -> (t: AbiToken)
    ensures
        t@ == AbiValue::FixedArray(
            rows@.map_values(|row: Vec<[u8; 32]>| AbiValue::FixedArray(uint_values(row@))),
        ),
{
    let mut ts: Vec<AbiToken> = Vec::new();
    let mut i: usize = 0;
    while i < rows.len()
        invariant
            i <= rows@.len(),
            ts@.len() == i,
            forall|j: int|
                0 <= j < i ==> (#[trigger] ts@[j])@ == AbiValue::FixedArray(
                    uint_values(rows@[j]@),
                ),
        decreases rows@.len() - i,
    {
        ts.push(fixed_array_token(uint_tokens(&rows[i])));
        i = i + 1;
    }
    assert(token_values(ts@) =~= rows@.map_values(
        |row: Vec<[u8; 32]>| AbiValue::FixedArray(uint_values(row@)),
    ));
    fixed_array_token(ts)
}

fn swap_info_token(si: &SwapInfo) -> (t: AbiToken)
    requires
        swap_info_ok(*si),
    ensures
        t@ == swap_info_value(*si),
{
    let mut ts: Vec<AbiToken> = Vec::new();
    ts.push(fixed_array_token(address_tokens(&si.route)));
    ts.push(swap_params_token(&si.swap_params));
    ts.push(AbiToken::Uint(si.amount));
    ts.push(AbiToken::Uint(si.expected));
    ts.push(fixed_array_token(address_tokens(&si.pools)));
    assert(token_values(ts@) =~= swap_info_value(*si)->Tuple_0);
    tuple_token(ts)
}

fn swap_infos_token(v: &Vec<SwapInfo>) -> (t: AbiToken)
    requires
        forall|i: int| 0 <= i < v@.len() ==> swap_info_ok(#[trigger] v@[i]),
    ensures
        t@ == swap_infos_value(v@),
{
    let mut ts: Vec<AbiToken> = Vec::new();
    let mut i: usize = 0;
    while i < v.len()
        invariant
            i <= v@.len(),
            forall|j: int| 0 <= j < v@.len() ==> swap_info_ok(#[trigger] v@[j]),
            ts@.len() == i,
            forall|j: int| 0 <= j < i ==> (#[trigger] ts@[j])@ == swap_info_value(v@[j]),
        decreases v@.len() - i,
    {
        ts.push(swap_info_token(&v[i]));
        i = i + 1;
    }
    assert(token_values(ts@) =~= v@.map_values(|si: SwapInfo| swap_info_value(si)));
    array_token(ts)
}

/// The tokens that one handled bot adds to each argument of `add_collateral`.
pub(crate) fn add_collateral_bot_tokens(b: &BotInfo) -> (ts: (AbiToken, AbiToken, AbiToken, AbiToken))
    requires
        add_collateral_bot_ok(*b),
    ensures
        ts.0@ == address_value(b.bot@),
        ts.1@ == swap_infos_value(b.swap_infos@),
        ts.2@ == address_value(b.collateral@),
        ts.3@ == uint_value(b.amount),
{
    (
        address_token(&b.bot),
        swap_infos_token(&b.swap_infos),
        address_token(&b.collateral),
        AbiToken::Uint(b.amount),
    )
}

fn array_type(inner: AbiType) -> (t: AbiType)
    ensures
        t@ == AbiKind::Array(Box::new(inner@)),
{
    AbiType::Array(Box::new(inner))
}

fn fixed_array_type(inner: AbiType, n: usize) -> (t: AbiType)
    ensures
        t@ == AbiKind::FixedArray(Box::new(inner@), n as nat),
{
    AbiType::FixedArray(Box::new(inner), n)
}

fn address_type() -> (t: AbiType)
    ensures
        t@ == AbiKind::Address,
{
    AbiType::Address
}

fn uint256_type() -> (t: AbiType)
    ensures
        t@ == AbiKind::Uint(256),
{
    AbiType::Uint(256)
}

fn address_array_type() -> (t: AbiType)
    ensures
        t@ == address_array_kind(),
{
    array_type(address_type())
}

fn uint256_array_type() -> (t: AbiType)
    ensures
        t@ == uint256_array_kind(),
{
    array_type(uint256_type())
}

fn swap_info_type() -> (t: AbiType)
    ensures
        t@ == swap_info_kind(),
{
    let mut v: Vec<AbiType> = Vec::new();
    v.push(fixed_array_type(address_type(), 11));
    v.push(fixed_array_type(fixed_array_type(uint256_type(), 5), 5));
    v.push(uint256_type());
    v.push(uint256_type());
    v.push(fixed_array_type(address_type(), 5));
    let t = AbiType::Tuple(v);
    assert(t@->Tuple_0 =~= swap_info_kind()->Tuple_0);
    t
}

fn abi_param(name: &str, kind: AbiType) -> (p: AbiParam)
    ensures
        p@ == param(name@, kind@),
{
    AbiParam { name: String::from_str(name), kind }
}

/// The `add_collateral` function.
pub(crate) fn add_collateral_abi() -> (f: AbiFunction)
    ensures
        f@ == add_collateral_function(),
{
    let mut inputs: Vec<AbiParam> = Vec::new();
    inputs.push(abi_param("bots", address_array_type()));
    inputs.push(
        abi_param("swap_infos", array_type(array_type(swap_info_type()))),
    );
    inputs.push(abi_param("collateral", address_array_type()));
    inputs.push(abi_param("lend_amount", uint256_array_type()));
    let f = AbiFunction { name: String::from_str("add_collateral"), inputs };
    assert(f@.inputs =~= add_collateral_function().inputs);
    f
}

/// The `repay` function.
pub(crate) fn repay_abi() -> (f: AbiFunction)
    ensures
        f@ == repay_function(),
{
    let mut inputs: Vec<AbiParam> = Vec::new();
    inputs.push(abi_param("bots", address_array_type()));
    inputs.push(abi_param("collateral", address_array_type()));
    inputs.push(abi_param("repay_amount", uint256_array_type()));
    let f = AbiFunction { name: String::from_str("repay"), inputs };
    assert(f@.inputs =~= repay_function().inputs);
    f
}

/// The `set_paloma` function.
pub(crate) fn set_paloma_abi() -> (f: AbiFunction)
    ensures
        f@ == set_paloma_function(),
{
    let f = AbiFunction { name: String::from_str("set_paloma"), inputs: Vec::new() };
    assert(f@.inputs =~= set_paloma_function().inputs);
    f
}

/// A function of one input.
pub(crate) fn unary_abi(name: &str, input: &str, kind: AbiType) -> (f: AbiFunction)
    ensures
        f@ == unary_function(name@, input@, kind@),
{
    let mut inputs: Vec<AbiParam> = Vec::new();
    inputs.push(abi_param(input, kind));
    let f = AbiFunction { name: String::from_str(name), inputs };
    assert(f@.inputs =~= unary_function(name@, input@, kind@).inputs);
    f
}

} // verus!
