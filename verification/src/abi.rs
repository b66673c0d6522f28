//! Solidity ABI values as the contract builds them, and the calls into `ethabi`
//! that parse addresses and encode function calls.
use std::str::FromStr;
use vstd::prelude::*;

verus! {

/// The ABI type of a function parameter (the model of [`AbiType`]).
pub enum AbiKind {
    Address,
    Uint(nat),
    Array(Box<AbiKind>),
    FixedArray(Box<AbiKind>, nat),
    Tuple(Seq<AbiKind>),
}

/// An ABI value (the model of [`AbiToken`]): addresses are 20 bytes, unsigned
/// integers are 32 big-endian bytes.
pub enum AbiValue {
    Address(Seq<u8>),
    Uint(Seq<u8>),
    Array(Seq<AbiValue>),
    FixedArray(Seq<AbiValue>),
    Tuple(Seq<AbiValue>),
}

/// A named function parameter (the model of [`AbiParam`]).
pub struct ParamSpec {
    pub name: Seq<char>,
    pub kind: AbiKind,
}

/// A function signature (the model of [`AbiFunction`]).
pub struct FunctionSpec {
    pub name: Seq<char>,
    pub inputs: Seq<ParamSpec>,
}

/// The ABI type of a function parameter.
pub enum AbiType {
    Address,
    Uint(usize),
    Array(Box<AbiType>),
    FixedArray(Box<AbiType>, usize),
    Tuple(Vec<AbiType>),
}

/// An ABI value ready to be encoded.
pub enum AbiToken {
    Address([u8; 20]),
    Uint([u8; 32]),
    Array(Vec<AbiToken>),
    FixedArray(Vec<AbiToken>),
    Tuple(Vec<AbiToken>),
}

/// A named function parameter.
pub struct AbiParam {
    pub name: String,
    pub kind: AbiType,
}

/// A non-payable function with its inputs and no outputs.
pub struct AbiFunction {
    pub name: String,
    pub inputs: Vec<AbiParam>,
}

impl AbiType {
    pub open spec fn kind(&self) -> AbiKind
        decreases self,
    {
        match self {
            AbiType::Address => AbiKind::Address,
            AbiType::Uint(bits) => AbiKind::Uint(*bits as nat),
            AbiType::Array(inner) => AbiKind::Array(Box::new((**inner).kind())),
            AbiType::FixedArray(inner, n) => AbiKind::FixedArray(
                Box::new((**inner).kind()),
                *n as nat,
            ),
            AbiType::Tuple(v) => AbiKind::Tuple(
                Seq::new(
                    v.len() as nat,
                    |i: int|
                        if 0 <= i < v.len() {
                            v@[i].kind()
                        } else {
                            AbiKind::Address
                        },
                ),
            ),
        }
    }
}

impl View for AbiType {
    type V = AbiKind;

    open spec fn view(&self) -> AbiKind {
        self.kind()
    }
}

impl AbiToken {
    pub open spec fn value(&self) -> AbiValue
        decreases self,
    {
        match self {
            AbiToken::Address(a) => AbiValue::Address(a@),
            AbiToken::Uint(u) => AbiValue::Uint(u@),
            AbiToken::Array(v) => AbiValue::Array(
                Seq::new(
                    v.len() as nat,
                    |i: int|
                        if 0 <= i < v.len() {
                            v@[i].value()
                        } else {
                            AbiValue::Address(Seq::empty())
                        },
                ),
            ),
            AbiToken::FixedArray(v) => AbiValue::FixedArray(
                Seq::new(
                    v.len() as nat,
                    |i: int|
                        if 0 <= i < v.len() {
                            v@[i].value()
                        } else {
                            AbiValue::Address(Seq::empty())
                        },
                ),
            ),
            AbiToken::Tuple(v) => AbiValue::Tuple(
                Seq::new(
                    v.len() as nat,
                    |i: int|
                        if 0 <= i < v.len() {
                            v@[i].value()
                        } else {
                            AbiValue::Address(Seq::empty())
                        },
                ),
            ),
        }
    }
}

impl View for AbiToken {
    type V = AbiValue;

    open spec fn view(&self) -> AbiValue {
        self.value()
    }
}

/// The values of a sequence of tokens.
pub open spec fn token_values(tokens: Seq<AbiToken>) -> Seq<AbiValue> {
    tokens.map_values(|t: AbiToken| t.value())
}

/// The types of a sequence of parameters.
pub open spec fn param_kinds(params: Seq<ParamSpec>) -> Seq<AbiKind> {
    params.map_values(|p: ParamSpec| p.kind)
}

impl View for AbiParam {
    type V = ParamSpec;

    open spec fn view(&self) -> ParamSpec {
        ParamSpec { name: self.name@, kind: self.kind@ }
    }
}

impl View for AbiFunction {
    type V = FunctionSpec;

    open spec fn view(&self) -> FunctionSpec {
        FunctionSpec { name: self.name@, inputs: self.inputs@.map_values(|p: AbiParam| p@) }
    }
}

/// Whether `ethabi`'s `Token::type_check` returns `true` for a value and a type.
/// (For a tuple with more values than types it indexes past the types; that case is
/// not a `true` either.)
pub open spec fn type_check(value: AbiValue, kind: AbiKind) -> bool
    decreases value,
{
    match value {
        AbiValue::Address(_) => kind == AbiKind::Address,
        AbiValue::Uint(_) => kind is Uint,
        AbiValue::Array(vs) => match kind {
            AbiKind::Array(inner) => forall|i: int|
                0 <= i < vs.len() ==> type_check(#[trigger] vs[i], *inner),
            _ => false,
        },
        AbiValue::FixedArray(vs) => match kind {
            AbiKind::FixedArray(inner, n) => n == vs.len() && forall|i: int|
                0 <= i < vs.len() ==> type_check(#[trigger] vs[i], *inner),
            _ => false,
        },
        AbiValue::Tuple(vs) => match kind {
            AbiKind::Tuple(kinds) => vs.len() <= kinds.len() && forall|i: int|
                0 <= i < vs.len() ==> type_check(#[trigger] vs[i], kinds[i]),
            _ => false,
        },
    }
}

/// `ethabi`'s `Token::types_check`: as many values as types, each of its type.
pub open spec fn types_check(values: Seq<AbiValue>, kinds: Seq<AbiKind>) -> bool {
    values.len() == kinds.len() && forall|i: int|
        0 <= i < values.len() ==> type_check(#[trigger] values[i], kinds[i])
}

/// The bytes that `ethabi::Function::encode_input` returns for a function and its
/// arguments: the 4-byte Keccak selector of the signature followed by the ABI
/// encoding of the arguments.
pub uninterp spec fn abi_encode_input(function: FunctionSpec, args: Seq<AbiValue>) -> Seq<u8>;

pub open spec fn is_hex_digit(c: char) -> bool {
    ||| '0' <= c <= '9'
    ||| 'a' <= c <= 'f'
    ||| 'A' <= c <= 'F'
}

/// The characters that the hex decoder of `rustc-hex` skips.
pub open spec fn is_hex_space(c: char) -> bool {
    c == ' ' || c == '\r' || c == '\n' || c == '\t'
}

pub open spec fn hex_value(c: char) -> int {
    if '0' <= c <= '9' {
        c as int - '0' as int
    } else if 'a' <= c <= 'f' {
        c as int - 'a' as int + 10
    } else {
        c as int - 'A' as int + 10
    }
}

/// The text after an optional leading `0x`.
pub open spec fn strip_hex_prefix(s: Seq<char>) -> Seq<char> {
    if s.len() >= 2 && s[0] == '0' && s[1] == 'x' {
        s.skip(2)
    } else {
        s
    }
}

/// The hex digits of an address text, in order.
pub open spec fn hex_digits(s: Seq<char>) -> Seq<char> {
    strip_hex_prefix(s).filter(|c: char| !is_hex_space(c))
}

/// The texts that parse as an Ethereum address: after an optional `0x`, only hex
/// digits and blanks, with exactly 40 hex digits.
pub open spec fn address_valid(s: Seq<char>) -> bool {
    &&& forall|i: int|
        0 <= i < strip_hex_prefix(s).len() ==> is_hex_digit(#[trigger] strip_hex_prefix(s)[i])
            || is_hex_space(strip_hex_prefix(s)[i])
    &&& hex_digits(s).len() == 40
}

/// The 20 bytes of a valid address text: each pair of hex digits, high digit first.
pub open spec fn address_bytes(s: Seq<char>) -> Seq<u8> {
    let d = hex_digits(s);
    Seq::new(20, |i: int| (hex_value(d[2 * i]) * 16 + hex_value(d[2 * i + 1])) as u8)
}

/// The ABI value of an address text.
pub open spec fn address_value(s: Seq<char>) -> AbiValue {
    AbiValue::Address(address_bytes(s))
}

#[verifier::external_type_specification]
#[verifier::external_body]
pub struct ExEthabiToken(ethabi::Token);

#[verifier::external_type_specification]
#[verifier::external_body]
pub struct ExEthabiParamType(ethabi::ParamType);

/// Parses an address with `<ethabi::Address as FromStr>::from_str` (fixed-hash over
/// `rustc-hex`). Claimed: it succeeds exactly on [`address_valid`] texts and gives the
/// bytes [`address_bytes`].
#[verifier::external_body]
pub(crate) fn parse_address(s: &str) -> (res: Option<[u8; 20]>)
    ensures
        res is Some <==> address_valid(s@),
        res matches Some(bytes) ==> bytes@ == address_bytes(s@),
{
    ethabi::Address::from_str(s).ok().map(|a| a.0)
}

/// Converts a token to an `ethabi::Token`, one variant for one: an address through
/// `ethabi::Address::from`, an integer through `ethabi::Uint::from_big_endian`.
/// Nothing is claimed of the result; [`encode_input`] states the encoding.
#[verifier::external_body]
fn to_ethabi_token(token: &AbiToken) -> ethabi::Token {
    match token {
        AbiToken::Address(b) => ethabi::Token::Address(ethabi::Address::from(*b)),
        AbiToken::Uint(b) => ethabi::Token::Uint(ethabi::Uint::from_big_endian(b)),
        AbiToken::Array(v) => ethabi::Token::Array(v.iter().map(to_ethabi_token).collect()),
        AbiToken::FixedArray(v) => ethabi::Token::FixedArray(v.iter().map(to_ethabi_token).collect()),
        AbiToken::Tuple(v) => ethabi::Token::Tuple(v.iter().map(to_ethabi_token).collect()),
    }
}

/// Converts a type to an `ethabi::ParamType`, one variant for one. Nothing is claimed
/// of the result; [`encode_input`] states the encoding.
#[verifier::external_body]
fn to_ethabi_param_type(kind: &AbiType) -> ethabi::ParamType {
    match kind {
        AbiType::Address => ethabi::ParamType::Address,
        AbiType::Uint(bits) => ethabi::ParamType::Uint(*bits),
        AbiType::Array(t) => ethabi::ParamType::Array(Box::new(to_ethabi_param_type(t))),
        AbiType::FixedArray(t, n) => ethabi::ParamType::FixedArray(Box::new(to_ethabi_param_type(t)), *n),
        AbiType::Tuple(v) => ethabi::ParamType::Tuple(v.iter().map(to_ethabi_param_type).collect()),
    }
}

/// Encodes a call with `ethabi::Function::encode_input` on a non-payable function
/// with these inputs and no outputs. Claimed: when the arguments type-check against
/// the inputs (then `encode_input` returns `Ok`), the bytes are
/// [`abi_encode_input`] of the function and the arguments. Left unsaid: `ethabi`
/// computes offsets in `u32`, so an encoding of 4 GiB or more is out of its range.
#[verifier::external_body]
pub(crate) fn encode_input(function: &AbiFunction, args: &Vec<AbiToken>) -> (bytes: Vec<u8>)
    requires
        types_check(token_values(args@), param_kinds(function@.inputs)),
    ensures
        bytes@ == abi_encode_input(function@, token_values(args@)),
{
    #[allow(deprecated)]
    let f = ethabi::Function {
        name: function.name.clone(),
        inputs: function.inputs.iter().map(|p| ethabi::Param {
            name: p.name.clone(),
            kind: to_ethabi_param_type(&p.kind),
            internal_type: None,
        }).collect(),
        outputs: Vec::new(),
        constant: None,
        state_mutability: ethabi::StateMutability::NonPayable,
    };
    let tokens: Vec<ethabi::Token> = args.iter().map(to_ethabi_token).collect();
    f.encode_input(&tokens).unwrap()
}

} // verus!
