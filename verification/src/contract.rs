//! The contract's entry points: instantiation, the owner's requests, and the query.
use crate::abi::{
    abi_encode_input, address_valid, address_value, encode_input, param_kinds, token_values,
    type_check, AbiKind, AbiToken, AbiType, AbiValue, FunctionSpec,
};
use crate::calls::{
    add_collateral_abi, add_collateral_args, array_token, add_collateral_bot_ok, add_collateral_bot_tokens,
    add_collateral_function, address_token, lemma_add_collateral_args_check,
    lemma_repay_args_check, repay_abi, repay_args, repay_bot_ok, repay_function, set_paloma_abi,
    set_paloma_function, unary_abi, unary_function, uint_value,
};
use crate::error::ContractError;
use crate::msg::{
    Attribute, BotInfo, ExecuteMsg, GetJobIdResponse, InstantiateMsg, Metadata, PalomaMsg,
    QueryMsg, QueryResponse, Response,
};
use crate::retry::{
    bot_is_due, check_due, due_bots, lemma_nothing_due_keeps_times, lemma_step,
    retry_arithmetic_fits, step_fits, times_after,
};
use crate::state::{State, TimestampStore};
use vstd::prelude::*;

verus! {

pub open spec fn is_owner(state: State, sender: String) -> bool {
    state.owner@ == sender@
}

/// The state that instantiation stores: the sender becomes the owner.
pub open spec fn instantiated_state(sender: String, msg: InstantiateMsg) -> State {
    State {
        retry_delay: msg.retry_delay,
        job_id: msg.job_id,
        owner: sender,
        metadata: Metadata { creator: msg.creator, signers: msg.signers },
    }
}

/// The same creator and the same signers.
pub open spec fn same_metadata(a: Metadata, b: Metadata) -> bool {
    a.creator == b.creator && a.signers@ == b.signers@
}

pub open spec fn has_attribute(a: Attribute, key: Seq<char>, value: Seq<char>) -> bool {
    a.key@ == key && a.value@ == value
}

/// One Paloma message that runs `function(args)` as the state's job with the state's
/// metadata, and the single attribute `action`.
pub open spec fn paloma_call(
    r: Response,
    state: State,
    action: Seq<char>,
    function: FunctionSpec,
    args: Seq<AbiValue>,
) -> bool {
    &&& r.messages@.len() == 1
    &&& r.messages@[0].job_id == state.job_id
    &&& same_metadata(r.messages@[0].metadata, state.metadata)
    &&& r.messages@[0].payload@ == abi_encode_input(function, args)
    &&& r.attributes@.len() == 1
    &&& has_attribute(r.attributes@[0], "action"@, action)
}

/// Which requests `add_collateral` handles without panicking: a non-empty list, and,
/// from the owner, time arithmetic within 64 bits and well-formed due bots.
pub open spec fn add_collateral_pre(
    state: State,
    sender: String,
    now: u64,
    times: Map<Seq<char>, u64>,
    bots: Seq<BotInfo>,
) -> bool {
    &&& bots.len() > 0
    &&& is_owner(state, sender) ==> {
        &&& retry_arithmetic_fits(times, bots, state.retry_delay, now)
        &&& forall|i: int|
            0 <= i < bots.len() && #[trigger] bot_is_due(times, bots, state.retry_delay, now, i)
                ==> add_collateral_bot_ok(bots[i])
    }
}

/// Which requests `repay` handles without panicking.
pub open spec fn repay_pre(
    state: State,
    sender: String,
    now: u64,
    times: Map<Seq<char>, u64>,
    bots: Seq<BotInfo>,
) -> bool {
    &&& bots.len() > 0
    &&& is_owner(state, sender) ==> {
        &&& retry_arithmetic_fits(times, bots, state.retry_delay, now)
        &&& forall|i: int|
            0 <= i < bots.len() && #[trigger] bot_is_due(times, bots, state.retry_delay, now, i)
                ==> repay_bot_ok(bots[i])
    }
}

/// The outcome of a request on a list of bots: a non-owner is refused; with no due
/// bot the answer is `AllPending`; otherwise the due bots get the current time and
/// the message calls `function` on their arguments. Refusals change no time.
pub open spec fn bot_request_post(
    state: State,
    sender: String,
    now: u64,
    before: Map<Seq<char>, u64>,
    after: Map<Seq<char>, u64>,
    bots: Seq<BotInfo>,
    res: Result<Response, ContractError>,
    action: Seq<char>,
    function: FunctionSpec,
    args: Seq<AbiValue>,
) -> bool {
    if !is_owner(state, sender) {
        res == Err::<Response, ContractError>(ContractError::Unauthorized) && after == before
    } else if due_bots(before, bots, state.retry_delay, now).len() == 0 {
        res == Err::<Response, ContractError>(ContractError::AllPending) && after == before
    } else {
        &&& after == times_after(before, bots, state.retry_delay, now)
        &&& res is Ok
        &&& paloma_call(res->Ok_0, state, action, function, args)
    }
}

pub open spec fn add_collateral_post(
    state: State,
    sender: String,
    now: u64,
    before: Map<Seq<char>, u64>,
    after: Map<Seq<char>, u64>,
    bots: Seq<BotInfo>,
    res: Result<Response, ContractError>,
) -> bool {
    bot_request_post(
        state,
        sender,
        now,
        before,
        after,
        bots,
        res,
        "add_collateral"@,
        add_collateral_function(),
        add_collateral_args(due_bots(before, bots, state.retry_delay, now)),
    )
}

pub open spec fn repay_post(
    state: State,
    sender: String,
    now: u64,
    before: Map<Seq<char>, u64>,
    after: Map<Seq<char>, u64>,
    bots: Seq<BotInfo>,
    res: Result<Response, ContractError>,
) -> bool {
    bot_request_post(
        state,
        sender,
        now,
        before,
        after,
        bots,
        res,
        "repay"@,
        repay_function(),
        repay_args(due_bots(before, bots, state.retry_delay, now)),
    )
}

/// The outcome of a request that only sends a call: a non-owner is refused, the owner
/// gets the message that calls `function(args)`.
pub open spec fn call_post(
    state: State,
    sender: String,
    res: Result<Response, ContractError>,
    action: Seq<char>,
    function: FunctionSpec,
    args: Seq<AbiValue>,
) -> bool {
    if !is_owner(state, sender) {
        res == Err::<Response, ContractError>(ContractError::Unauthorized)
    } else {
        res is Ok && paloma_call(res->Ok_0, state, action, function, args)
    }
}

/// The outcome of an update of one address, sent as `name(address input)`.
pub open spec fn address_update_post(
    state: State,
    sender: String,
    res: Result<Response, ContractError>,
    name: Seq<char>,
    input: Seq<char>,
    address: String,
) -> bool {
    call_post(
        state,
        sender,
        res,
        name,
        unary_function(name, input, AbiKind::Address),
        seq![address_value(address@)],
    )
}

/// The outcome of an update of one amount, sent as `name(uint256 input)`.
pub open spec fn amount_update_post(
    state: State,
    sender: String,
    res: Result<Response, ContractError>,
    name: Seq<char>,
    input: Seq<char>,
    amount: [u8; 32],
) -> bool {
    call_post(
        state,
        sender,
        res,
        name,
        unary_function(name, input, AbiKind::Uint(256)),
        seq![uint_value(amount)],
    )
}

/// Which messages `execute` handles without panicking.
pub open spec fn execute_pre(
    state: State,
    sender: String,
    now: u64,
    times: Map<Seq<char>, u64>,
    msg: ExecuteMsg,
) -> bool {
    match msg {
        ExecuteMsg::AddCollateral { bot_info } => add_collateral_pre(
            state,
            sender,
            now,
            times,
            bot_info@,
        ),
        ExecuteMsg::Repay { bot_info } => repay_pre(state, sender, now, times, bot_info@),
        ExecuteMsg::SetPaloma => true,
        ExecuteMsg::UpdateCompass { new_compass } => is_owner(state, sender) ==> address_valid(
            new_compass@,
        ),
        ExecuteMsg::UpdateBlueprint { new_blueprint } => is_owner(state, sender)
            ==> address_valid(new_blueprint@),
        ExecuteMsg::UpdateRefundWallet { new_refund_wallet } => is_owner(state, sender)
            ==> address_valid(new_refund_wallet@),
        ExecuteMsg::UpdateGasFee { .. } => true,
        ExecuteMsg::UpdateServiceFeeCollector { new_service_fee_collector } => is_owner(
            state,
            sender,
        ) ==> address_valid(new_service_fee_collector@),
        ExecuteMsg::UpdateServiceFee { .. } => true,
    }
}

/// The outcome of `execute` for each message; only the bot requests touch the times.
pub open spec fn execute_post(
    state: State,
    sender: String,
    now: u64,
    before: Map<Seq<char>, u64>,
    after: Map<Seq<char>, u64>,
    msg: ExecuteMsg,
    res: Result<Response, ContractError>,
) -> bool {
    match msg {
        ExecuteMsg::AddCollateral { bot_info } => add_collateral_post(
            state,
            sender,
            now,
            before,
            after,
            bot_info@,
            res,
        ),
        ExecuteMsg::Repay { bot_info } => repay_post(
            state,
            sender,
            now,
            before,
            after,
            bot_info@,
            res,
        ),
        ExecuteMsg::SetPaloma => after == before && call_post(
            state,
            sender,
            res,
            "set_paloma"@,
            set_paloma_function(),
            Seq::empty(),
        ),
        ExecuteMsg::UpdateCompass { new_compass } => after == before && address_update_post(
            state,
            sender,
            res,
            "update_compass"@,
            "new_compass"@,
            new_compass,
        ),
        ExecuteMsg::UpdateBlueprint { new_blueprint } => after == before && address_update_post(
            state,
            sender,
            res,
            "update_blueprint"@,
            "new_compass"@,
            new_blueprint,
        ),
        ExecuteMsg::UpdateRefundWallet { new_refund_wallet } => after == before
            && address_update_post(
            state,
            sender,
            res,
            "update_refund_wallet"@,
            "new_compass"@,
            new_refund_wallet,
        ),
        ExecuteMsg::UpdateGasFee { new_gas_fee } => after == before && amount_update_post(
            state,
            sender,
            res,
            "update_gas_fee"@,
            "new_gas_fee"@,
            new_gas_fee,
        ),
        ExecuteMsg::UpdateServiceFeeCollector { new_service_fee_collector } => after == before
            && address_update_post(
            state,
            sender,
            res,
            "update_service_fee_collector"@,
            "new_service_fee_collector"@,
            new_service_fee_collector,
        ),
        ExecuteMsg::UpdateServiceFee { new_service_fee } => after == before && amount_update_post(
            state,
            sender,
            res,
            "update_service_fee"@,
            "new_service_fee"@,
            new_service_fee,
        ),
    }
}

fn attribute(key: &str, value: String) -> (a: Attribute)
    ensures
        has_attribute(a, key@, value@),
{
    Attribute { key: String::from_str(key), value }
}

/// The response that sends `payload` as the state's job.
fn paloma_response(state: &State, payload: Vec<u8>, action: &str) -> (r: Response)
    ensures
        r.messages@.len() == 1,
        r.messages@[0].job_id == state.job_id,
        same_metadata(r.messages@[0].metadata, state.metadata),
        r.messages@[0].payload@ == payload@,
        r.attributes@.len() == 1,
        has_attribute(r.attributes@[0], "action"@, action@),
{
    let mut messages: Vec<PalomaMsg> = Vec::new();
    messages.push(
        PalomaMsg { job_id: state.job_id.clone(), payload, metadata: state.metadata.copy() },
    );
    let mut attributes: Vec<Attribute> = Vec::new();
    attributes.push(attribute("action", String::from_str(action)));
    Response { messages, attributes }
}

/// Stores the state (the sender becomes the owner) and answers with the attributes
/// `method`, `owner` and `job_id`.
pub fn instantiate(sender: String, msg: InstantiateMsg) -> (res: (State, Response))
    ensures
        res.0 == instantiated_state(sender, msg),
        res.1.messages@.len() == 0,
        res.1.attributes@.len() == 3,
        has_attribute(res.1.attributes@[0], "method"@, "instantiate"@),
        has_attribute(res.1.attributes@[1], "owner"@, sender@),
        has_attribute(res.1.attributes@[2], "job_id"@, msg.job_id@),
{
    let mut attributes: Vec<Attribute> = Vec::new();
    attributes.push(attribute("method", String::from_str("instantiate")));
    attributes.push(attribute("owner", sender.clone()));
    attributes.push(attribute("job_id", msg.job_id.clone()));
    let state = State {
        retry_delay: msg.retry_delay,
        job_id: msg.job_id,
        owner: sender,
        metadata: Metadata { creator: msg.creator, signers: msg.signers },
    };
    (state, Response { messages: Vec::new(), attributes })
}

/// Runs one message of the owner. `times` holds the last-handled times of the bots
/// named in the message, in the table of that request (add collateral or repay).
/// The state is only read: no message changes the owner, the job id, the retry
/// delay or the metadata.
pub fn execute(
    state: &State,
    sender: &String,
    now: u64,
    times: &mut TimestampStore,
    msg: ExecuteMsg,
) -> (res: Result<Response, ContractError>)
    requires
        execute_pre(*state, *sender, now, old(times)@, msg),
    ensures
        execute_post(*state, *sender, now, old(times)@, final(times)@, msg, res),
{
    match msg {
        ExecuteMsg::AddCollateral { bot_info } => add_collateral(state, sender, now, times, bot_info),
        ExecuteMsg::Repay { bot_info } => repay(state, sender, now, times, bot_info),
        ExecuteMsg::SetPaloma => set_paloma(state, sender),
        ExecuteMsg::UpdateCompass { new_compass } => update_compass(state, sender, new_compass),
        ExecuteMsg::UpdateBlueprint { new_blueprint } => update_blueprint(
            state,
            sender,
            new_blueprint,
        ),
        ExecuteMsg::UpdateRefundWallet { new_refund_wallet } => update_refund_wallet(
            state,
            sender,
            new_refund_wallet,
        ),
        ExecuteMsg::UpdateGasFee { new_gas_fee } => update_gas_fee(state, sender, new_gas_fee),
        ExecuteMsg::UpdateServiceFeeCollector { new_service_fee_collector } =>
            update_service_fee_collector(state, sender, new_service_fee_collector),
        ExecuteMsg::UpdateServiceFee { new_service_fee } => update_service_fee(
            state,
            sender,
            new_service_fee,
        ),
    }
}

/// Asks the Vyper contract to add collateral for each due bot, with its swaps, and
/// records the current time for them.
pub fn add_collateral(
    state: &State,
    sender: &String,
    now: u64,
    times: &mut TimestampStore,
    bot_info: Vec<BotInfo>,
) -> (res: Result<Response, ContractError>)
    requires
        add_collateral_pre(*state, *sender, now, old(times)@, bot_info@),
    ensures
        add_collateral_post(*state, *sender, now, old(times)@, final(times)@, bot_info@, res),
{
    if !(state.owner == *sender) {
        return Err(ContractError::Unauthorized);
    }
    let ghost t0 = times@;
    let ghost bots = bot_info@;
    let delay = state.retry_delay;
    let mut bot_tokens: Vec<AbiToken> = Vec::new();
    let mut swap_tokens: Vec<AbiToken> = Vec::new();
    let mut collateral_tokens: Vec<AbiToken> = Vec::new();
    let mut amount_tokens: Vec<AbiToken> = Vec::new();
    let mut i: usize = 0;
    assert(bots.take(0) =~= Seq::<BotInfo>::empty());
    while i < bot_info.len()
        invariant
            bots == bot_info@,
            i <= bots.len(),
            retry_arithmetic_fits(t0, bots, delay, now),
            forall|k: int|
                0 <= k < bots.len() && #[trigger] bot_is_due(t0, bots, delay, now, k)
                    ==> add_collateral_bot_ok(bots[k]),
            times@ == times_after(t0, bots.take(i as int), delay, now),
            bot_tokens@.len() == due_bots(t0, bots.take(i as int), delay, now).len(),
            swap_tokens@.len() == bot_tokens@.len(),
            collateral_tokens@.len() == bot_tokens@.len(),
            amount_tokens@.len() == bot_tokens@.len(),
            forall|j: int|
                0 <= j < bot_tokens@.len() ==> {
                    let b = #[trigger] due_bots(t0, bots.take(i as int), delay, now)[j];
                    &&& add_collateral_bot_ok(b)
                    &&& bot_tokens@[j]@ == address_value(b.bot@)
                    &&& swap_tokens@[j]@ == crate::calls::swap_infos_value(b.swap_infos@)
                    &&& collateral_tokens@[j]@ == address_value(b.collateral@)
                    &&& amount_tokens@[j]@ == uint_value(b.amount)
                },
        decreases bots.len() - i,
    {
        let bot = &bot_info[i];
        proof {
            lemma_step(t0, bots, delay, now, i as int);
            assert(step_fits(t0, bots, delay, now, i as int));
        }
        let due = check_due(times, &bot.bot, delay, now);
        if due {
            assert(bot_is_due(t0, bots, delay, now, i as int));
            let (a, b, c, d) = add_collateral_bot_tokens(bot);
            bot_tokens.push(a);
            swap_tokens.push(b);
            collateral_tokens.push(c);
            amount_tokens.push(d);
            times.insert(bot.bot.clone(), now);
        }
        i = i + 1;
    }
    assert(bots.take(bots.len() as int) =~= bots);
    let ghost due = due_bots(t0, bots, delay, now);
    if bot_tokens.len() == 0 {
        proof {
            lemma_nothing_due_keeps_times(t0, bots, delay, now);
        }
        return Err(ContractError::AllPending);
    }
    proof {
        assert forall|j: int| 0 <= j < due.len() implies add_collateral_bot_ok(#[trigger] due[j]) by {
        }
        lemma_add_collateral_args_check(due);
    }
    let mut args: Vec<AbiToken> = Vec::new();
    args.push(array_token(bot_tokens));
    args.push(array_token(swap_tokens));
    args.push(array_token(collateral_tokens));
    args.push(array_token(amount_tokens));
    assert(args@[0]@->Array_0 =~= add_collateral_args(due)[0]->Array_0);
    assert(args@[1]@->Array_0 =~= add_collateral_args(due)[1]->Array_0);
    assert(args@[2]@->Array_0 =~= add_collateral_args(due)[2]->Array_0);
    assert(args@[3]@->Array_0 =~= add_collateral_args(due)[3]->Array_0);
    assert(token_values(args@) =~= add_collateral_args(due));
    let payload = encode_input(&add_collateral_abi(), &args);
    Ok(paloma_response(state, payload, "add_collateral"))
}

/// Asks the Vyper contract to repay for each due bot, and records the current time
/// for them.
pub fn repay(
    state: &State,
    sender: &String,
    now: u64,
    times: &mut TimestampStore,
    bot_info: Vec<BotInfo>,
) -> (res: Result<Response, ContractError>)
    requires
        repay_pre(*state, *sender, now, old(times)@, bot_info@),
    ensures
        repay_post(*state, *sender, now, old(times)@, final(times)@, bot_info@, res),
{
    if !(state.owner == *sender) {
        return Err(ContractError::Unauthorized);
    }
    let ghost t0 = times@;
    let ghost bots = bot_info@;
    let delay = state.retry_delay;
    let mut bot_tokens: Vec<AbiToken> = Vec::new();
    let mut collateral_tokens: Vec<AbiToken> = Vec::new();
    let mut amount_tokens: Vec<AbiToken> = Vec::new();
    let mut i: usize = 0;
    assert(bots.take(0) =~= Seq::<BotInfo>::empty());
    while i < bot_info.len()
        invariant
            bots == bot_info@,
            i <= bots.len(),
            retry_arithmetic_fits(t0, bots, delay, now),
            forall|k: int|
                0 <= k < bots.len() && #[trigger] bot_is_due(t0, bots, delay, now, k)
                    ==> repay_bot_ok(bots[k]),
            times@ == times_after(t0, bots.take(i as int), delay, now),
            bot_tokens@.len() == due_bots(t0, bots.take(i as int), delay, now).len(),
            collateral_tokens@.len() == bot_tokens@.len(),
            amount_tokens@.len() == bot_tokens@.len(),
            forall|j: int|
                0 <= j < bot_tokens@.len() ==> {
                    let b = #[trigger] due_bots(t0, bots.take(i as int), delay, now)[j];
                    &&& repay_bot_ok(b)
                    &&& bot_tokens@[j]@ == address_value(b.bot@)
                    &&& collateral_tokens@[j]@ == address_value(b.collateral@)
                    &&& amount_tokens@[j]@ == uint_value(b.amount)
                },
        decreases bots.len() - i,
    {
        let bot = &bot_info[i];
        proof {
            lemma_step(t0, bots, delay, now, i as int);
            assert(step_fits(t0, bots, delay, now, i as int));
        }
        let due = check_due(times, &bot.bot, delay, now);
        if due {
            assert(bot_is_due(t0, bots, delay, now, i as int));
            bot_tokens.push(address_token(&bot.bot));
            collateral_tokens.push(address_token(&bot.collateral));
            amount_tokens.push(AbiToken::Uint(bot.amount));
            times.insert(bot.bot.clone(), now);
        }
        i = i + 1;
    }
    assert(bots.take(bots.len() as int) =~= bots);
    let ghost due = due_bots(t0, bots, delay, now);
    if bot_tokens.len() == 0 {
        proof {
            lemma_nothing_due_keeps_times(t0, bots, delay, now);
        }
        return Err(ContractError::AllPending);
    }
    proof {
        assert forall|j: int| 0 <= j < due.len() implies repay_bot_ok(#[trigger] due[j]) by {
        }
        lemma_repay_args_check(due);
    }
    let mut args: Vec<AbiToken> = Vec::new();
    args.push(array_token(bot_tokens));
    args.push(array_token(collateral_tokens));
    args.push(array_token(amount_tokens));
    assert(args@[0]@->Array_0 =~= repay_args(due)[0]->Array_0);
    assert(args@[1]@->Array_0 =~= repay_args(due)[1]->Array_0);
    assert(args@[2]@->Array_0 =~= repay_args(due)[2]->Array_0);
    assert(token_values(args@) =~= repay_args(due));
    let payload = encode_input(&repay_abi(), &args);
    Ok(paloma_response(state, payload, "repay"))
}

/// Asks the Vyper contract to register this contract with `set_paloma()`.
pub fn set_paloma(state: &State, sender: &String) -> (res: Result<Response, ContractError>)
    ensures
        call_post(*state, *sender, res, "set_paloma"@, set_paloma_function(), Seq::empty()),
{
    if !(state.owner == *sender) {
        return Err(ContractError::Unauthorized);
    }
    let args: Vec<AbiToken> = Vec::new();
    assert(token_values(args@) =~= Seq::<AbiValue>::empty());
    assert(param_kinds(set_paloma_function().inputs) =~= Seq::<AbiKind>::empty());
    let payload = encode_input(&set_paloma_abi(), &args);
    Ok(paloma_response(state, payload, "set_paloma"))
}

/// Sends `name(arg)` for the owner; `kind` is the type of the one input.
fn unary_call(
    state: &State,
    name: &str,
    input: &str,
    kind: AbiType,
    arg: AbiToken,
) -> (r: Response)
    requires
        type_check(arg@, kind@),
    ensures
        paloma_call(r, *state, name@, unary_function(name@, input@, kind@), seq![arg@]),
{
    let ghost k = kind@;
    let f = unary_abi(name, input, kind);
    let mut args: Vec<AbiToken> = Vec::new();
    args.push(arg);
    assert(token_values(args@) =~= seq![args@[0]@]);
    assert(param_kinds(f@.inputs) =~= seq![k]);
    let payload = encode_input(&f, &args);
    paloma_response(state, payload, name)
}

fn address_update(
    state: &State,
    sender: &String,
    name: &str,
    input: &str,
    address: String,
) -> (res: Result<Response, ContractError>)
    requires
        is_owner(*state, *sender) ==> address_valid(address@),
    ensures
        address_update_post(*state, *sender, res, name@, input@, address),
{
    if !(state.owner == *sender) {
        return Err(ContractError::Unauthorized);
    }
    let token = address_token(&address);
    Ok(unary_call(state, name, input, AbiType::Address, token))
}

fn amount_update(
    state: &State,
    sender: &String,
    name: &str,
    input: &str,
    amount: [u8; 32],
) -> (res: Result<Response, ContractError>)
    ensures
        amount_update_post(*state, *sender, res, name@, input@, amount),
{
    if !(state.owner == *sender) {
        return Err(ContractError::Unauthorized);
    }
    Ok(unary_call(state, name, input, AbiType::Uint(256), AbiToken::Uint(amount)))
}

/// Sends `update_compass(address new_compass)`.
pub fn update_compass(state: &State, sender: &String, new_compass: String) -> (res: Result<
    Response,
    ContractError,
>)
    requires
        is_owner(*state, *sender) ==> address_valid(new_compass@),
    ensures
        address_update_post(*state, *sender, res, "update_compass"@, "new_compass"@, new_compass),
{
    address_update(state, sender, "update_compass", "new_compass", new_compass)
}

/// Sends `update_blueprint(address new_compass)` (the input keeps that name).
pub fn update_blueprint(state: &State, sender: &String, new_blueprint: String) -> (res: Result<
    Response,
    ContractError,
>)
    requires
        is_owner(*state, *sender) ==> address_valid(new_blueprint@),
    ensures
        address_update_post(
            *state,
            *sender,
            res,
            "update_blueprint"@,
            "new_compass"@,
            new_blueprint,
        ),
{
    address_update(state, sender, "update_blueprint", "new_compass", new_blueprint)
}

/// Sends `update_refund_wallet(address new_compass)` (the input keeps that name).
pub fn update_refund_wallet(
    state: &State,
    sender: &String,
    new_refund_wallet: String,
) -> (res: Result<Response, ContractError>)
    requires
        is_owner(*state, *sender) ==> address_valid(new_refund_wallet@),
    ensures
        address_update_post(
            *state,
            *sender,
            res,
            "update_refund_wallet"@,
            "new_compass"@,
            new_refund_wallet,
        ),
{
    address_update(state, sender, "update_refund_wallet", "new_compass", new_refund_wallet)
}

/// Sends `update_gas_fee(uint256 new_gas_fee)`.
pub fn update_gas_fee(state: &State, sender: &String, new_gas_fee: [u8; 32]) -> (res: Result<
    Response,
    ContractError,
>)
    ensures
        amount_update_post(*state, *sender, res, "update_gas_fee"@, "new_gas_fee"@, new_gas_fee),
{
    amount_update(state, sender, "update_gas_fee", "new_gas_fee", new_gas_fee)
}

/// Sends `update_service_fee_collector(address new_service_fee_collector)`.
pub fn update_service_fee_collector(
    state: &State,
    sender: &String,
    new_service_fee_collector: String,
) -> (res: Result<Response, ContractError>)
    requires
        is_owner(*state, *sender) ==> address_valid(new_service_fee_collector@),
    ensures
        address_update_post(
            *state,
            *sender,
            res,
            "update_service_fee_collector"@,
            "new_service_fee_collector"@,
            new_service_fee_collector,
        ),
{
    address_update(
        state,
        sender,
        "update_service_fee_collector",
        "new_service_fee_collector",
        new_service_fee_collector,
    )
}

/// Sends `update_service_fee(uint256 new_service_fee)`.
pub fn update_service_fee(state: &State, sender: &String, new_service_fee: [u8; 32]) -> (res:
    Result<Response, ContractError>)
    ensures
        amount_update_post(
            *state,
            *sender,
            res,
            "update_service_fee"@,
            "new_service_fee"@,
            new_service_fee,
        ),
{
    amount_update(state, sender, "update_service_fee", "new_service_fee", new_service_fee)
}

/// The answer to a query.
pub open spec fn query_answer(state: State, msg: QueryMsg) -> QueryResponse {
    match msg {
        QueryMsg::GetJobId => QueryResponse::GetJobId(GetJobIdResponse { job_id: state.job_id }),
    }
}

/// Answers a query.
pub fn query(state: &State, msg: QueryMsg) -> (res: QueryResponse)
    ensures
        res == query_answer(*state, msg),
{
    match msg {
        QueryMsg::GetJobId => QueryResponse::GetJobId(get_job_id(state)),
    }
}

/// The job id of the stored state.
pub fn get_job_id(state: &State) -> (res: GetJobIdResponse)
    ensures
        res.job_id == state.job_id,
{
    GetJobIdResponse { job_id: state.job_id.clone() }
}

} // verus!
