//! What holds of the contract across requests.
use crate::abi::{abi_encode_input, address_bytes, param_kinds, AbiKind, AbiValue, FunctionSpec};
use crate::calls::{
    add_collateral_args, add_collateral_function, repay_args, repay_bot_ok, repay_function,
    set_paloma_function, swap_info_value, unary_function,
};
use crate::contract::{execute_post, instantiated_state, is_owner, query_answer, repay_post, repay_pre};
use crate::error::ContractError;
use crate::msg::{
    BotInfo, ExecuteMsg, GetJobIdResponse, InstantiateMsg, QueryMsg, QueryResponse, Response,
    SwapInfo,
};
use crate::retry::{
    bot_is_due, due_bots, handled, is_due, lemma_due_in_prefix, lemma_times_after_effect,
    retry_window, step_fits, times_after,
};
use crate::state::State;
use vstd::prelude::*;

verus! {

/// Only the owner gets anything done: every message from another sender is refused
/// as unauthorized, and no time changes.
pub proof fn law_only_owner_executes(
    state: State,
    sender: String,
    now: u64,
    before: Map<Seq<char>, u64>,
    after: Map<Seq<char>, u64>,
    msg: ExecuteMsg,
    res: Result<Response, ContractError>,
)
    requires
        !is_owner(state, sender),
        execute_post(state, sender, now, before, after, msg, res),
    ensures
        res == Err::<Response, ContractError>(ContractError::Unauthorized),
        after == before,
{
}

/// A refused message leaves every time as it was.
pub proof fn law_refusal_changes_nothing(
    state: State,
    sender: String,
    now: u64,
    before: Map<Seq<char>, u64>,
    after: Map<Seq<char>, u64>,
    msg: ExecuteMsg,
    res: Result<Response, ContractError>,
)
    requires
        res is Err,
        execute_post(state, sender, now, before, after, msg, res),
    ensures
        after == before,
{
}

/// A request changes only the times of the bots it handles, and sets them to the
/// current time.
pub proof fn law_only_handled_bots_change(
    times: Map<Seq<char>, u64>,
    bots: Seq<BotInfo>,
    delay: u64,
    now: u64,
    key: Seq<char>,
)
    ensures
        handled(times, bots, delay, now, key) ==> times_after(times, bots, delay, now).contains_key(
            key,
        ) && times_after(times, bots, delay, now)[key] == now,
        !handled(times, bots, delay, now, key) ==> times_after(times, bots, delay, now).contains_key(
            key,
        ) == times.contains_key(key),
        !handled(times, bots, delay, now, key) && times.contains_key(key) ==> times_after(
            times,
            bots,
            delay,
            now,
        )[key] == times[key],
{
    lemma_times_after_effect(times, bots, delay, now);
}

/// A bot that was never handled, at its first place in a request, is handled.
pub proof fn law_new_bot_is_handled(
    times: Map<Seq<char>, u64>,
    bots: Seq<BotInfo>,
    delay: u64,
    now: u64,
    i: int,
)
    requires
        0 <= i < bots.len(),
        !times.contains_key(bots[i].bot@),
        forall|j: int| 0 <= j < i ==> (#[trigger] bots[j]).bot@ != bots[i].bot@,
    ensures
        bot_is_due(times, bots, delay, now, i),
{
    let init = bots.take(i);
    lemma_times_after_effect(times, init, delay, now);
    if handled(times, init, delay, now, bots[i].bot@) {
        let j = choose|j: int|
            0 <= j < init.len() && init[j].bot@ == bots[i].bot@ && #[trigger] bot_is_due(
                times,
                init,
                delay,
                now,
                j,
            );
        assert(init[j] == bots[j]);
    }
}

/// Whether the `j`-th bot is due does not depend on the bots after it.
proof fn lemma_due_in_take(
    times: Map<Seq<char>, u64>,
    bots: Seq<BotInfo>,
    delay: u64,
    now: u64,
    m: int,
    j: int,
)
    requires
        0 <= j < m <= bots.len(),
    ensures
        bot_is_due(times, bots.take(m), delay, now, j) == bot_is_due(times, bots, delay, now, j),
        bots.take(m)[j] == bots[j],
{
    assert(bots.take(m).take(j) =~= bots.take(j));
}

/// A bot handled at `now` is not due again until its retry delay has passed: at any
/// time up to `now` plus the delay it is pending.
pub proof fn law_retry_delay_holds(
    times: Map<Seq<char>, u64>,
    bots: Seq<BotInfo>,
    delay: u64,
    now: u64,
    key: Seq<char>,
    later: u64,
)
    requires
        handled(times, bots, delay, now, key),
        later <= now + retry_window(delay),
    ensures
        !is_due(times_after(times, bots, delay, now), key, delay, later),
{
    lemma_times_after_effect(times, bots, delay, now);
}

/// A bot named several times in one request is handled at most once.
pub proof fn law_bot_handled_once_per_request(
    times: Map<Seq<char>, u64>,
    bots: Seq<BotInfo>,
    delay: u64,
    now: u64,
    i: int,
    j: int,
)
    requires
        0 <= i < j < bots.len(),
        bots[i].bot@ == bots[j].bot@,
        bot_is_due(times, bots, delay, now, i),
    ensures
        !bot_is_due(times, bots, delay, now, j),
{
    let init = bots.take(j);
    lemma_due_in_take(times, bots, delay, now, j, i);
    assert(handled(times, init, delay, now, bots[j].bot@));
    lemma_times_after_effect(times, init, delay, now);
}

/// When none of the bots is due, nothing is handled and no time changes.
pub proof fn law_pending_bots_are_refused(
    times: Map<Seq<char>, u64>,
    bots: Seq<BotInfo>,
    delay: u64,
    now: u64,
)
    requires
        forall|j: int| 0 <= j < bots.len() ==> !is_due(times, (#[trigger] bots[j]).bot@, delay, now),
    ensures
        due_bots(times, bots, delay, now).len() == 0,
        times_after(times, bots, delay, now) == times,
    decreases bots.len(),
{
    if bots.len() > 0 {
        let init = bots.drop_last();
        assert forall|j: int| 0 <= j < init.len() implies !is_due(
            times,
            (#[trigger] init[j]).bot@,
            delay,
            now,
        ) by {
            assert(init[j] == bots[j]);
        }
        law_pending_bots_are_refused(times, init, delay, now);
        assert(!is_due(times, bots[bots.len() - 1].bot@, delay, now));
    }
}

/// The same request, repeated at the same time, handles no bot: the contract
/// answers `AllPending`.
pub proof fn law_repeated_request_is_pending(
    times: Map<Seq<char>, u64>,
    bots: Seq<BotInfo>,
    delay: u64,
    now: u64,
)
    ensures
        due_bots(times_after(times, bots, delay, now), bots, delay, now).len() == 0,
{
    let after = times_after(times, bots, delay, now);
    lemma_times_after_effect(times, bots, delay, now);
    assert forall|j: int| 0 <= j < bots.len() implies !is_due(
        after,
        (#[trigger] bots[j]).bot@,
        delay,
        now,
    ) by {
        let key = bots[j].bot@;
        if !handled(times, bots, delay, now, key) {
            assert(!bot_is_due(times, bots, delay, now, j));
            let init = bots.take(j);
            lemma_times_after_effect(times, init, delay, now);
            if handled(times, init, delay, now, key) {
                let i = choose|i: int|
                    0 <= i < init.len() && init[i].bot@ == key && #[trigger] bot_is_due(
                        times,
                        init,
                        delay,
                        now,
                        i,
                    );
                lemma_due_in_take(times, bots, delay, now, j, i);
                assert(bot_is_due(times, bots, delay, now, i));
            }
        }
    }
    law_pending_bots_are_refused(after, bots, delay, now);
}

/// After instantiation, the job id query answers the job id that was given.
pub proof fn law_query_returns_instantiated_job_id(sender: String, msg: InstantiateMsg)
    ensures
        query_answer(instantiated_state(sender, msg), QueryMsg::GetJobId) == QueryResponse::GetJobId(
            GetJobIdResponse { job_id: msg.job_id },
        ),
{
}

/// The times after a run of requests, each a bot list and its time, all with the same
/// retry delay. A refused request changes no time; in a run it stands as an empty
/// bot list.
pub open spec fn times_after_requests(
    times: Map<Seq<char>, u64>,
    requests: Seq<(Seq<BotInfo>, u64)>,
    delay: u64,
) -> Map<Seq<char>, u64>
    decreases requests.len(),
{
    if requests.len() == 0 {
        times
    } else {
        let before = times_after_requests(times, requests.drop_last(), delay);
        times_after(before, requests.last().0, delay, requests.last().1)
    }
}

/// A key that no request of a run handles keeps its time.
proof fn lemma_untouched_key_keeps_time(
    times: Map<Seq<char>, u64>,
    requests: Seq<(Seq<BotInfo>, u64)>,
    delay: u64,
    key: Seq<char>,
)
    requires
        times.contains_key(key),
        forall|i: int|
            #![trigger requests[i]]
            0 <= i < requests.len() ==> !handled(
                times_after_requests(times, requests.take(i), delay),
                requests[i].0,
                delay,
                requests[i].1,
                key,
            ),
    ensures
        times_after_requests(times, requests, delay).contains_key(key),
        times_after_requests(times, requests, delay)[key] == times[key],
    decreases requests.len(),
{
    if requests.len() > 0 {
        let n = requests.len() - 1;
        let init = requests.drop_last();
        assert forall|i: int|
            #![trigger init[i]]
            0 <= i < init.len() implies !handled(
                times_after_requests(times, init.take(i), delay),
                init[i].0,
                delay,
                init[i].1,
                key,
            ) by {
            assert(init.take(i) =~= requests.take(i));
            assert(init[i] == requests[i]);
        }
        lemma_untouched_key_keeps_time(times, init, delay, key);
        assert(requests.take(n) =~= init);
        assert(requests[n] == requests[n]);
        lemma_times_after_effect(
            times_after_requests(times, init, delay),
            requests[n].0,
            delay,
            requests[n].1,
        );
    }
}

/// Two requests that handle the same bot are more than the retry delay apart: if a
/// request at `t1` handles `key`, no request of the run after it handles `key`, and
/// then a request at `t2` handles it, then `t1` plus the delay is before `t2`.
pub proof fn law_retry_spacing(
    times: Map<Seq<char>, u64>,
    first: Seq<BotInfo>,
    t1: u64,
    between: Seq<(Seq<BotInfo>, u64)>,
    last: Seq<BotInfo>,
    t2: u64,
    delay: u64,
    key: Seq<char>,
)
    requires
        handled(times, first, delay, t1, key),
        forall|i: int|
            #![trigger between[i]]
            0 <= i < between.len() ==> !handled(
                times_after_requests(times_after(times, first, delay, t1), between.take(i), delay),
                between[i].0,
                delay,
                between[i].1,
                key,
            ),
        handled(
            times_after_requests(times_after(times, first, delay, t1), between, delay),
            last,
            delay,
            t2,
            key,
        ),
    ensures
        t1 + retry_window(delay) < t2,
{
    let after_first = times_after(times, first, delay, t1);
    lemma_times_after_effect(times, first, delay, t1);
    lemma_untouched_key_keeps_time(after_first, between, delay, key);
    let m = times_after_requests(after_first, between, delay);
    let j = choose|j: int|
        0 <= j < last.len() && last[j].bot@ == key && #[trigger] bot_is_due(m, last, delay, t2, j);
    let init = last.take(j);
    assert(after_first.contains_key(key) && after_first[key] == t1);
    assert(m.contains_key(key) && m[key] == t1);
    lemma_times_after_effect(m, init, delay, t2);
    if handled(m, init, delay, t2, key) {
        assert(times_after(m, init, delay, t2)[key] == t2);
    } else {
        assert(times_after(m, init, delay, t2)[key] == t1);
    }
}

/// Within one request the handled bots are named by different keys, and each of them
/// is handled.
pub proof fn law_handled_bots_are_distinct(
    times: Map<Seq<char>, u64>,
    bots: Seq<BotInfo>,
    delay: u64,
    now: u64,
)
    ensures
        forall|a: int, b: int|
            0 <= a < b < due_bots(times, bots, delay, now).len() ==> (#[trigger] due_bots(
                times,
                bots,
                delay,
                now,
            )[a]).bot@ != (#[trigger] due_bots(times, bots, delay, now)[b]).bot@,
        forall|a: int|
            0 <= a < due_bots(times, bots, delay, now).len() ==> handled(
                times,
                bots,
                delay,
                now,
                (#[trigger] due_bots(times, bots, delay, now)[a]).bot@,
            ),
    decreases bots.len(),
{
    if bots.len() > 0 {
        let n = bots.len() - 1;
        let init = bots.drop_last();
        let d0 = due_bots(times, init, delay, now);
        let d = due_bots(times, bots, delay, now);
        law_handled_bots_are_distinct(times, init, delay, now);
        assert(bots.take(n) =~= init);
        assert forall|k: Seq<char>| handled(times, init, delay, now, k) implies handled(
            times,
            bots,
            delay,
            now,
            k,
        ) by {
            let j = choose|j: int|
                0 <= j < init.len() && init[j].bot@ == k && #[trigger] bot_is_due(
                    times,
                    init,
                    delay,
                    now,
                    j,
                );
            lemma_due_in_prefix(times, bots, delay, now, j);
            assert(init[j] == bots[j]);
        }
        if bot_is_due(times, bots, delay, now, n) {
            assert(d == d0.push(bots[n]));
            lemma_times_after_effect(times, init, delay, now);
            assert forall|a: int| 0 <= a < d0.len() implies (#[trigger] d0[a]).bot@ != bots[n].bot@ by {
                assert(handled(times, init, delay, now, d0[a].bot@));
            }
            assert(handled(times, bots, delay, now, bots[n].bot@));
        } else {
            assert(d == d0);
        }
    }
}

/// Two bots that differ at most in their swaps.
pub open spec fn same_but_swaps(a: BotInfo, b: BotInfo) -> bool {
    a.bot@ == b.bot@ && a.collateral@ == b.collateral@ && a.amount == b.amount
}

/// Two bot lists that differ at most in the swaps of their bots.
pub open spec fn lists_same_but_swaps(v1: Seq<BotInfo>, v2: Seq<BotInfo>) -> bool {
    v1.len() == v2.len() && forall|i: int| 0 <= i < v1.len() ==> same_but_swaps(#[trigger] v1[i], v2[i])
}

/// The retry rule does not look at the swaps.
proof fn lemma_swaps_ignored(
    times: Map<Seq<char>, u64>,
    v1: Seq<BotInfo>,
    v2: Seq<BotInfo>,
    delay: u64,
    now: u64,
)
    requires
        lists_same_but_swaps(v1, v2),
    ensures
        times_after(times, v1, delay, now) == times_after(times, v2, delay, now),
        due_bots(times, v1, delay, now).len() == due_bots(times, v2, delay, now).len(),
        forall|j: int|
            0 <= j < due_bots(times, v1, delay, now).len() ==> same_but_swaps(
                #[trigger] due_bots(times, v1, delay, now)[j],
                due_bots(times, v2, delay, now)[j],
            ),
    decreases v1.len(),
{
    if v1.len() > 0 {
        let n = v1.len() - 1;
        assert(same_but_swaps(v1[n], v2[n]));
        assert(lists_same_but_swaps(v1.drop_last(), v2.drop_last()));
        lemma_swaps_ignored(times, v1.drop_last(), v2.drop_last(), delay, now);
    }
}

/// `repay` does not depend on the swaps of the bots: for two lists that differ only
/// there, it runs on the same inputs, gives the same answer (the same refusal, or
/// the same message) and changes the times in the same way.
pub proof fn law_repay_ignores_swaps(
    state: State,
    sender: String,
    now: u64,
    before: Map<Seq<char>, u64>,
    v1: Seq<BotInfo>,
    v2: Seq<BotInfo>,
    after1: Map<Seq<char>, u64>,
    after2: Map<Seq<char>, u64>,
    res1: Result<Response, ContractError>,
    res2: Result<Response, ContractError>,
)
    requires
        lists_same_but_swaps(v1, v2),
        repay_post(state, sender, now, before, after1, v1, res1),
        repay_post(state, sender, now, before, after2, v2, res2),
    ensures
        repay_pre(state, sender, now, before, v1) == repay_pre(state, sender, now, before, v2),
        after1 == after2,
        res1 is Ok <==> res2 is Ok,
        res1 is Err ==> res1 == res2,
        res1 is Ok ==> (res1->Ok_0).messages@[0].payload@ == (res2->Ok_0).messages@[0].payload@,
{
    let delay = state.retry_delay;
    lemma_swaps_ignored(before, v1, v2, delay, now);
    let d1 = due_bots(before, v1, delay, now);
    let d2 = due_bots(before, v2, delay, now);
    assert(repay_args(d1)[0]->Array_0 =~= repay_args(d2)[0]->Array_0);
    assert(repay_args(d1)[1]->Array_0 =~= repay_args(d2)[1]->Array_0);
    assert(repay_args(d1)[2]->Array_0 =~= repay_args(d2)[2]->Array_0);
    assert(repay_args(d1) =~= repay_args(d2));
    assert forall|i: int| 0 <= i < v1.len() implies step_fits(before, v1, delay, now, i) == step_fits(
        before,
        v2,
        delay,
        now,
        i,
    ) && bot_is_due(before, v1, delay, now, i) == bot_is_due(before, v2, delay, now, i)
        && repay_bot_ok(v1[i]) == repay_bot_ok(v2[i]) by {
        assert(same_but_swaps(v1[i], v2[i]));
        assert(lists_same_but_swaps(v1.take(i), v2.take(i)));
        lemma_swaps_ignored(before, v1.take(i), v2.take(i), delay, now);
    }
    assert(repay_pre(state, sender, now, before, v1) == repay_pre(state, sender, now, before, v2));
}

// ---------------------------------------------------------------------------
// What the owner's requests send.

/// The answer is one Paloma message, for the state's job, whose payload is the ABI
/// call of a function named `name` with inputs of types `kinds`, on arguments that
/// satisfy `args_ok`; its one attribute is `action = name`.
pub open spec fn sends_call(
    res: Result<Response, ContractError>,
    state: State,
    name: Seq<char>,
    kinds: Seq<AbiKind>,
    args_ok: spec_fn(Seq<AbiValue>) -> bool,
) -> bool {
    &&& res is Ok
    &&& res->Ok_0.messages@.len() == 1
    &&& res->Ok_0.messages@[0].job_id == state.job_id
    &&& res->Ok_0.attributes@.len() == 1
    &&& res->Ok_0.attributes@[0].key@ == "action"@
    &&& res->Ok_0.attributes@[0].value@ == name
    &&& exists|f: FunctionSpec, args: Seq<AbiValue>|
        #[trigger] abi_encode_input(f, args) == res->Ok_0.messages@[0].payload@ && f.name == name
            && param_kinds(f.inputs) == kinds && args_ok(args)
}

/// `vs` holds, in order, one value for each item, the value `f(item)`.
pub open spec fn one_each<T>(vs: Seq<AbiValue>, items: Seq<T>, f: spec_fn(T) -> AbiValue) -> bool {
    vs.len() == items.len() && forall|j: int| 0 <= j < items.len() ==> vs[j] == f(#[trigger] items[j])
}

/// The address parsed from a text.
pub open spec fn address_of(s: String) -> AbiValue {
    AbiValue::Address(address_bytes(s@))
}

/// The unsigned integer of 32 big-endian bytes.
pub open spec fn uint_of(u: [u8; 32]) -> AbiValue {
    AbiValue::Uint(u@)
}

/// `v` is the tuple of a swap: its route addresses, its rows of parameters, its
/// amount, its expected amount and its pool addresses, each in order.
pub open spec fn encodes_swap(v: AbiValue, si: SwapInfo) -> bool {
    &&& v is Tuple
    &&& v->Tuple_0.len() == 5
    &&& v->Tuple_0[0] is FixedArray
    &&& one_each(v->Tuple_0[0]->FixedArray_0, si.route@, |s: String| address_of(s))
    &&& v->Tuple_0[1] is FixedArray
    &&& v->Tuple_0[1]->FixedArray_0.len() == si.swap_params@.len()
    &&& forall|k: int|
        0 <= k < si.swap_params@.len() ==> (#[trigger] v->Tuple_0[1]->FixedArray_0[k]) is FixedArray
            && one_each(
            v->Tuple_0[1]->FixedArray_0[k]->FixedArray_0,
            si.swap_params@[k]@,
            |u: [u8; 32]| uint_of(u),
        )
    &&& v->Tuple_0[2] == uint_of(si.amount)
    &&& v->Tuple_0[3] == uint_of(si.expected)
    &&& v->Tuple_0[4] is FixedArray
    &&& one_each(v->Tuple_0[4]->FixedArray_0, si.pools@, |s: String| address_of(s))
}

/// `v` is an array with, for each bot in order, the array of its swaps.
pub open spec fn encodes_swaps_per_bot(v: AbiValue, bots: Seq<BotInfo>) -> bool {
    &&& v is Array
    &&& v->Array_0.len() == bots.len()
    &&& forall|j: int|
        0 <= j < bots.len() ==> (#[trigger] v->Array_0[j]) is Array && v->Array_0[j]->Array_0.len()
            == bots[j].swap_infos@.len() && forall|k: int|
            0 <= k < bots[j].swap_infos@.len() ==> encodes_swap(
                #[trigger] v->Array_0[j]->Array_0[k],
                bots[j].swap_infos@[k],
            )
}

/// The arguments of an `add_collateral` call for `bots`: each bot's own address,
/// swaps, collateral and amount, at the bot's place.
pub open spec fn add_collateral_call_args(args: Seq<AbiValue>, bots: Seq<BotInfo>) -> bool {
    &&& args.len() == 4
    &&& args[0] is Array && one_each(args[0]->Array_0, bots, |b: BotInfo| address_of(b.bot))
    &&& encodes_swaps_per_bot(args[1], bots)
    &&& args[2] is Array && one_each(args[2]->Array_0, bots, |b: BotInfo| address_of(b.collateral))
    &&& args[3] is Array && one_each(args[3]->Array_0, bots, |b: BotInfo| uint_of(b.amount))
}

/// The arguments of a `repay` call for `bots`: each bot's own address, collateral
/// and amount, at the bot's place.
pub open spec fn repay_call_args(args: Seq<AbiValue>, bots: Seq<BotInfo>) -> bool {
    &&& args.len() == 3
    &&& args[0] is Array && one_each(args[0]->Array_0, bots, |b: BotInfo| address_of(b.bot))
    &&& args[1] is Array && one_each(args[1]->Array_0, bots, |b: BotInfo| address_of(b.collateral))
    &&& args[2] is Array && one_each(args[2]->Array_0, bots, |b: BotInfo| uint_of(b.amount))
}

pub open spec fn address_kind_array() -> AbiKind {
    AbiKind::Array(Box::new(AbiKind::Address))
}

/// The input types of `add_collateral`: `address[]`,
/// `(address[11], uint256[5][5], uint256, uint256, address[5])[][]`, `address[]`,
/// `uint256[]`.
pub open spec fn add_collateral_kinds() -> Seq<AbiKind> {
    seq![
        address_kind_array(),
        AbiKind::Array(
            Box::new(
                AbiKind::Array(
                    Box::new(
                        AbiKind::Tuple(
                            seq![
                                AbiKind::FixedArray(Box::new(AbiKind::Address), 11),
                                AbiKind::FixedArray(
                                    Box::new(AbiKind::FixedArray(Box::new(AbiKind::Uint(256)), 5)),
                                    5,
                                ),
                                AbiKind::Uint(256),
                                AbiKind::Uint(256),
                                AbiKind::FixedArray(Box::new(AbiKind::Address), 5),
                            ],
                        ),
                    ),
                ),
            ),
        ),
        address_kind_array(),
        AbiKind::Array(Box::new(AbiKind::Uint(256))),
    ]
}

proof fn lemma_swap_encoded(si: SwapInfo)
    ensures
        encodes_swap(swap_info_value(si), si),
{
    let t = swap_info_value(si)->Tuple_0;
    let rows = t[1]->FixedArray_0;
    assert forall|k: int| 0 <= k < si.swap_params@.len() implies (#[trigger] rows[k]) is FixedArray
        && one_each(rows[k]->FixedArray_0, si.swap_params@[k]@, |u: [u8; 32]| uint_of(u)) by {
        let us = rows[k]->FixedArray_0;
        assert forall|i: int| 0 <= i < si.swap_params@[k]@.len() implies us[i] == uint_of(
            #[trigger] si.swap_params@[k]@[i],
        ) by {}
    }
    assert forall|i: int| 0 <= i < si.route@.len() implies t[0]->FixedArray_0[i] == address_of(
        #[trigger] si.route@[i],
    ) by {}
    assert forall|i: int| 0 <= i < si.pools@.len() implies t[4]->FixedArray_0[i] == address_of(
        #[trigger] si.pools@[i],
    ) by {}
}

proof fn lemma_add_collateral_args_encoded(bots: Seq<BotInfo>)
    ensures
        add_collateral_call_args(add_collateral_args(bots), bots),
        param_kinds(add_collateral_function().inputs) == add_collateral_kinds(),
{
    let args = add_collateral_args(bots);
    assert(param_kinds(add_collateral_function().inputs) =~= add_collateral_kinds());
    let sw = args[1]->Array_0;
    assert forall|j: int| 0 <= j < bots.len() implies (#[trigger] sw[j]) is Array
        && sw[j]->Array_0.len() == bots[j].swap_infos@.len() && forall|k: int|
        0 <= k < bots[j].swap_infos@.len() ==> encodes_swap(
            #[trigger] sw[j]->Array_0[k],
            bots[j].swap_infos@[k],
        ) by {
        let inner = sw[j]->Array_0;
        assert forall|k: int| 0 <= k < bots[j].swap_infos@.len() implies encodes_swap(
            #[trigger] inner[k],
            bots[j].swap_infos@[k],
        ) by {
            lemma_swap_encoded(bots[j].swap_infos@[k]);
        }
    }
}

proof fn lemma_repay_args_encoded(bots: Seq<BotInfo>)
    ensures
        repay_call_args(repay_args(bots), bots),
        param_kinds(repay_function().inputs) == seq![
            address_kind_array(),
            address_kind_array(),
            AbiKind::Array(Box::new(AbiKind::Uint(256))),
        ],
{
    assert(param_kinds(repay_function().inputs) =~= seq![
        address_kind_array(),
        address_kind_array(),
        AbiKind::Array(Box::new(AbiKind::Uint(256))),
    ]);
}

/// The handled bots now carry time `now`; every other key keeps its time or its
/// absence.
pub open spec fn records_handled(
    before: Map<Seq<char>, u64>,
    after: Map<Seq<char>, u64>,
    bots: Seq<BotInfo>,
    delay: u64,
    now: u64,
) -> bool {
    &&& forall|k: Seq<char>|
        #[trigger] handled(before, bots, delay, now, k) ==> after.contains_key(k) && after[k] == now
    &&& forall|k: Seq<char>|
        !#[trigger] handled(before, bots, delay, now, k) ==> after.contains_key(k)
            == before.contains_key(k) && (before.contains_key(k) ==> after[k] == before[k])
}

/// What each message of the owner sends, stated of its inputs: `add_collateral` and
/// `repay` with, at each place, the due bot's own address, collateral, amount (and
/// swaps), recording `now` for the handled bots, or `AllPending` with no change
/// when no bot is due; `set_paloma()`; each update calls the Vyper function named after it with
/// the address parsed from the given text (byte `i` from hex digits `2i`, `2i + 1`)
/// or with the full 256-bit amount.
pub proof fn law_owner_messages_send_their_call(
    state: State,
    sender: String,
    now: u64,
    before: Map<Seq<char>, u64>,
    after: Map<Seq<char>, u64>,
    msg: ExecuteMsg,
    res: Result<Response, ContractError>,
)
    requires
        is_owner(state, sender),
        execute_post(state, sender, now, before, after, msg, res),
    ensures
        match msg {
            ExecuteMsg::AddCollateral { bot_info } => {
                let due = due_bots(before, bot_info@, state.retry_delay, now);
                &&& due.len() == 0 ==> res == Err::<Response, ContractError>(
                    ContractError::AllPending,
                ) && after == before
                &&& due.len() > 0 ==> records_handled(before, after, bot_info@, state.retry_delay, now)
                &&& due.len() > 0 ==> sends_call(
                    res,
                    state,
                    "add_collateral"@,
                    add_collateral_kinds(),
                    |args: Seq<AbiValue>| add_collateral_call_args(args, due),
                )
            },
            ExecuteMsg::Repay { bot_info } => {
                let due = due_bots(before, bot_info@, state.retry_delay, now);
                &&& due.len() == 0 ==> res == Err::<Response, ContractError>(
                    ContractError::AllPending,
                ) && after == before
                &&& due.len() > 0 ==> records_handled(before, after, bot_info@, state.retry_delay, now)
                &&& due.len() > 0 ==> sends_call(
                    res,
                    state,
                    "repay"@,
                    seq![
                        address_kind_array(),
                        address_kind_array(),
                        AbiKind::Array(Box::new(AbiKind::Uint(256))),
                    ],
                    |args: Seq<AbiValue>| repay_call_args(args, due),
                )
            },
            ExecuteMsg::SetPaloma => sends_call(
                res,
                state,
                "set_paloma"@,
                Seq::empty(),
                |args: Seq<AbiValue>| args.len() == 0,
            ),
            ExecuteMsg::UpdateCompass { new_compass } => sends_call(
                res,
                state,
                "update_compass"@,
                seq![AbiKind::Address],
                |args: Seq<AbiValue>| args == seq![address_of(new_compass)],
            ),
            ExecuteMsg::UpdateBlueprint { new_blueprint } => sends_call(
                res,
                state,
                "update_blueprint"@,
                seq![AbiKind::Address],
                |args: Seq<AbiValue>| args == seq![address_of(new_blueprint)],
            ),
            ExecuteMsg::UpdateRefundWallet { new_refund_wallet } => sends_call(
                res,
                state,
                "update_refund_wallet"@,
                seq![AbiKind::Address],
                |args: Seq<AbiValue>| args == seq![address_of(new_refund_wallet)],
            ),
            ExecuteMsg::UpdateGasFee { new_gas_fee } => sends_call(
                res,
                state,
                "update_gas_fee"@,
                seq![AbiKind::Uint(256)],
                |args: Seq<AbiValue>| args == seq![uint_of(new_gas_fee)],
            ),
            ExecuteMsg::UpdateServiceFeeCollector { new_service_fee_collector } => sends_call(
                res,
                state,
                "update_service_fee_collector"@,
                seq![AbiKind::Address],
                |args: Seq<AbiValue>| args == seq![address_of(new_service_fee_collector)],
            ),
            ExecuteMsg::UpdateServiceFee { new_service_fee } => sends_call(
                res,
                state,
                "update_service_fee"@,
                seq![AbiKind::Uint(256)],
                |args: Seq<AbiValue>| args == seq![uint_of(new_service_fee)],
            ),
        },
{
    match msg {
        ExecuteMsg::AddCollateral { bot_info } => {
            let due = due_bots(before, bot_info@, state.retry_delay, now);
            lemma_times_after_effect(before, bot_info@, state.retry_delay, now);
            if due.len() > 0 {
                lemma_add_collateral_args_encoded(due);
                let f = add_collateral_function();
                let args = add_collateral_args(due);
                assert(abi_encode_input(f, args) == res->Ok_0.messages@[0].payload@);
            }
        },
        ExecuteMsg::Repay { bot_info } => {
            let due = due_bots(before, bot_info@, state.retry_delay, now);
            lemma_times_after_effect(before, bot_info@, state.retry_delay, now);
            if due.len() > 0 {
                lemma_repay_args_encoded(due);
                let f = repay_function();
                let args = repay_args(due);
                assert(abi_encode_input(f, args) == res->Ok_0.messages@[0].payload@);
            }
        },
        ExecuteMsg::SetPaloma => {
            let f = set_paloma_function();
            assert(param_kinds(f.inputs) =~= Seq::<AbiKind>::empty());
            assert(abi_encode_input(f, Seq::empty()) == res->Ok_0.messages@[0].payload@);
        },
        ExecuteMsg::UpdateCompass { new_compass } => {
            lemma_unary_sends(res, state, "update_compass"@, "new_compass"@, AbiKind::Address, address_of(new_compass));
        },
        ExecuteMsg::UpdateBlueprint { new_blueprint } => {
            lemma_unary_sends(res, state, "update_blueprint"@, "new_compass"@, AbiKind::Address, address_of(new_blueprint));
        },
        ExecuteMsg::UpdateRefundWallet { new_refund_wallet } => {
            lemma_unary_sends(res, state, "update_refund_wallet"@, "new_compass"@, AbiKind::Address, address_of(new_refund_wallet));
        },
        ExecuteMsg::UpdateGasFee { new_gas_fee } => {
            lemma_unary_sends(res, state, "update_gas_fee"@, "new_gas_fee"@, AbiKind::Uint(256), uint_of(new_gas_fee));
        },
        ExecuteMsg::UpdateServiceFeeCollector { new_service_fee_collector } => {
            lemma_unary_sends(
                res,
                state,
                "update_service_fee_collector"@,
                "new_service_fee_collector"@,
                AbiKind::Address,
                address_of(new_service_fee_collector),
            );
        },
        ExecuteMsg::UpdateServiceFee { new_service_fee } => {
            lemma_unary_sends(res, state, "update_service_fee"@, "new_service_fee"@, AbiKind::Uint(256), uint_of(new_service_fee));
        },
    }
}

proof fn lemma_unary_sends(
    res: Result<Response, ContractError>,
    state: State,
    name: Seq<char>,
    input: Seq<char>,
    kind: AbiKind,
    arg: AbiValue,
)
    requires
        res is Ok,
        crate::contract::paloma_call(res->Ok_0, state, name, unary_function(name, input, kind), seq![arg]),
    ensures
        sends_call(res, state, name, seq![kind], |args: Seq<AbiValue>| args == seq![arg]),
{
    let f = unary_function(name, input, kind);
    assert(param_kinds(f.inputs) =~= seq![kind]);
    assert(abi_encode_input(f, seq![arg]) == res->Ok_0.messages@[0].payload@);
}

/// `idx` lists, in increasing order, the places of the bots that are handled: the
/// `a`-th handled bot is the bot at place `idx[a]`, which is due, and every due
/// place is listed.
pub open spec fn lists_due_places(
    times: Map<Seq<char>, u64>,
    bots: Seq<BotInfo>,
    delay: u64,
    now: u64,
    idx: Seq<int>,
) -> bool {
    let due = due_bots(times, bots, delay, now);
    &&& idx.len() == due.len()
    &&& forall|a: int|
        0 <= a < idx.len() ==> 0 <= #[trigger] idx[a] < bots.len() && bot_is_due(
            times,
            bots,
            delay,
            now,
            idx[a],
        ) && due[a] == bots[idx[a]]
    &&& forall|a: int, b: int| 0 <= a < b < idx.len() ==> #[trigger] idx[a] < #[trigger] idx[b]
    &&& forall|i: int|
        0 <= i < bots.len() && #[trigger] bot_is_due(times, bots, delay, now, i) ==> exists|a: int|
            0 <= a < idx.len() && idx[a] == i
}

/// The handled bots are exactly the due bots of the request, in request order.
#[verifier::spinoff_prover]
pub proof fn law_handled_bots_in_request_order(
    times: Map<Seq<char>, u64>,
    bots: Seq<BotInfo>,
    delay: u64,
    now: u64,
)
    ensures
        exists|idx: Seq<int>| #[trigger] lists_due_places(times, bots, delay, now, idx),
    decreases bots.len(),
{
    if bots.len() == 0 {
        assert(lists_due_places(times, bots, delay, now, Seq::<int>::empty()));
    } else {
        let n = bots.len() - 1;
        let init = bots.drop_last();
        law_handled_bots_in_request_order(times, init, delay, now);
        let idx0 = choose|idx: Seq<int>| #[trigger] lists_due_places(times, init, delay, now, idx);
        assert(bots.take(n) =~= init);
        assert forall|j: int| 0 <= j < n implies bot_is_due(times, init, delay, now, j) == bot_is_due(
            times,
            bots,
            delay,
            now,
            j,
        ) && #[trigger] init[j] == bots[j] by {
            lemma_due_in_prefix(times, bots, delay, now, j);
        }
        let due0 = due_bots(times, init, delay, now);
        if bot_is_due(times, bots, delay, now, n) {
            let idx = idx0.push(n);
            assert(due_bots(times, bots, delay, now) == due0.push(bots[n]));
            assert forall|i: int|
                0 <= i < bots.len() && #[trigger] bot_is_due(times, bots, delay, now, i) implies exists|
                a: int,
            | 0 <= a < idx.len() && idx[a] == i by {
                if i == n {
                    assert(idx[idx0.len() as int] == i);
                } else {
                    assert(bot_is_due(times, init, delay, now, i));
                    let a = choose|a: int| 0 <= a < idx0.len() && idx0[a] == i;
                    assert(idx[a] == i);
                }
            }
            assert(lists_due_places(times, bots, delay, now, idx));
        } else {
            assert(due_bots(times, bots, delay, now) == due0);
            assert forall|i: int|
                0 <= i < bots.len() && #[trigger] bot_is_due(times, bots, delay, now, i) implies exists|
                a: int,
            | 0 <= a < idx0.len() && idx0[a] == i by {
                assert(bot_is_due(times, init, delay, now, i));
            }
            assert(lists_due_places(times, bots, delay, now, idx0));
        }
    }
}

} // verus!
