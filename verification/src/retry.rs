//! Which bots of a request are due: a bot is handled unless it was handled less than
//! `retry_delay` seconds ago, and handling it records the current time.
use crate::msg::BotInfo;
use crate::state::TimestampStore;
use vstd::prelude::*;

verus! {

/// The retry delay in nanoseconds.
pub open spec fn retry_window(delay: u64) -> int {
    delay as int * 1_000_000_000
}

/// A bot is due when it was never handled, or when its last time plus the retry delay
/// is before `now` (all times in nanoseconds).
pub open spec fn is_due(times: Map<Seq<char>, u64>, key: Seq<char>, delay: u64, now: u64) -> bool {
    times.contains_key(key) ==> times[key] + retry_window(delay) < now
}

/// The times after going through `bots` in order, recording `now` for each due bot.
pub open spec fn times_after(
    times: Map<Seq<char>, u64>,
    bots: Seq<BotInfo>,
    delay: u64,
    now: u64,
) -> Map<Seq<char>, u64>
    decreases bots.len(),
{
    if bots.len() == 0 {
        times
    } else {
        let before = times_after(times, bots.drop_last(), delay, now);
        if is_due(before, bots.last().bot@, delay, now) {
            before.insert(bots.last().bot@, now)
        } else {
            before
        }
    }
}

/// Whether the `i`-th bot is due when its turn comes.
pub open spec fn bot_is_due(
    times: Map<Seq<char>, u64>,
    bots: Seq<BotInfo>,
    delay: u64,
    now: u64,
    i: int,
) -> bool {
    is_due(times_after(times, bots.take(i), delay, now), bots[i].bot@, delay, now)
}

/// The bots that are handled, in request order.
pub open spec fn due_bots(
    times: Map<Seq<char>, u64>,
    bots: Seq<BotInfo>,
    delay: u64,
    now: u64,
) -> Seq<BotInfo>
    decreases bots.len(),
{
    if bots.len() == 0 {
        Seq::empty()
    } else {
        let before = due_bots(times, bots.drop_last(), delay, now);
        if is_due(times_after(times, bots.drop_last(), delay, now), bots.last().bot@, delay, now) {
            before.push(bots.last())
        } else {
            before
        }
    }
}

/// Each time that is compared, plus the retry delay, fits in 64 bits (else the
/// timestamp addition panics).
pub open spec fn retry_arithmetic_fits(
    times: Map<Seq<char>, u64>,
    bots: Seq<BotInfo>,
    delay: u64,
    now: u64,
) -> bool {
    forall|i: int| 0 <= i < bots.len() ==> #[trigger] step_fits(times, bots, delay, now, i)
}

/// The comparison for the `i`-th bot stays within 64 bits.
pub open spec fn step_fits(
    times: Map<Seq<char>, u64>,
    bots: Seq<BotInfo>,
    delay: u64,
    now: u64,
    i: int,
) -> bool {
    let t = times_after(times, bots.take(i), delay, now);
    t.contains_key(bots[i].bot@) ==> t[bots[i].bot@] + retry_window(delay) <= u64::MAX
}

/// One step of [`times_after`] and [`due_bots`].
pub proof fn lemma_step(
    times: Map<Seq<char>, u64>,
    bots: Seq<BotInfo>,
    delay: u64,
    now: u64,
    i: int,
)
    requires
        0 <= i < bots.len(),
    ensures
        times_after(times, bots.take(i + 1), delay, now) == (if bot_is_due(
            times,
            bots,
            delay,
            now,
            i,
        ) {
            times_after(times, bots.take(i), delay, now).insert(bots[i].bot@, now)
        } else {
            times_after(times, bots.take(i), delay, now)
        }),
        due_bots(times, bots.take(i + 1), delay, now) == (if bot_is_due(
            times,
            bots,
            delay,
            now,
            i,
        ) {
            due_bots(times, bots.take(i), delay, now).push(bots[i])
        } else {
            due_bots(times, bots.take(i), delay, now)
        }),
{
    assert(bots.take(i + 1).drop_last() =~= bots.take(i));
    assert(bots.take(i + 1).last() == bots[i]);
}

/// Whether some occurrence of `key` in `bots` is handled.
pub open spec fn handled(
    times: Map<Seq<char>, u64>,
    bots: Seq<BotInfo>,
    delay: u64,
    now: u64,
    key: Seq<char>,
) -> bool {
    exists|j: int|
        0 <= j < bots.len() && bots[j].bot@ == key && #[trigger] bot_is_due(
            times,
            bots,
            delay,
            now,
            j,
        )
}

/// Dropping the last bot does not change whether an earlier bot is due.
pub proof fn lemma_due_in_prefix(
    times: Map<Seq<char>, u64>,
    bots: Seq<BotInfo>,
    delay: u64,
    now: u64,
    j: int,
)
    requires
        0 <= j < bots.len() - 1,
    ensures
        bot_is_due(times, bots.drop_last(), delay, now, j) == bot_is_due(times, bots, delay, now, j),
{
    assert(bots.drop_last().take(j) =~= bots.take(j));
}

/// The handled bots end with time `now`; every other key keeps its time (or its
/// absence).
pub proof fn lemma_times_after_effect(
    times: Map<Seq<char>, u64>,
    bots: Seq<BotInfo>,
    delay: u64,
    now: u64,
)
    ensures
        forall|k: Seq<char>|
            #[trigger] handled(times, bots, delay, now, k) ==> times_after(
                times,
                bots,
                delay,
                now,
            ).contains_key(k) && times_after(times, bots, delay, now)[k] == now,
        forall|k: Seq<char>|
            !#[trigger] handled(times, bots, delay, now, k) ==> (times_after(
                times,
                bots,
                delay,
                now,
            ).contains_key(k) == times.contains_key(k) && (times.contains_key(k) ==> times_after(
                times,
                bots,
                delay,
                now,
            )[k] == times[k])),
    decreases bots.len(),
{
    if bots.len() > 0 {
        let n = bots.len() - 1;
        let init = bots.drop_last();
        lemma_times_after_effect(times, init, delay, now);
        assert(bots.take(n) =~= init);
        assert forall|k: Seq<char>|
            handled(times, bots, delay, now, k) == (handled(times, init, delay, now, k) || (
            bots[n].bot@ == k && bot_is_due(times, bots, delay, now, n))) by {
            if handled(times, bots, delay, now, k) {
                let j = choose|j: int|
                    0 <= j < bots.len() && bots[j].bot@ == k && #[trigger] bot_is_due(
                        times,
                        bots,
                        delay,
                        now,
                        j,
                    );
                if j < n {
                    lemma_due_in_prefix(times, bots, delay, now, j);
                    assert(init[j] == bots[j]);
                }
            }
            if handled(times, init, delay, now, k) {
                let j = choose|j: int|
                    0 <= j < init.len() && init[j].bot@ == k && #[trigger] bot_is_due(
                        times,
                        init,
                        delay,
                        now,
                        j,
                    );
                lemma_due_in_prefix(times, bots, delay, now, j);
                assert(init[j] == bots[j]);
            }
        }
    }
}

/// When no bot is due, the times are unchanged.
pub proof fn lemma_nothing_due_keeps_times(
    times: Map<Seq<char>, u64>,
    bots: Seq<BotInfo>,
    delay: u64,
    now: u64,
)
    requires
        due_bots(times, bots, delay, now).len() == 0,
    ensures
        times_after(times, bots, delay, now) == times,
    decreases bots.len(),
{
    if bots.len() > 0 {
        let before = due_bots(times, bots.drop_last(), delay, now);
        if is_due(times_after(times, bots.drop_last(), delay, now), bots.last().bot@, delay, now) {
            assert(before.push(bots.last()).len() > 0);
        }
        lemma_nothing_due_keeps_times(times, bots.drop_last(), delay, now);
    }
}

/// `cosmwasm_std::Timestamp::plus_seconds` on a time in nanoseconds: `Timestamp` is a
/// count of nanoseconds, and `plus_seconds` adds `seconds * 1_000_000_000`, panicking
/// when the product or the sum leaves 64 bits. Claimed: the exact sum.
#[verifier::external_body]
fn timestamp_plus_seconds(nanos: u64, seconds: u64) -> (later: u64)
    requires
        nanos + seconds * 1_000_000_000 <= u64::MAX,
    ensures
        later == nanos + seconds * 1_000_000_000,
{
    cosmwasm_std::Timestamp::from_nanos(nanos).plus_seconds(seconds).nanos()
}

/// Whether the bot `key` is due at `now`.
pub fn check_due(times: &TimestampStore, key: &String, delay: u64, now: u64) -> (due: bool)
    requires
        times@.contains_key(key@) ==> times@[key@] + retry_window(delay) <= u64::MAX,
    ensures
        due == is_due(times@, key@, delay, now),
{
    match times.get(key) {
        None => true,
        Some(last) => timestamp_plus_seconds(last, delay) < now,
    }
}

/// Whether each bot is due, or `None` when a time plus the retry delay leaves 64 bits;
/// `times` is left unchanged.
pub fn due_flags(times: &TimestampStore, bots: &Vec<BotInfo>, delay: u64, now: u64) -> (flags:
    Option<Vec<bool>>)
    ensures
        flags is Some <==> retry_arithmetic_fits(times@, bots@, delay, now),
        flags matches Some(f) ==> f@.len() == bots@.len() && forall|i: int|
            0 <= i < bots@.len() ==> #[trigger] f@[i] == bot_is_due(times@, bots@, delay, now, i),
{
    let mut store = times.copy();
    let mut flags: Vec<bool> = Vec::new();
    let window = delay.checked_mul(1_000_000_000);
    let mut i: usize = 0;
    assert(bots@.take(0) =~= Seq::<BotInfo>::empty());
    while i < bots.len()
        invariant
            i <= bots@.len(),
            store@ == times_after(times@, bots@.take(i as int), delay, now),
            flags@.len() == i,
            window matches Some(w) ==> w == retry_window(delay),
            window is None ==> retry_window(delay) > u64::MAX,
            forall|j: int|
                0 <= j < i ==> #[trigger] flags@[j] == bot_is_due(times@, bots@, delay, now, j),
            forall|j: int| 0 <= j < i ==> #[trigger] step_fits(times@, bots@, delay, now, j),
        decreases bots@.len() - i,
    {
        let key = &bots[i].bot;
        proof {
            lemma_step(times@, bots@, delay, now, i as int);
        }
        let due = match store.get(key) {
            None => true,
            Some(last) => {
                let later = match window {
                    None => None,
                    Some(w) => last.checked_add(w),
                };
                match later {
                    None => {
                        assert(!step_fits(times@, bots@, delay, now, i as int));
                        return None;
                    },
                    Some(l) => l < now,
                }
            },
        };
        assert(step_fits(times@, bots@, delay, now, i as int));
        if due {
            store.insert(key.clone(), now);
        }
        flags.push(due);
        i = i + 1;
    }
    Some(flags)
}

} // verus!
