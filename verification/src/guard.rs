//! Whether a message is one that the contract handles without panicking, decided
//! before it runs.
use crate::abi::{address_valid, parse_address};
use crate::calls::{add_collateral_bot_ok, addresses_valid, repay_bot_ok, swap_info_ok};
use crate::contract::{add_collateral_pre, execute_pre, is_owner, repay_pre};
use crate::msg::{BotInfo, ExecuteMsg, SwapInfo};
use crate::retry::{bot_is_due, due_flags};
use crate::state::{State, TimestampStore};
use vstd::prelude::*;

verus! {

/// Whether a text is an Ethereum address.
pub fn is_address(s: &String) -> (ok: bool)
    ensures
        ok == address_valid(s@),
{
    parse_address(s.as_str()).is_some()
}

fn all_addresses(v: &Vec<String>) -> (ok: bool)
    ensures
        ok == addresses_valid(v@),
{
    let mut i: usize = 0;
    while i < v.len()
        invariant
            i <= v@.len(),
            forall|j: int| 0 <= j < i ==> address_valid(#[trigger] v@[j]@),
        decreases v@.len() - i,
    {
        if !is_address(&v[i]) {
            return false;
        }
        i = i + 1;
    }
    true
}

fn swap_info_encodes(si: &SwapInfo) -> (ok: bool)
    ensures
        ok == swap_info_ok(*si),
{
    if si.route.len() != 11 || si.swap_params.len() != 5 || si.pools.len() != 5 {
        return false;
    }
    let mut i: usize = 0;
    while i < 5
        invariant
            i <= 5,
            si.swap_params@.len() == 5,
            forall|j: int| 0 <= j < i ==> (#[trigger] si.swap_params@[j])@.len() == 5,
        decreases 5 - i,
    {
        if si.swap_params[i].len() != 5 {
            return false;
        }
        i = i + 1;
    }
    all_addresses(&si.route) && all_addresses(&si.pools)
}

fn add_collateral_bot_encodes(b: &BotInfo) -> (ok: bool)
    ensures
        ok == add_collateral_bot_ok(*b),
{
    if !is_address(&b.bot) || !is_address(&b.collateral) {
        return false;
    }
    let mut i: usize = 0;
    while i < b.swap_infos.len()
        invariant
            i <= b.swap_infos@.len(),
            forall|j: int| 0 <= j < i ==> swap_info_ok(#[trigger] b.swap_infos@[j]),
        decreases b.swap_infos@.len() - i,
    {
        if !swap_info_encodes(&b.swap_infos[i]) {
            return false;
        }
        i = i + 1;
    }
    true
}

fn repay_bot_encodes(b: &BotInfo) -> (ok: bool)
    ensures
        ok == repay_bot_ok(*b),
{
    is_address(&b.bot) && is_address(&b.collateral)
}

fn add_collateral_defined(
    state: &State,
    sender: &String,
    now: u64,
    times: &TimestampStore,
    bots: &Vec<BotInfo>,
) -> (ok: bool)
    ensures
        ok == add_collateral_pre(*state, *sender, now, times@, bots@),
{
    if bots.len() == 0 {
        return false;
    }
    if !(state.owner == *sender) {
        return true;
    }
    let delay = state.retry_delay;
    match due_flags(times, bots, delay, now) {
        None => false,
        Some(flags) => {
            let mut i: usize = 0;
            while i < bots.len()
                invariant
                    i <= bots@.len(),
                    is_owner(*state, *sender),
                    delay == state.retry_delay,
                    flags@.len() == bots@.len(),
                    forall|k: int|
                        0 <= k < bots@.len() ==> #[trigger] flags@[k] == bot_is_due(
                            times@,
                            bots@,
                            delay,
                            now,
                            k,
                        ),
                    forall|k: int|
                        0 <= k < i && #[trigger] bot_is_due(times@, bots@, delay, now, k)
                            ==> add_collateral_bot_ok(bots@[k]),
                decreases bots@.len() - i,
            {
                if flags[i] && !add_collateral_bot_encodes(&bots[i]) {
                    assert(bot_is_due(times@, bots@, delay, now, i as int));
                    assert(!add_collateral_bot_ok(bots@[i as int]));
                    assert(is_owner(*state, *sender));
                    return false;
                }
                i = i + 1;
            }
            true
        },
    }
}

fn repay_defined(
    state: &State,
    sender: &String,
    now: u64,
    times: &TimestampStore,
    bots: &Vec<BotInfo>,
) -> (ok: bool)
    ensures
        ok == repay_pre(*state, *sender, now, times@, bots@),
{
    if bots.len() == 0 {
        return false;
    }
    if !(state.owner == *sender) {
        return true;
    }
    let delay = state.retry_delay;
    match due_flags(times, bots, delay, now) {
        None => false,
        Some(flags) => {
            let mut i: usize = 0;
            while i < bots.len()
                invariant
                    i <= bots@.len(),
                    is_owner(*state, *sender),
                    delay == state.retry_delay,
                    flags@.len() == bots@.len(),
                    forall|k: int|
                        0 <= k < bots@.len() ==> #[trigger] flags@[k] == bot_is_due(
                            times@,
                            bots@,
                            delay,
                            now,
                            k,
                        ),
                    forall|k: int|
                        0 <= k < i && #[trigger] bot_is_due(times@, bots@, delay, now, k)
                            ==> repay_bot_ok(bots@[k]),
                decreases bots@.len() - i,
            {
                if flags[i] && !repay_bot_encodes(&bots[i]) {
                    assert(bot_is_due(times@, bots@, delay, now, i as int));
                    assert(!repay_bot_ok(bots@[i as int]));
                    assert(is_owner(*state, *sender));
                    return false;
                }
                i = i + 1;
            }
            true
        },
    }
}

/// Whether `execute` can run this message: the contract panics on an empty bot
/// list, on a text that is not an address, on swaps of the wrong shape and on a time
/// addition that leaves 64 bits, and `execute` requires that none of these happens.
/// `times` holds the times of the bots that the message names.
pub fn execute_defined(
    state: &State,
    sender: &String,
    now: u64,
    times: &TimestampStore,
    msg: &ExecuteMsg,
) -> (ok: bool)
    ensures
        ok == execute_pre(*state, *sender, now, times@, *msg),
{
    let owner = state.owner == *sender;
    match msg {
        ExecuteMsg::AddCollateral { bot_info } => add_collateral_defined(
            state,
            sender,
            now,
            times,
            bot_info,
        ),
        ExecuteMsg::Repay { bot_info } => repay_defined(state, sender, now, times, bot_info),
        ExecuteMsg::SetPaloma => true,
        ExecuteMsg::UpdateCompass { new_compass } => !owner || is_address(new_compass),
        ExecuteMsg::UpdateBlueprint { new_blueprint } => !owner || is_address(new_blueprint),
        ExecuteMsg::UpdateRefundWallet { new_refund_wallet } => !owner || is_address(
            new_refund_wallet,
        ),
        ExecuteMsg::UpdateGasFee { .. } => true,
        ExecuteMsg::UpdateServiceFeeCollector { new_service_fee_collector } => !owner
            || is_address(new_service_fee_collector),
        ExecuteMsg::UpdateServiceFee { .. } => true,
    }
}

} // verus!
