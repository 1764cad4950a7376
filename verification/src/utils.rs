//! Pure arithmetic helpers: day/second conversion, fee computation and the
//! round arithmetic that derives contribution and payout rounds from elapsed
//! wall-clock time.

use vstd::prelude::*;

use crate::state::AjoGroup;

verus! {

/// Convert a number of days into seconds.
pub fn days_to_seconds(days: u16) -> (r: i64)
    ensures
        r == days * 86400,
{
    (days as i64) * 24 * 60 * 60
}

/// The round that has begun after `now - start` seconds, with `interval_days`
/// days per round: round 0 begins at `start` itself.
pub open spec fn spec_elapsed_rounds(now: i64, start: i64, interval_days: u16) -> int {
    (now - start) / (interval_days * 86400)
}

/// Rounds elapsed since `start`, with `interval_days` days per round.
pub fn elapsed_rounds(now: i64, start: i64, interval_days: u16) -> (r: u16)
    requires
        0 <= start <= now,
        1 <= interval_days,
        spec_elapsed_rounds(now, start, interval_days) <= u16::MAX,
    ensures
        r == spec_elapsed_rounds(now, start, interval_days),
{
    let interval_seconds: i64 = days_to_seconds(interval_days);
    let round: i64 = (now - start) / interval_seconds;
    round as u16
}

/// The contribution round in progress at `now` for a group that started at
/// `start`: `floor((now - start) / (contribution_interval_days * 86400))`.
pub fn current_contribution_round(now: i64, start: i64, contribution_interval_days: u16) -> (r:
    u16)
    requires
        0 <= start <= now,
        1 <= contribution_interval_days,
        spec_elapsed_rounds(now, start, contribution_interval_days) <= u16::MAX,
    ensures
        r == spec_elapsed_rounds(now, start, contribution_interval_days),
{
    elapsed_rounds(now, start, contribution_interval_days)
}

/// The payout round due at `now` for a group that started at `start`:
/// `floor((now - start) / (payout_interval_days * 86400))`.
pub fn current_payout_round(now: i64, start: i64, payout_interval_days: u16) -> (r: u16)
    requires
        0 <= start <= now,
        1 <= payout_interval_days,
        spec_elapsed_rounds(now, start, payout_interval_days) <= u16::MAX,
    ensures
        r == spec_elapsed_rounds(now, start, payout_interval_days),
{
    elapsed_rounds(now, start, payout_interval_days)
}

/// Fee charged on an amount, in tenths of a percent (a `fee_percentage` of 1
/// means 0.1%).
pub fn calculate_fee(amount: u64, fee_percentage: u8) -> (r: u64)
    requires
        amount * fee_percentage <= u64::MAX,
    ensures
        r == (amount * fee_percentage) / 1000,
{
    (amount * fee_percentage as u64) / 1000
}

/// Total contribution the pool collects per round from everyone but the
/// current recipient.
pub fn calculate_round_total(group: &AjoGroup) -> (r: u64)
    requires
        group.participants@.len() >= 1,
        group.contribution_amount * (group.participants@.len() - 1) <= u64::MAX,
    ensures
        r == group.contribution_amount * (group.participants@.len() - 1),
{
    proof {
        assert(group.contribution_amount * ((group.participants@.len() - 1) as int)
            >= group.contribution_amount * 0) by (nonlinear_arith)
            requires group.participants@.len() >= 1, group.contribution_amount >= 0;
    }
    group.contribution_amount * (group.participants.len() as u64 - 1)
}

/// Whether every member other than the current round-robin recipient has
/// reached the group's payout round.
pub open spec fn spec_all_contributed(g: AjoGroup) -> bool {
    forall|i: int|
        0 <= i < g.participants@.len() ==> (#[trigger] g.participants@[i]).pubkey
            == g.participants@[g.payout_round as int % g.participants@.len() as int].pubkey
            || g.participants@[i].contribution_round >= g.payout_round
}

/// Check whether all members other than the current recipient have
/// contributed up to the group's payout round.
#[verifier::loop_isolation(false)]
pub fn all_contributed(group: &AjoGroup) -> (r: bool)
    requires
        group.participants@.len() >= 1,
    ensures
        r == spec_all_contributed(*group),
{
    let current_round = group.payout_round;
    let len = group.participants.len();
    let recipient_index: usize = (current_round as usize) % len;
    proof {
        vstd::arithmetic::div_mod::lemma_mod_bound(current_round as int, len as int);
    }
    let current_recipient = group.participants[recipient_index].pubkey;

    let mut i: usize = 0;
    while i < len
        invariant
            i <= len,
            forall|k: int|
                0 <= k < i ==> (#[trigger] group.participants@[k]).pubkey == current_recipient
                    || group.participants@[k].contribution_round >= current_round,
        decreases len - i,
    {
        let p = group.participants[i];
        if !(p.pubkey == current_recipient) && p.contribution_round < current_round {
            return false;
        }
        i = i + 1;
    }
    true
}

} // verus!
