//! End-to-end scenarios for the group lifecycle: rounds, contributions,
//! payouts, closure votes and refunds, and the custody accounting identity.

use koopaa::errors::KooPaaError;
use koopaa::state::{AjoGroup, GlobalState, Pubkey};
use koopaa::{
    claim_refund, close_ajo_group, contribute, create_ajo_group, initialize, join_ajo_group,
    payout,
};

const DAY: i64 = 86400;

fn pk(id: u64) -> Pubkey {
    Pubkey { id }
}

/// A three-member group: deposit 50, contribution 100, contribute every 7
/// days, pay out every 14 days. Returns the group, the registry and the
/// start timestamp.
fn started_group(start: i64) -> (AjoGroup, GlobalState) {
    let mut gs = initialize();
    let mut g = create_ajo_group("test".to_string(), 50, 100, 7, 14, 3, pk(1), &mut gs).unwrap();
    join_ajo_group(&mut g, &mut gs, pk(2), start).unwrap();
    join_ajo_group(&mut g, &mut gs, pk(3), start).unwrap();
    (g, gs)
}

#[test]
fn group_activates_when_full() {
    let start: i64 = 1_000_000;
    let mut gs = initialize();
    let mut g = create_ajo_group("test".to_string(), 50, 100, 7, 14, 3, pk(1), &mut gs).unwrap();
    assert_eq!(gs.total_groups, 1);
    assert_eq!(gs.active_groups, 0);
    assert!(g.start_timestamp.is_none());

    let d2 = join_ajo_group(&mut g, &mut gs, pk(2), start).unwrap();
    assert_eq!(d2, 50);
    assert!(g.start_timestamp.is_none());

    let d3 = join_ajo_group(&mut g, &mut gs, pk(3), start).unwrap();
    assert_eq!(d3, 50);
    assert_eq!(g.start_timestamp, Some(start));
    assert_eq!(gs.active_groups, 1);
    assert_eq!(g.participants.len(), 3);
}

/// At start+8 days a member reaches round 1 for 100; at start+15 days the
/// payout needs everyone at round 2 and pays 600 to the creator.
#[test]
fn contribution_and_first_payout() {
    let start: i64 = 1_000_000;
    let (mut g, _gs) = started_group(start);

    let amount = contribute(&mut g, pk(2), start + 8 * DAY).unwrap();
    assert_eq!(amount, 100);
    assert_eq!(g.participants[1].contribution_round, 1);

    // Nobody has reached round 2 yet, so the payout is rejected.
    let r = payout(&mut g, pk(1), start + 15 * DAY);
    assert_eq!(r.unwrap_err(), KooPaaError::NotAllContributed);

    // Everyone catches up to round 2 (15 days / 7-day interval).
    let a1 = contribute(&mut g, pk(1), start + 15 * DAY).unwrap();
    assert_eq!(a1, 200);
    let a2 = contribute(&mut g, pk(2), start + 15 * DAY).unwrap();
    assert_eq!(a2, 100);
    let a3 = contribute(&mut g, pk(3), start + 15 * DAY).unwrap();
    assert_eq!(a3, 200);

    // required contributions per payout = 14 / 7 = 2; recipient index 0.
    let paid = payout(&mut g, pk(1), start + 15 * DAY).unwrap();
    assert_eq!(paid, 600);
    assert_eq!(g.payout_round, 1);
}

/// Monotonic rounds: later clock readings never yield smaller rounds, and a
/// member's contribution round never decreases across operations.
#[test]
fn rounds_are_monotonic() {
    let start: i64 = 1_000_000;
    let mut previous: u16 = 0;
    for days in [0i64, 3, 7, 8, 14, 20, 21, 100] {
        let r = koopaa::utils::current_contribution_round(start + days * DAY, start, 7);
        assert!(r >= previous);
        previous = r;
    }
    let mut previous_payout: u16 = 0;
    for days in [0i64, 13, 14, 27, 28, 100] {
        let r = koopaa::utils::current_payout_round(start + days * DAY, start, 14);
        assert!(r >= previous_payout);
        previous_payout = r;
    }

    let (mut g, _gs) = started_group(start);
    let mut last_cr: u16 = g.participants[1].contribution_round;
    contribute(&mut g, pk(2), start + 8 * DAY).unwrap();
    assert!(g.participants[1].contribution_round >= last_cr);
    last_cr = g.participants[1].contribution_round;
    contribute(&mut g, pk(2), start + 22 * DAY).unwrap();
    assert!(g.participants[1].contribution_round >= last_cr);
}

/// No double payment: a second contribution with the same clock reading
/// derives the same round and is rejected.
#[test]
fn no_double_contribution() {
    let start: i64 = 1_000_000;
    let (mut g, _gs) = started_group(start);
    let now = start + 8 * DAY;
    assert_eq!(contribute(&mut g, pk(2), now).unwrap(), 100);
    let again = contribute(&mut g, pk(2), now);
    assert_eq!(again.unwrap_err(), KooPaaError::AlreadyContributed);
    assert_eq!(g.participants[1].contribution_round, 1);
}

/// Round-robin fairness: over three consecutive successful payouts, each of
/// the three members receives exactly once, in join order.
#[test]
fn round_robin_over_full_cycle() {
    let start: i64 = 1_000_000;
    let (mut g, _gs) = started_group(start);
    let mut recipients: Vec<u64> = Vec::new();

    for cycle in 0..3i64 {
        let now = start + (cycle + 1) * 14 * DAY;
        for id in 1..=3u64 {
            contribute(&mut g, pk(id), now).unwrap();
        }
        let expected_recipient = g.participants[(cycle as usize) % 3].pubkey;
        let paid = payout(&mut g, expected_recipient, now).unwrap();
        assert_eq!(paid, 600);
        recipients.push(expected_recipient.id);
    }

    assert_eq!(recipients, vec![1, 2, 3]);
}

/// Majority closure: with five members, the group closes exactly on the
/// third distinct vote, not on the second.
#[test]
fn majority_closure_at_third_vote() {
    let start: i64 = 1_000_000;
    let mut gs = initialize();
    let mut g = create_ajo_group("five".to_string(), 50, 100, 7, 14, 5, pk(1), &mut gs).unwrap();
    for id in 2..=5u64 {
        join_ajo_group(&mut g, &mut gs, pk(id), start).unwrap();
    }

    assert_eq!(close_ajo_group(&mut g, &mut gs, pk(1)).unwrap(), false);
    assert!(!g.is_closed);
    assert_eq!(close_ajo_group(&mut g, &mut gs, pk(2)).unwrap(), false);
    assert!(!g.is_closed);
    assert_eq!(close_ajo_group(&mut g, &mut gs, pk(3)).unwrap(), true);
    assert!(g.is_closed);
    assert_eq!(gs.active_groups, 0);
}

/// A two-of-three vote to close with one member at round 3 and the others
/// at round 1 refunds 250 to the leader and 50 to each of the others.
#[test]
fn closure_refunds_overcontribution() {
    let start: i64 = 1_000_000;
    let (mut g, mut gs) = started_group(start);

    contribute(&mut g, pk(2), start + 8 * DAY).unwrap();
    contribute(&mut g, pk(3), start + 8 * DAY).unwrap();
    assert_eq!(contribute(&mut g, pk(1), start + 22 * DAY).unwrap(), 300);
    assert_eq!(g.participants[0].contribution_round, 3);

    assert_eq!(close_ajo_group(&mut g, &mut gs, pk(2)).unwrap(), false);
    assert_eq!(close_ajo_group(&mut g, &mut gs, pk(3)).unwrap(), true);

    assert_eq!(g.participants[0].refund_amount, 250);
    assert_eq!(g.participants[1].refund_amount, 50);
    assert_eq!(g.participants[2].refund_amount, 50);
}

/// No double claim: the first claim pays the refund out, the second finds
/// nothing left.
#[test]
fn no_double_claim() {
    let start: i64 = 1_000_000;
    let (mut g, mut gs) = started_group(start);
    close_ajo_group(&mut g, &mut gs, pk(1)).unwrap();
    close_ajo_group(&mut g, &mut gs, pk(2)).unwrap();
    assert!(g.is_closed);

    assert_eq!(claim_refund(&mut g, pk(2)).unwrap(), 50);
    let again = claim_refund(&mut g, pk(2));
    assert_eq!(again.unwrap_err(), KooPaaError::NoRefundToClaim);
}

/// Custody conservation: after a whole lifecycle — deposits, catch-up
/// contributions, one payout, closure and two claims — the vault balance
/// obtained by applying every transfer the library requested equals
/// deposits plus contributions minus payouts minus claimed refunds, as
/// recomputed from the final state.
#[test]
fn custody_conservation_over_lifecycle() {
    let start: i64 = 1_000_000;
    let mut gs = initialize();
    let mut vault: u64 = 0;

    let mut g = create_ajo_group("test".to_string(), 50, 100, 7, 14, 3, pk(1), &mut gs).unwrap();
    vault += 50;
    vault += join_ajo_group(&mut g, &mut gs, pk(2), start).unwrap();
    vault += join_ajo_group(&mut g, &mut gs, pk(3), start).unwrap();

    let now = start + 15 * DAY;
    let mut contributed: u64 = 0;
    for id in 1..=3u64 {
        let a = contribute(&mut g, pk(id), now).unwrap();
        contributed += a;
        vault += a;
    }

    let paid = payout(&mut g, pk(1), now).unwrap();
    vault -= paid;

    close_ajo_group(&mut g, &mut gs, pk(2)).unwrap();
    close_ajo_group(&mut g, &mut gs, pk(3)).unwrap();

    let mut claimed: u64 = 0;
    for id in 2..=3u64 {
        let a = claim_refund(&mut g, pk(id)).unwrap();
        claimed += a;
        vault -= a;
    }

    let deposits: u64 = 50 * g.participants.len() as u64;
    let contributions: u64 = g
        .participants
        .iter()
        .map(|p| 100 * p.contribution_round as u64)
        .sum();
    assert_eq!(contributions, contributed);
    let payouts: u64 = 600 * g.payout_round as u64;

    assert_eq!(vault, deposits + contributions - payouts - claimed);

    // What remains in the vault still covers every outstanding refund.
    let outstanding: u64 = g.participants.iter().map(|p| p.refund_amount).sum();
    assert!(vault >= outstanding);
}

/// A group voted closed while still recruiting refunds exactly the deposits
/// and never starts.
#[test]
fn closure_while_recruiting_refunds_deposits() {
    let start: i64 = 1_000_000;
    let mut gs = initialize();
    let mut g = create_ajo_group("early".to_string(), 75, 100, 7, 14, 3, pk(1), &mut gs).unwrap();
    join_ajo_group(&mut g, &mut gs, pk(2), start).unwrap();

    assert_eq!(close_ajo_group(&mut g, &mut gs, pk(1)).unwrap(), false);
    assert_eq!(close_ajo_group(&mut g, &mut gs, pk(2)).unwrap(), true);
    assert!(g.is_closed);
    assert!(g.start_timestamp.is_none());
    assert_eq!(g.participants[0].refund_amount, 75);
    assert_eq!(g.participants[1].refund_amount, 75);
    // The group never started, so the registry's active count is untouched.
    assert_eq!(gs.active_groups, 0);

    // Joining a closed group is rejected.
    let r = join_ajo_group(&mut g, &mut gs, pk(4), start);
    assert_eq!(r.unwrap_err(), KooPaaError::GroupAlreadyClosed);
}
