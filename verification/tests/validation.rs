//! Creation-time validation, the error taxonomy of every operation, and the
//! pure arithmetic helpers.

use koopaa::errors::KooPaaError;
use koopaa::state::{AjoGroup, AjoParticipant, GlobalState, Pubkey};
use koopaa::utils::{all_contributed, calculate_fee, calculate_round_total, days_to_seconds};
use koopaa::{
    claim_refund, close_ajo_group, contribute, create_ajo_group, initialize, join_ajo_group,
    payout,
};

const DAY: i64 = 86400;

fn pk(id: u64) -> Pubkey {
    Pubkey { id }
}

fn create(
    gs: &mut GlobalState,
    security_deposit: u64,
    contribution_amount: u64,
    contribution_interval: u16,
    payout_interval: u16,
    num_participants: u8,
) -> Result<AjoGroup, KooPaaError> {
    create_ajo_group(
        "test".to_string(),
        security_deposit,
        contribution_amount,
        contribution_interval,
        payout_interval,
        num_participants,
        pk(1),
        gs,
    )
}

fn started_group(start: i64) -> (AjoGroup, GlobalState) {
    let mut gs = initialize();
    let mut g = create(&mut gs, 50, 100, 7, 14, 3).unwrap();
    join_ajo_group(&mut g, &mut gs, pk(2), start).unwrap();
    join_ajo_group(&mut g, &mut gs, pk(3), start).unwrap();
    (g, gs)
}

#[test]
fn registry_starts_at_zero() {
    let gs = initialize();
    assert_eq!(gs.total_groups, 0);
    assert_eq!(gs.active_groups, 0);
}

#[test]
fn deactivation_is_idempotent_at_zero() {
    let mut gs = initialize();
    gs.record_group_deactivated();
    assert_eq!(gs.active_groups, 0);
    gs.record_group_created();
    assert_eq!(gs.total_groups, 1);
    gs.record_group_activated();
    assert_eq!(gs.active_groups, 1);
    gs.record_group_deactivated();
    gs.record_group_deactivated();
    assert_eq!(gs.active_groups, 0);
}

#[test]
fn create_rejects_zero_contribution() {
    let mut gs = initialize();
    let r = create(&mut gs, 50, 0, 7, 14, 3);
    assert_eq!(r.unwrap_err(), KooPaaError::InvalidContributionAmount);
    assert_eq!(gs.total_groups, 0);
}

#[test]
fn create_rejects_bad_intervals() {
    let mut gs = initialize();
    assert_eq!(
        create(&mut gs, 50, 100, 0, 14, 3).unwrap_err(),
        KooPaaError::InvalidInterval
    );
    assert_eq!(
        create(&mut gs, 50, 100, 91, 91, 3).unwrap_err(),
        KooPaaError::InvalidInterval
    );
    assert_eq!(
        create(&mut gs, 50, 100, 7, 6, 3).unwrap_err(),
        KooPaaError::InvalidInterval
    );
    assert_eq!(
        create(&mut gs, 50, 100, 7, 91, 3).unwrap_err(),
        KooPaaError::InvalidInterval
    );
    assert_eq!(
        create(&mut gs, 50, 100, 30, 14, 3).unwrap_err(),
        KooPaaError::InvalidInterval
    );
}

#[test]
fn create_rejects_bad_membership_count() {
    let mut gs = initialize();
    assert_eq!(
        create(&mut gs, 50, 100, 7, 14, 2).unwrap_err(),
        KooPaaError::InvalidParticipantCount
    );
    assert_eq!(
        create(&mut gs, 50, 100, 7, 14, 21).unwrap_err(),
        KooPaaError::InvalidParticipantCount
    );
}

#[test]
fn create_rejects_long_name_and_zero_deposit() {
    let mut gs = initialize();
    let long_name = "x".repeat(51);
    let r = create_ajo_group(long_name, 50, 100, 7, 14, 3, pk(1), &mut gs);
    assert_eq!(r.unwrap_err(), KooPaaError::NameTooLong);
    assert_eq!(
        create(&mut gs, 0, 100, 7, 14, 3).unwrap_err(),
        KooPaaError::InvalidSecurityDeposit
    );
}

#[test]
fn payout_interval_aligns_to_contribution_boundary() {
    let mut gs = initialize();
    let g = create(&mut gs, 50, 100, 7, 10, 3).unwrap();
    assert_eq!(g.payout_interval, 14);
    let g = create(&mut gs, 50, 100, 30, 90, 3).unwrap();
    assert_eq!(g.payout_interval, 90);
    let g = create(&mut gs, 50, 100, 60, 90, 3).unwrap();
    assert_eq!(g.payout_interval, 120);
    let g = create(&mut gs, 50, 100, 7, 14, 3).unwrap();
    assert_eq!(g.payout_interval, 14);
}

#[test]
fn create_accepts_boundary_parameters() {
    let mut gs = initialize();
    // The largest allowed name, membership and intervals, and an empty name.
    let long_name = "x".repeat(50);
    let g = create_ajo_group(long_name, 1, 1, 90, 90, 20, pk(1), &mut gs).unwrap();
    assert_eq!(g.payout_interval, 90);
    assert_eq!(g.num_participants, 20);
    let g = create_ajo_group(String::new(), 1, 1, 1, 7, 3, pk(1), &mut gs).unwrap();
    assert_eq!(g.name, "");
    assert_eq!(g.payout_interval, 7);
    assert_eq!(gs.total_groups, 2);
}

#[test]
fn full_twenty_member_group_starts() {
    let start: i64 = 1_000_000;
    let mut gs = initialize();
    let mut g = create_ajo_group("big".to_string(), 5, 10, 7, 7, 20, pk(1), &mut gs).unwrap();
    for id in 2..=20u64 {
        join_ajo_group(&mut g, &mut gs, pk(id), start).unwrap();
    }
    assert_eq!(g.start_timestamp, Some(start));
    assert_eq!(g.participants.len(), 20);

    // One contribution interval per payout: everyone pays round 1, the
    // creator receives the whole pool.
    for id in 1..=20u64 {
        assert_eq!(contribute(&mut g, pk(id), start + 7 * DAY).unwrap(), 10);
    }
    assert_eq!(payout(&mut g, pk(1), start + 7 * DAY).unwrap(), 200);
}

#[test]
fn join_rejections() {
    let start: i64 = 1_000_000;
    let mut gs = initialize();
    let mut g = create(&mut gs, 50, 100, 7, 14, 3).unwrap();

    let r = join_ajo_group(&mut g, &mut gs, pk(1), start);
    assert_eq!(r.unwrap_err(), KooPaaError::AlreadyJoined);

    join_ajo_group(&mut g, &mut gs, pk(2), start).unwrap();
    join_ajo_group(&mut g, &mut gs, pk(3), start).unwrap();
    let r = join_ajo_group(&mut g, &mut gs, pk(4), start);
    assert_eq!(r.unwrap_err(), KooPaaError::GroupAlreadyStarted);
}

#[test]
fn contribute_rejections() {
    let start: i64 = 1_000_000;
    let mut gs = initialize();
    let mut g = create(&mut gs, 50, 100, 7, 14, 3).unwrap();

    let r = contribute(&mut g, pk(1), start);
    assert_eq!(r.unwrap_err(), KooPaaError::GroupNotStarted);

    join_ajo_group(&mut g, &mut gs, pk(2), start).unwrap();
    join_ajo_group(&mut g, &mut gs, pk(3), start).unwrap();

    let r = contribute(&mut g, pk(9), start + 8 * DAY);
    assert_eq!(r.unwrap_err(), KooPaaError::NotParticipant);

    // Still inside round 0: nothing is owed yet, paying ahead is refused.
    let r = contribute(&mut g, pk(2), start + 3 * DAY);
    assert_eq!(r.unwrap_err(), KooPaaError::AlreadyContributed);

    close_ajo_group(&mut g, &mut gs, pk(1)).unwrap();
    close_ajo_group(&mut g, &mut gs, pk(2)).unwrap();
    let r = contribute(&mut g, pk(2), start + 8 * DAY);
    assert_eq!(r.unwrap_err(), KooPaaError::GroupAlreadyClosed);
}

#[test]
fn payout_rejections() {
    let start: i64 = 1_000_000;
    let mut gs = initialize();
    let mut g = create(&mut gs, 50, 100, 7, 14, 3).unwrap();

    let r = payout(&mut g, pk(1), start + 15 * DAY);
    assert_eq!(r.unwrap_err(), KooPaaError::GroupNotStarted);

    join_ajo_group(&mut g, &mut gs, pk(2), start).unwrap();
    join_ajo_group(&mut g, &mut gs, pk(3), start).unwrap();

    let r = payout(&mut g, pk(1), start + 15 * DAY);
    assert_eq!(r.unwrap_err(), KooPaaError::NotAllContributed);

    for id in 1..=3u64 {
        contribute(&mut g, pk(id), start + 14 * DAY).unwrap();
    }

    // Everyone has contributed, but the first payout interval has not
    // elapsed at this clock reading.
    let r = payout(&mut g, pk(1), start + 14 * DAY - 1);
    assert_eq!(r.unwrap_err(), KooPaaError::PayoutNotYetDue);

    // Due, but the supplied recipient is not the round-robin pick.
    let r = payout(&mut g, pk(2), start + 15 * DAY);
    assert_eq!(r.unwrap_err(), KooPaaError::NotCurrentRecipient);

    payout(&mut g, pk(1), start + 15 * DAY).unwrap();

    close_ajo_group(&mut g, &mut gs, pk(1)).unwrap();
    close_ajo_group(&mut g, &mut gs, pk(2)).unwrap();
    let r = payout(&mut g, pk(2), start + 29 * DAY);
    assert_eq!(r.unwrap_err(), KooPaaError::GroupAlreadyClosed);
}

#[test]
fn close_rejections() {
    let start: i64 = 1_000_000;
    let (mut g, mut gs) = started_group(start);

    let r = close_ajo_group(&mut g, &mut gs, pk(9));
    assert_eq!(r.unwrap_err(), KooPaaError::NotParticipant);

    close_ajo_group(&mut g, &mut gs, pk(1)).unwrap();
    let r = close_ajo_group(&mut g, &mut gs, pk(1));
    assert_eq!(r.unwrap_err(), KooPaaError::AlreadyVotedToClose);

    close_ajo_group(&mut g, &mut gs, pk(2)).unwrap();
    assert!(g.is_closed);
    let r = close_ajo_group(&mut g, &mut gs, pk(3));
    assert_eq!(r.unwrap_err(), KooPaaError::GroupAlreadyClosed);
}

#[test]
fn claim_rejections() {
    let start: i64 = 1_000_000;
    let (mut g, mut gs) = started_group(start);

    let r = claim_refund(&mut g, pk(1));
    assert_eq!(r.unwrap_err(), KooPaaError::GroupNotClosed);

    close_ajo_group(&mut g, &mut gs, pk(1)).unwrap();
    close_ajo_group(&mut g, &mut gs, pk(2)).unwrap();

    let r = claim_refund(&mut g, pk(9));
    assert_eq!(r.unwrap_err(), KooPaaError::NotParticipant);

    assert_eq!(claim_refund(&mut g, pk(1)).unwrap(), 50);
    let r = claim_refund(&mut g, pk(1));
    assert_eq!(r.unwrap_err(), KooPaaError::NoRefundToClaim);
}

#[test]
fn day_conversion_is_exact() {
    assert_eq!(days_to_seconds(0), 0);
    assert_eq!(days_to_seconds(1), 86400);
    assert_eq!(days_to_seconds(7), 604800);
    assert_eq!(days_to_seconds(90), 7_776_000);
}

#[test]
fn fee_is_tenths_of_a_percent() {
    assert_eq!(calculate_fee(10_000, 25), 250);
    assert_eq!(calculate_fee(10_000, 1), 10);
    assert_eq!(calculate_fee(999, 1), 0);
    assert_eq!(calculate_fee(0, 100), 0);
}

#[test]
fn account_size_formula() {
    assert_eq!(AjoGroup::calculate_size("test", 3), 279);
    assert_eq!(AjoGroup::calculate_size("", 20), 53 + 74 * 20);
}

fn bare_group(participants: Vec<AjoParticipant>, payout_round: u16) -> AjoGroup {
    AjoGroup {
        name: "bare".to_string(),
        security_deposit: 50,
        contribution_amount: 100,
        contribution_interval: 7,
        payout_interval: 14,
        num_participants: 3,
        participants,
        start_timestamp: Some(0),
        payout_round,
        close_votes: Vec::new(),
        is_closed: false,
    }
}

fn member(id: u64, contribution_round: u16) -> AjoParticipant {
    AjoParticipant {
        pubkey: pk(id),
        contribution_round,
        refund_amount: 0,
    }
}

#[test]
fn round_total_excludes_recipient() {
    let g = bare_group(vec![member(1, 0), member(2, 0), member(3, 0)], 0);
    assert_eq!(calculate_round_total(&g), 200);
}

#[test]
fn all_contributed_ignores_current_recipient() {
    // Payout round 1 selects member 2; member 2 itself is behind, everyone
    // else has reached round 1.
    let g = bare_group(vec![member(1, 1), member(2, 0), member(3, 1)], 1);
    assert!(all_contributed(&g));

    // A non-recipient behind the round makes the check fail.
    let g = bare_group(vec![member(1, 1), member(2, 1), member(3, 0)], 1);
    assert!(!all_contributed(&g));

    let g = bare_group(vec![member(1, 0), member(2, 0), member(3, 0)], 0);
    assert!(all_contributed(&g));
}
