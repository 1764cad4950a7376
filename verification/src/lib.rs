//! A rotating-savings group protocol (an "Ajo" circle): a fixed set of
//! participants each lock a security deposit, pay periodic contributions into
//! a shared custody vault, and take turns receiving a lump-sum payout, with a
//! majority-vote early-termination path that refunds unused funds.
//!
//! This crate holds the group lifecycle state machine and its settlement
//! arithmetic. Moving actual funds, storing accounts and verifying signatures
//! are the hosting ledger's work: each operation here validates a request
//! against loaded state, commits the new state through its `&mut` parameters,
//! and returns the amount the host must transfer. An operation is atomic —
//! when it fails, it leaves every account exactly as it was, and the host
//! discards the new state if the transfer itself fails.

use vstd::prelude::*;

pub mod errors;
pub mod events;
pub mod laws;
pub mod math;
pub mod state;
pub mod utils;

use crate::errors::KooPaaError;
use crate::state::{
    has_participant, index_of, lemma_index_of_unique, same_config, sum_contribution_rounds,
    AjoGroup, AjoParticipant, GlobalState, Pubkey,
};
use crate::utils::{elapsed_rounds, spec_elapsed_rounds};

verus! {

/// Create the protocol registry with both counters at zero. The hosting
/// ledger allocates the backing account once at deployment and itself
/// rejects a second initialization.
pub fn initialize() -> (r: GlobalState)
    ensures
        r.total_groups == 0,
        r.active_groups == 0,
        r.wf(),
{
    GlobalState { total_groups: 0, active_groups: 0 }
}

/// The creation-time bounds on group parameters.
pub open spec fn create_params_valid(
    name: Seq<char>,
    security_deposit: u64,
    contribution_amount: u64,
    contribution_interval: u16,
    payout_interval: u16,
    num_participants: u8,
) -> bool {
    &&& contribution_amount > 0
    &&& 1 <= contribution_interval <= 90
    &&& 7 <= payout_interval <= 90
    &&& contribution_interval <= payout_interval
    &&& 3 <= num_participants <= 20
    &&& name.len() <= 50
    &&& security_deposit > 0
}

/// The error creation reports, determined by the first violated bound.
pub open spec fn create_param_error(
    name: Seq<char>,
    security_deposit: u64,
    contribution_amount: u64,
    contribution_interval: u16,
    payout_interval: u16,
    num_participants: u8,
) -> KooPaaError {
    if !(contribution_amount > 0) {
        KooPaaError::InvalidContributionAmount
    } else if !(1 <= contribution_interval <= 90) {
        KooPaaError::InvalidInterval
    } else if !(7 <= payout_interval <= 90) {
        KooPaaError::InvalidInterval
    } else if !(contribution_interval <= payout_interval) {
        KooPaaError::InvalidInterval
    } else if !(3 <= num_participants <= 20) {
        KooPaaError::InvalidParticipantCount
    } else if !(name.len() <= 50) {
        KooPaaError::NameTooLong
    } else {
        KooPaaError::InvalidSecurityDeposit
    }
}

/// The effective payout interval: the smallest multiple of
/// `contribution_interval` that is at least the requested `payout_interval`,
/// so the payout cadence aligns exactly on a contribution-round boundary.
pub open spec fn aligned_payout_interval(contribution_interval: u16, payout_interval: u16) -> int {
    ((payout_interval + contribution_interval - 1) / (contribution_interval as int))
        * contribution_interval
}

/// Create a group with the caller as participant 0, after validating every
/// creation-time bound. On success the host must move `security_deposit`
/// from the creator into the group's custody vault before persisting the
/// returned group; the group then accounts for exactly that deposit.
pub fn create_ajo_group(
    name: String,
    security_deposit: u64,
    contribution_amount: u64,
    contribution_interval: u16,
    payout_interval: u16,
    num_participants: u8,
    creator: Pubkey,
    global_state: &mut GlobalState,
) -> (r: Result<AjoGroup, KooPaaError>)
    requires
        old(global_state).wf(),
        old(global_state).total_groups < u64::MAX,
    ensures
        final(global_state).wf(),
        match r {
            Ok(group) => {
                &&& create_params_valid(
                    name@,
                    security_deposit,
                    contribution_amount,
                    contribution_interval,
                    payout_interval,
                    num_participants,
                )
                &&& group.wf()
                &&& group.name == name
                &&& group.security_deposit == security_deposit
                &&& group.contribution_amount == contribution_amount
                &&& group.contribution_interval == contribution_interval
                &&& group.payout_interval == aligned_payout_interval(
                    contribution_interval,
                    payout_interval,
                )
                &&& group.num_participants == num_participants
                &&& group.participants@ == seq![
                    (AjoParticipant { pubkey: creator, contribution_round: 0, refund_amount: 0 }),
                ]
                &&& group.start_timestamp.is_none()
                &&& group.payout_round == 0
                &&& group.close_votes@.len() == 0
                &&& !group.is_closed
                &&& group.expected_vault() == security_deposit
                &&& final(global_state).total_groups == old(global_state).total_groups + 1
                &&& final(global_state).active_groups == old(global_state).active_groups
            },
            Err(e) => {
                &&& !create_params_valid(
                    name@,
                    security_deposit,
                    contribution_amount,
                    contribution_interval,
                    payout_interval,
                    num_participants,
                )
                &&& e == create_param_error(
                    name@,
                    security_deposit,
                    contribution_amount,
                    contribution_interval,
                    payout_interval,
                    num_participants,
                )
                &&& *final(global_state) == *old(global_state)
            },
        },
{
    if !(contribution_amount > 0) {
        return Err(KooPaaError::InvalidContributionAmount);
    }
    if !(contribution_interval > 0 && contribution_interval <= 90) {
        return Err(KooPaaError::InvalidInterval);
    }
    if !(payout_interval >= 7 && payout_interval <= 90) {
        return Err(KooPaaError::InvalidInterval);
    }
    if !(payout_interval >= contribution_interval) {
        return Err(KooPaaError::InvalidInterval);
    }
    if !(num_participants >= 3 && num_participants <= 20) {
        return Err(KooPaaError::InvalidParticipantCount);
    }
    if name.as_str().unicode_len() > 50 {
        return Err(KooPaaError::NameTooLong);
    }
    if !(security_deposit > 0) {
        return Err(KooPaaError::InvalidSecurityDeposit);
    }

    let quotient: u16 = (payout_interval + contribution_interval - 1) / contribution_interval;
    proof {
        let x = payout_interval + contribution_interval - 1;
        let d = contribution_interval as int;
        vstd::arithmetic::div_mod::lemma_fundamental_div_mod(x, d);
        vstd::arithmetic::div_mod::lemma_mod_bound(x, d);
        assert(quotient == x / d);
        assert(quotient * d == d * (x / d)) by (nonlinear_arith)
            requires quotient == x / d;
        assert(payout_interval <= quotient * d <= x);
        vstd::arithmetic::div_mod::lemma_mod_multiples_basic(quotient as int, d);
    }
    let round_payout_interval: u16 = quotient * contribution_interval;

    let mut participants: Vec<AjoParticipant> = Vec::new();
    participants.push(AjoParticipant { pubkey: creator, contribution_round: 0, refund_amount: 0 });
    let close_votes: Vec<Pubkey> = Vec::new();

    let group = AjoGroup {
        name,
        security_deposit,
        contribution_amount,
        contribution_interval,
        payout_interval: round_payout_interval,
        num_participants,
        participants,
        start_timestamp: None,
        payout_round: 0,
        close_votes,
        is_closed: false,
    };

    global_state.record_group_created();

    proof {
        let s = group.participants@;
        assert(s =~= seq![
            (AjoParticipant { pubkey: creator, contribution_round: 0, refund_amount: 0 }),
        ]);
        assert(s.drop_last() =~= Seq::<AjoParticipant>::empty());
        assert(crate::state::sum_contribution_rounds(Seq::<AjoParticipant>::empty()) == 0);
        assert(crate::state::sum_contribution_rounds(s) == 0);
        broadcast use vstd::arithmetic::mul::lemma_mul_by_zero_is_zero;

        assert(group.total_payouts() == 0);
        assert(group.expected_vault() == security_deposit);
    }

    Ok(group)
}

/// Whether `id` may join `g` now: the group is open, still recruiting, and
/// `id` is not yet a member.
pub open spec fn can_join(g: AjoGroup, id: Pubkey) -> bool {
    &&& !g.is_closed
    &&& !g.started()
    &&& !has_participant(g.participants@, id)
}

/// The error a rejected join reports, determined by the first failed check.
pub open spec fn join_error(g: AjoGroup, id: Pubkey) -> KooPaaError {
    if g.is_closed {
        KooPaaError::GroupAlreadyClosed
    } else if g.started() {
        KooPaaError::GroupAlreadyStarted
    } else {
        KooPaaError::AlreadyJoined
    }
}

/// Add `id` to a recruiting group. On success the host must move the
/// returned amount — the group's security deposit — from the joiner into
/// custody. When the last seat fills, the group starts at `now` and the
/// registry counts it active; a group activates only after being created, so
/// the registry's active count is strictly below its total.
#[verifier::loop_isolation(false)]
pub fn join_ajo_group(
    group: &mut AjoGroup,
    global_state: &mut GlobalState,
    participant: Pubkey,
    now: i64,
) -> (r: Result<u64, KooPaaError>)
    requires
        old(group).wf(),
        old(global_state).wf(),
        old(global_state).active_groups < old(global_state).total_groups,
        now >= 0,
    ensures
        final(group).wf(),
        final(global_state).wf(),
        final(global_state).total_groups == old(global_state).total_groups,
        match r {
            Ok(amount) => {
                &&& can_join(*old(group), participant)
                &&& amount == old(group).security_deposit
                &&& same_config(*old(group), *final(group))
                &&& final(group).participants@ == old(group).participants@.push(
                    (AjoParticipant {
                        pubkey: participant,
                        contribution_round: 0,
                        refund_amount: 0,
                    }),
                )
                &&& final(group).payout_round == old(group).payout_round
                &&& final(group).close_votes@ == old(group).close_votes@
                &&& !final(group).is_closed
                &&& (final(group).started() <==> old(group).participants@.len() + 1
                    == old(group).num_participants)
                &&& (final(group).started() ==> final(group).start_timestamp == Some(now)
                    && final(global_state).active_groups == old(global_state).active_groups + 1)
                &&& (!final(group).started() ==> final(group).start_timestamp.is_none()
                    && final(global_state).active_groups == old(global_state).active_groups)
                &&& final(group).expected_vault() == old(group).expected_vault() + amount
            },
            Err(e) => {
                &&& !can_join(*old(group), participant)
                &&& e == join_error(*old(group), participant)
                &&& *final(group) == *old(group)
                &&& *final(global_state) == *old(global_state)
            },
        },
{
    if group.is_closed {
        return Err(KooPaaError::GroupAlreadyClosed);
    }
    if group.start_timestamp.is_some() {
        return Err(KooPaaError::GroupAlreadyStarted);
    }

    let mut idx: usize = 0;
    while idx < group.participants.len() && !(group.participants[idx].pubkey == participant)
        invariant
            idx <= group.participants@.len(),
            forall|k: int| 0 <= k < idx ==> group.participants@[k].pubkey != participant,
        decreases group.participants@.len() - idx,
    {
        idx = idx + 1;
    }
    if idx < group.participants.len() {
        return Err(KooPaaError::AlreadyJoined);
    }

    let ghost old_members = group.participants@;
    let joiner = AjoParticipant { pubkey: participant, contribution_round: 0, refund_amount: 0 };
    group.participants.push(joiner);

    proof {
        crate::math::lemma_sum_contribution_rounds_push(old_members, joiner);
        assert forall|v: Pubkey| has_participant(old_members, v) implies has_participant(
            group.participants@,
            v,
        ) by {
            let k = choose|k: int| 0 <= k < old_members.len() && old_members[k].pubkey == v;
            assert(group.participants@[k].pubkey == v);
        }
        assert((old_members.len() + 1) * group.security_deposit == old_members.len()
            * group.security_deposit + group.security_deposit) by (nonlinear_arith);
    }

    let transfer_amount = group.security_deposit;

    if group.participants.len() == group.num_participants as usize {
        group.start_timestamp = Some(now);
        global_state.record_group_activated();
    }

    Ok(transfer_amount)
}

/// The contribution round in progress at `now` for the started group `g`.
pub open spec fn contribution_round_at(g: AjoGroup, now: i64) -> int {
    spec_elapsed_rounds(now, g.start_timestamp.unwrap(), g.contribution_interval)
}

/// Whether `id` can contribute to `g` at `now`: the group is open and
/// started, `id` is a member, and the round in progress is beyond the last
/// round `id` paid — a member may never pay a round twice, nor pay ahead of
/// the round in progress.
pub open spec fn can_contribute(g: AjoGroup, id: Pubkey, now: i64) -> bool {
    &&& !g.is_closed
    &&& g.started()
    &&& has_participant(g.participants@, id)
    &&& g.participants@[index_of(g.participants@, id)].contribution_round < contribution_round_at(
        g,
        now,
    )
}

/// The error a rejected contribution reports, determined by the first failed
/// check.
pub open spec fn contribute_error(g: AjoGroup, id: Pubkey, now: i64) -> KooPaaError {
    if g.is_closed {
        KooPaaError::GroupAlreadyClosed
    } else if !g.started() {
        KooPaaError::GroupNotStarted
    } else if !has_participant(g.participants@, id) {
        KooPaaError::NotParticipant
    } else {
        KooPaaError::AlreadyContributed
    }
}

/// How a successful contribution by `id` at `now` rewrites `g1` into `g2`:
/// only `id`'s entry changes, and only by advancing its contribution round
/// to the round in progress.
pub open spec fn contribute_post(g1: AjoGroup, g2: AjoGroup, id: Pubkey, now: i64) -> bool {
    let i = index_of(g1.participants@, id);
    &&& g2.participants@ == g1.participants@.update(
        i,
        (AjoParticipant {
            pubkey: g1.participants@[i].pubkey,
            contribution_round: contribution_round_at(g1, now) as u16,
            refund_amount: g1.participants@[i].refund_amount,
        }),
    )
    &&& same_config(g1, g2)
    &&& g2.start_timestamp == g1.start_timestamp
    &&& g2.payout_round == g1.payout_round
    &&& g2.close_votes@ == g1.close_votes@
    &&& g2.is_closed == g1.is_closed
}

/// Pay `id`'s contributions up to the round in progress at `now`, catching
/// up on every missed round in one transfer. On success the host must move
/// the returned amount — the contribution amount times the rounds covered —
/// from the contributor into custody.
#[verifier::loop_isolation(false)]
pub fn contribute(group: &mut AjoGroup, contributor: Pubkey, now: i64) -> (r: Result<
    u64,
    KooPaaError,
>)
    requires
        old(group).wf(),
        !old(group).is_closed && old(group).started() ==> now >= old(group).start_time()
            && contribution_round_at(*old(group), now) <= u16::MAX && old(
            group,
        ).contribution_amount * contribution_round_at(*old(group), now) <= u64::MAX,
    ensures
        final(group).wf(),
        match r {
            Ok(amount) => {
                &&& can_contribute(*old(group), contributor, now)
                &&& contribute_post(*old(group), *final(group), contributor, now)
                &&& amount == old(group).contribution_amount * (contribution_round_at(
                    *old(group),
                    now,
                ) - old(group).participants@[index_of(
                    old(group).participants@,
                    contributor,
                )].contribution_round)
                &&& final(group).expected_vault() == old(group).expected_vault() + amount
            },
            Err(e) => {
                &&& !can_contribute(*old(group), contributor, now)
                &&& e == contribute_error(*old(group), contributor, now)
                &&& *final(group) == *old(group)
            },
        },
{
    if group.is_closed {
        return Err(KooPaaError::GroupAlreadyClosed);
    }
    let start_timestamp = match group.start_timestamp {
        Some(t) => t,
        None => { return Err(KooPaaError::GroupNotStarted) },
    };

    let mut idx: usize = 0;
    while idx < group.participants.len() && !(group.participants[idx].pubkey == contributor)
        invariant
            idx <= group.participants@.len(),
            forall|k: int| 0 <= k < idx ==> group.participants@[k].pubkey != contributor,
        decreases group.participants@.len() - idx,
    {
        idx = idx + 1;
    }
    if idx == group.participants.len() {
        return Err(KooPaaError::NotParticipant);
    }
    proof {
        lemma_index_of_unique(group.participants@, contributor, idx as int);
    }

    let current_round: u16 = elapsed_rounds(now, start_timestamp, group.contribution_interval);

    let last_paid_round = group.participants[idx].contribution_round;
    if last_paid_round >= current_round {
        return Err(KooPaaError::AlreadyContributed);
    }

    let rounds_missed: u16 = current_round - last_paid_round;
    proof {
        assert(group.contribution_amount * rounds_missed <= group.contribution_amount
            * current_round) by (nonlinear_arith)
            requires rounds_missed <= current_round, group.contribution_amount >= 0;
    }
    let transfer_amount: u64 = group.contribution_amount * (rounds_missed as u64);

    let ghost old_members = group.participants@;
    let updated = AjoParticipant {
        pubkey: contributor,
        contribution_round: current_round,
        refund_amount: group.participants[idx].refund_amount,
    };
    group.participants.set(idx, updated);

    proof {
        crate::math::lemma_sum_contribution_rounds_update(old_members, idx as int, updated);
        assert forall|v: Pubkey| has_participant(old_members, v) implies has_participant(
            group.participants@,
            v,
        ) by {
            let k = choose|k: int| 0 <= k < old_members.len() && old_members[k].pubkey == v;
            assert(group.participants@[k].pubkey == v);
        }
        assert(group.contribution_amount * sum_contribution_rounds(group.participants@)
            == group.contribution_amount * sum_contribution_rounds(old_members)
            + group.contribution_amount * (current_round - last_paid_round)) by (nonlinear_arith)
            requires
                sum_contribution_rounds(group.participants@) == sum_contribution_rounds(
                    old_members,
                ) - last_paid_round + current_round,
        ;
    }

    Ok(transfer_amount)
}

/// The payout round due at `now` for the started group `g`.
pub open spec fn payout_round_at(g: AjoGroup, now: i64) -> int {
    spec_elapsed_rounds(now, g.start_timestamp.unwrap(), g.payout_interval)
}

/// The contribution round every member must have reached before the next
/// payout may execute: the payout about to be made covers rounds up to
/// `(payout_round + 1) * required_per_payout`.
pub open spec fn payout_threshold(g: AjoGroup) -> int {
    (g.payout_round + 1) * g.required_per_payout()
}

/// Whether no member is in arrears for the span the next payout covers.
pub open spec fn all_reached_threshold(g: AjoGroup) -> bool {
    forall|i: int|
        0 <= i < g.participants@.len() ==> #[trigger] g.participants@[i].contribution_round
            >= payout_threshold(g)
}

/// The member the round-robin selects for the next payout: join order,
/// cycling.
pub open spec fn payout_recipient_index(g: AjoGroup) -> int {
    g.payout_round as int % g.participants@.len() as int
}

/// Whether the next payout can execute at `now` in favour of `recipient`:
/// the group is open and started, nobody is in arrears for the covered span,
/// a full payout interval has elapsed since the last payout, and `recipient`
/// is the member the round-robin selects.
pub open spec fn can_payout(g: AjoGroup, recipient: Pubkey, now: i64) -> bool {
    &&& !g.is_closed
    &&& g.started()
    &&& all_reached_threshold(g)
    &&& g.payout_round < payout_round_at(g, now)
    &&& g.participants@[payout_recipient_index(g)].pubkey == recipient
}

/// The error a rejected payout reports, determined by the first failed
/// check.
pub open spec fn payout_error(g: AjoGroup, recipient: Pubkey, now: i64) -> KooPaaError {
    if g.is_closed {
        KooPaaError::GroupAlreadyClosed
    } else if !g.started() {
        KooPaaError::GroupNotStarted
    } else if !all_reached_threshold(g) {
        KooPaaError::NotAllContributed
    } else if !(g.payout_round < payout_round_at(g, now)) {
        KooPaaError::PayoutNotYetDue
    } else {
        KooPaaError::NotCurrentRecipient
    }
}

/// How a successful payout rewrites `g1` into `g2`: only the payout counter
/// advances.
pub open spec fn payout_post(g1: AjoGroup, g2: AjoGroup) -> bool {
    &&& same_config(g1, g2)
    &&& g2.participants@ == g1.participants@
    &&& g2.start_timestamp == g1.start_timestamp
    &&& g2.payout_round == g1.payout_round + 1
    &&& g2.close_votes@ == g1.close_votes@
    &&& g2.is_closed == g1.is_closed
}

/// Pay the pooled amount for one payout span to this round's recipient. On
/// success the host must move the returned amount — the contribution amount
/// times the group size times the rounds each payout covers — out of custody
/// to the recipient, authorized by the group's own custody authority, not by
/// any individual signer.
#[verifier::loop_isolation(false)]
pub fn payout(group: &mut AjoGroup, recipient: Pubkey, now: i64) -> (r: Result<u64, KooPaaError>)
    requires
        old(group).wf(),
        old(group).contribution_amount * old(group).num_participants * old(
            group,
        ).required_per_payout() <= u64::MAX,
        !old(group).is_closed && old(group).started() ==> now >= old(group).start_time()
            && payout_round_at(*old(group), now) <= u16::MAX,
    ensures
        final(group).wf(),
        match r {
            Ok(amount) => {
                &&& can_payout(*old(group), recipient, now)
                &&& payout_post(*old(group), *final(group))
                &&& amount == old(group).contribution_amount * old(group).num_participants * old(
                    group,
                ).required_per_payout()
                &&& final(group).expected_vault() == old(group).expected_vault() - amount
            },
            Err(e) => {
                &&& !can_payout(*old(group), recipient, now)
                &&& e == payout_error(*old(group), recipient, now)
                &&& *final(group) == *old(group)
            },
        },
{
    if group.is_closed {
        return Err(KooPaaError::GroupAlreadyClosed);
    }
    let start_timestamp = match group.start_timestamp {
        Some(t) => t,
        None => { return Err(KooPaaError::GroupNotStarted) },
    };

    let required_contributions_per_payout: u16 = group.payout_interval
        / group.contribution_interval;
    proof {
        crate::math::lemma_div_bounds(group.payout_interval as int, group.contribution_interval as int);
        assert((group.payout_round + 1) * required_contributions_per_payout <= 66000 * 180)
            by (nonlinear_arith)
            requires
                group.payout_round <= 65535,
                0 <= required_contributions_per_payout <= 180,
        ;
    }
    let min_required_contribution_rounds: u32 = (group.payout_round as u32 + 1)
        * (required_contributions_per_payout as u32);

    let mut i: usize = 0;
    while i < group.participants.len()
        invariant
            i <= group.participants@.len(),
            forall|k: int|
                0 <= k < i ==> #[trigger] group.participants@[k].contribution_round
                    >= payout_threshold(*group),
        decreases group.participants@.len() - i,
    {
        if (group.participants[i].contribution_round as u32) < min_required_contribution_rounds {
            return Err(KooPaaError::NotAllContributed);
        }
        i = i + 1;
    }

    let expected_payout_round: u16 = elapsed_rounds(now, start_timestamp, group.payout_interval);
    if !(group.payout_round < expected_payout_round) {
        return Err(KooPaaError::PayoutNotYetDue);
    }

    let num_participants = group.participants.len();
    let recipient_index: usize = (group.payout_round as usize) % num_participants;
    proof {
        vstd::arithmetic::div_mod::lemma_mod_bound(
            group.payout_round as int,
            num_participants as int,
        );
    }
    let recipient_pubkey = group.participants[recipient_index].pubkey;
    if !(recipient_pubkey == recipient) {
        return Err(KooPaaError::NotCurrentRecipient);
    }

    proof {
        let c = group.contribution_amount as int;
        let n = group.num_participants as int;
        let q = group.required_per_payout();
        assert(c * n <= c * n * q) by (nonlinear_arith)
            requires c >= 0, n >= 0, q >= 1;
    }
    let payout_amount: u64 = group.contribution_amount * (num_participants as u64) * (
    required_contributions_per_payout as u64);

    group.payout_round = group.payout_round + 1;

    proof {
        let c = group.contribution_amount as int;
        let n = group.num_participants as int;
        let q = group.required_per_payout();
        let p = old(group).payout_round as int;
        assert(c * n * q * (p + 1) == c * n * q * p + c * n * q) by (nonlinear_arith);
    }

    Ok(payout_amount)
}

/// Whether `id` may vote to close `g`: the group is open, `id` is a member
/// and has not voted yet.
pub open spec fn can_vote_close(g: AjoGroup, id: Pubkey) -> bool {
    &&& !g.is_closed
    &&& has_participant(g.participants@, id)
    &&& !g.close_votes@.contains(id)
}

/// The error a rejected closure vote reports, determined by the first
/// failed check.
pub open spec fn vote_close_error(g: AjoGroup, id: Pubkey) -> KooPaaError {
    if g.is_closed {
        KooPaaError::GroupAlreadyClosed
    } else if !has_participant(g.participants@, id) {
        KooPaaError::NotParticipant
    } else {
        KooPaaError::AlreadyVotedToClose
    }
}

/// Whether one more vote reaches a strict majority of current membership.
pub open spec fn majority_after_vote(g: AjoGroup) -> bool {
    2 * (g.close_votes@.len() + 1) > g.participants@.len()
}

/// The refund closure would set aside for member `i` of `g`: their deposit
/// back, plus the contributions they paid beyond the round every member
/// jointly reached. Before the group starts nobody has contributed, so the
/// formula reduces to the deposit alone.
pub open spec fn closure_refund(g: AjoGroup, i: int) -> int {
    g.security_deposit + g.contribution_amount * (g.participants@[i].contribution_round
        - crate::state::min_contribution_round(g.participants@))
}

/// Whether every refund closure would set aside fits the transfer width.
pub open spec fn refunds_fit(g: AjoGroup) -> bool {
    forall|i: int| 0 <= i < g.participants@.len() ==> #[trigger] closure_refund(g, i) <= u64::MAX
}

/// Record `participant`'s vote to terminate the group early. Returns whether
/// this vote reached a strict majority and closed the group; a vote short of
/// the majority is a valid steady state, not an error. On closure every
/// member's refund is set aside, the registry's active count drops if the
/// group had started (idempotently, tolerating a double closure race), and
/// no funds move — custody still accounts for every refund owed.
#[verifier::loop_isolation(false)]
pub fn close_ajo_group(group: &mut AjoGroup, global_state: &mut GlobalState, participant: Pubkey)
    -> (r: Result<bool, KooPaaError>)
    requires
        old(group).wf(),
        old(global_state).wf(),
        can_vote_close(*old(group), participant) && majority_after_vote(*old(group))
            ==> refunds_fit(*old(group)),
    ensures
        final(group).wf(),
        final(global_state).wf(),
        final(global_state).total_groups == old(global_state).total_groups,
        match r {
            Ok(closed_now) => {
                &&& can_vote_close(*old(group), participant)
                &&& closed_now == majority_after_vote(*old(group))
                &&& same_config(*old(group), *final(group))
                &&& final(group).close_votes@ == old(group).close_votes@.push(participant)
                &&& final(group).start_timestamp == old(group).start_timestamp
                &&& final(group).payout_round == old(group).payout_round
                &&& final(group).participants@.len() == old(group).participants@.len()
                &&& (forall|i: int|
                    0 <= i < old(group).participants@.len()
                        ==> #[trigger] final(group).participants@[i].pubkey == old(
                        group,
                    ).participants@[i].pubkey && final(group).participants@[i].contribution_round
                        == old(group).participants@[i].contribution_round)
                &&& (closed_now ==> final(group).is_closed && (forall|i: int|
                    0 <= i < old(group).participants@.len()
                        ==> #[trigger] final(group).participants@[i].refund_amount
                        == closure_refund(*old(group), i)) && final(global_state).active_groups
                    == (if old(group).started() && old(global_state).active_groups > 0 {
                    old(global_state).active_groups - 1
                } else {
                    old(global_state).active_groups as int
                }))
                &&& (!closed_now ==> !final(group).is_closed && final(group).participants@ == old(
                    group,
                ).participants@ && *final(global_state) == *old(global_state))
                &&& final(group).expected_vault() == old(group).expected_vault()
            },
            Err(e) => {
                &&& !can_vote_close(*old(group), participant)
                &&& e == vote_close_error(*old(group), participant)
                &&& *final(group) == *old(group)
                &&& *final(global_state) == *old(global_state)
            },
        },
{
    if group.is_closed {
        return Err(KooPaaError::GroupAlreadyClosed);
    }

    let mut idx: usize = 0;
    while idx < group.participants.len() && !(group.participants[idx].pubkey == participant)
        invariant
            idx <= group.participants@.len(),
            forall|k: int| 0 <= k < idx ==> group.participants@[k].pubkey != participant,
        decreases group.participants@.len() - idx,
    {
        idx = idx + 1;
    }
    if idx == group.participants.len() {
        return Err(KooPaaError::NotParticipant);
    }

    let mut v: usize = 0;
    while v < group.close_votes.len() && !(group.close_votes[v] == participant)
        invariant
            v <= group.close_votes@.len(),
            forall|k: int| 0 <= k < v ==> group.close_votes@[k] != participant,
        decreases group.close_votes@.len() - v,
    {
        v = v + 1;
    }
    if v < group.close_votes.len() {
        return Err(KooPaaError::AlreadyVotedToClose);
    }
    proof {
        assert(!old(group).close_votes@.contains(participant));
    }

    let ghost old_votes = group.close_votes@;
    let ghost members = group.participants@;
    group.close_votes.push(participant);

    proof {
        crate::math::lemma_votes_bound(old_votes, members);
        assert(crate::state::distinct_votes(group.close_votes@));
        assert forall|k: int| 0 <= k < group.close_votes@.len() implies has_participant(
            members,
            #[trigger] group.close_votes@[k],
        ) by {
            if k < old_votes.len() {
                assert(group.close_votes@[k] == old_votes[k]);
            } else {
                assert(group.close_votes@[k] == participant);
                assert(members[idx as int].pubkey == participant);
            }
        }
    }

    let total_participants = group.participants.len();
    let total_votes = group.close_votes.len();

    if total_votes * 2 > total_participants {
        proof {
            assert(old(group).participants@ == members);
            assert(members[idx as int].pubkey == participant);
            assert(has_participant(members, participant));
            assert(can_vote_close(*old(group), participant));
            assert(majority_after_vote(*old(group)));
            assert(refunds_fit(*old(group)));
        }
        let group_started = group.start_timestamp.is_some();
        let security_deposit = group.security_deposit;
        let contribution_amount = group.contribution_amount;

        let mut min_round: u16 = group.participants[0].contribution_round;
        proof {
            assert(members.subrange(0, 1)[0] == members[0]);
        }
        let mut i: usize = 1;
        while i < group.participants.len()
            invariant
                1 <= i <= members.len(),
                group.participants@ == members,
                min_round == crate::state::min_contribution_round(members.subrange(0, i as int)),
                same_config(*group, *old(group)),
                group.start_timestamp == old(group).start_timestamp,
                group.payout_round == old(group).payout_round,
                !group.is_closed,
                group.close_votes@ == old(group).close_votes@.push(participant),
            decreases members.len() - i,
        {
            proof {
                let sub = members.subrange(0, i + 1);
                assert(sub.drop_last() =~= members.subrange(0, i as int));
                assert(sub.last() == members[i as int]);
            }
            if group.participants[i].contribution_round < min_round {
                min_round = group.participants[i].contribution_round;
            }
            i = i + 1;
        }
        proof {
            assert(members.subrange(0, members.len() as int) =~= members);
        }

        let mut i: usize = 0;
        while i < group.participants.len()
            invariant
                i <= members.len(),
                group.participants@.len() == members.len(),
                min_round == crate::state::min_contribution_round(members),
                same_config(*group, *old(group)),
                group.start_timestamp == old(group).start_timestamp,
                group.payout_round == old(group).payout_round,
                !group.is_closed,
                group.close_votes@ == old(group).close_votes@.push(participant),
                forall|k: int| i <= k < members.len() ==> group.participants@[k] == members[k],
                forall|k: int|
                    0 <= k < i ==> (#[trigger] group.participants@[k]).pubkey
                        == members[k].pubkey,
                forall|k: int|
                    0 <= k < i ==> (#[trigger] group.participants@[k]).contribution_round
                        == members[k].contribution_round,
                forall|k: int|
                    0 <= k < i ==> (#[trigger] group.participants@[k]).refund_amount
                        == security_deposit + contribution_amount * (members[k].contribution_round
                        - crate::state::min_contribution_round(members)),
            decreases members.len() - i,
        {
            proof {
                crate::math::lemma_min_contribution_round_le(members, i as int);
                assert(closure_refund(*old(group), i as int) <= u64::MAX);
                assert(closure_refund(*old(group), i as int) == security_deposit
                    + contribution_amount * (members[i as int].contribution_round
                    - crate::state::min_contribution_round(members)));
            }
            let p = group.participants[i];
            proof {
                assert(p == members[i as int]);
            }
            let ghost m = crate::state::min_contribution_round(members);
            let mut contribution_refund: u64 = 0;
            if group_started {
                let refundable_rounds: u16 = p.contribution_round - min_round;
                contribution_refund = contribution_amount * (refundable_rounds as u64);
                proof {
                    assert(refundable_rounds == members[i as int].contribution_round - m);
                    assert(contribution_refund == contribution_amount * (
                    members[i as int].contribution_round - m));
                }
            }
            let refund_amount: u64 = security_deposit + contribution_refund;
            proof {
                if !group_started {
                    crate::math::lemma_min_contribution_round_witness(members);
                    let w = choose|j: int|
                        0 <= j < members.len() && crate::state::min_contribution_round(members)
                            == #[trigger] members[j].contribution_round;
                    assert(members[w].contribution_round == 0);
                    assert(members[i as int].contribution_round == 0);
                    assert(m == 0);
                    assert(contribution_amount * (members[i as int].contribution_round - m) == 0)
                        by (nonlinear_arith)
                        requires members[i as int].contribution_round == 0, m == 0;
                }
                assert(refund_amount == security_deposit + contribution_amount * (
                members[i as int].contribution_round - crate::state::min_contribution_round(
                    members,
                )));
            }
            let updated = AjoParticipant {
                pubkey: p.pubkey,
                contribution_round: p.contribution_round,
                refund_amount,
            };
            group.participants.set(i, updated);
            proof {
                assert(group.participants@[i as int] == updated);
                assert forall|k: int| 0 <= k < i + 1 implies (
                #[trigger] group.participants@[k]).refund_amount == security_deposit
                    + contribution_amount * (members[k].contribution_round
                    - crate::state::min_contribution_round(members)) by {
                    if k == i as int {
                        assert(group.participants@[k] == updated);
                    }
                }
            }
            i = i + 1;
        }

        if group_started {
            global_state.record_group_deactivated();
        }
        group.is_closed = true;

        proof {
            let s2 = group.participants@;
            let m = crate::state::min_contribution_round(members);
            let c = contribution_amount as int;
            let d = security_deposit as int;
            let len = members.len() as int;
            crate::math::lemma_rounds_pointwise(s2, members);
            let base = d - c * m;
            assert forall|k: int| 0 <= k < s2.len() implies #[trigger] s2[k].refund_amount == base
                + c * s2[k].contribution_round by {
                assert(c * (members[k].contribution_round - m) == c
                    * members[k].contribution_round - c * m) by (nonlinear_arith);
            }
            crate::math::lemma_sum_refunds_linear(s2, base, c);
            let scr = crate::state::sum_contribution_rounds(s2);
            assert(len * (d - c * m) + c * scr == len * d + c * (scr - len * m))
                by (nonlinear_arith);
            assert(group.total_refunds_claimed() == 0);
            assert(group.expected_vault() == old(group).expected_vault());

            assert forall|a: int, b: int| 0 <= a < b < s2.len() implies s2[a].pubkey
                != s2[b].pubkey by {
                assert(s2[a].pubkey == members[a].pubkey);
                assert(s2[b].pubkey == members[b].pubkey);
            }
            assert forall|k: int| 0 <= k < group.close_votes@.len() implies has_participant(
                s2,
                #[trigger] group.close_votes@[k],
            ) by {
                let vpk = group.close_votes@[k];
                assert(has_participant(members, vpk));
                let w = choose|j: int| 0 <= j < members.len() && members[j].pubkey == vpk;
                assert(s2[w].pubkey == vpk);
            }
            if !old(group).started() {
                assert forall|k: int| 0 <= k < s2.len() implies (
                #[trigger] s2[k]).contribution_round == 0 by {
                    assert(members[k].contribution_round == 0);
                }
            }
        }

        Ok(true)
    } else {
        Ok(false)
    }
}

/// Whether `id` can claim a refund from `g`: the group is closed, `id` is a
/// member, and their refund has not been claimed yet — a zero refund covers
/// both "never had one" and "already claimed", which makes the claim
/// one-shot.
pub open spec fn can_claim(g: AjoGroup, id: Pubkey) -> bool {
    &&& g.is_closed
    &&& has_participant(g.participants@, id)
    &&& g.participants@[index_of(g.participants@, id)].refund_amount > 0
}

/// The error a rejected claim reports, determined by the first failed
/// check.
pub open spec fn claim_error(g: AjoGroup, id: Pubkey) -> KooPaaError {
    if !g.is_closed {
        KooPaaError::GroupNotClosed
    } else if !has_participant(g.participants@, id) {
        KooPaaError::NotParticipant
    } else {
        KooPaaError::NoRefundToClaim
    }
}

/// How a successful claim by `id` rewrites `g1` into `g2`: only `id`'s
/// refund changes, and only to zero.
pub open spec fn claim_post(g1: AjoGroup, g2: AjoGroup, id: Pubkey) -> bool {
    let i = index_of(g1.participants@, id);
    &&& g2.participants@ == g1.participants@.update(
        i,
        (AjoParticipant {
            pubkey: g1.participants@[i].pubkey,
            contribution_round: g1.participants@[i].contribution_round,
            refund_amount: 0,
        }),
    )
    &&& same_config(g1, g2)
    &&& g2.start_timestamp == g1.start_timestamp
    &&& g2.payout_round == g1.payout_round
    &&& g2.close_votes@ == g1.close_votes@
    &&& g2.is_closed == g1.is_closed
}

/// Pay out the refund closure set aside for `participant`, once. On success
/// the host must move the returned amount out of custody to the
/// participant, authorized by the group's own custody authority; the zeroed
/// entry makes a second claim fail.
#[verifier::loop_isolation(false)]
pub fn claim_refund(group: &mut AjoGroup, participant: Pubkey) -> (r: Result<u64, KooPaaError>)
    requires
        old(group).wf(),
    ensures
        final(group).wf(),
        match r {
            Ok(amount) => {
                &&& can_claim(*old(group), participant)
                &&& claim_post(*old(group), *final(group), participant)
                &&& amount == old(group).participants@[index_of(
                    old(group).participants@,
                    participant,
                )].refund_amount
                &&& final(group).expected_vault() == old(group).expected_vault() - amount
            },
            Err(e) => {
                &&& !can_claim(*old(group), participant)
                &&& e == claim_error(*old(group), participant)
                &&& *final(group) == *old(group)
            },
        },
{
    if !group.is_closed {
        return Err(KooPaaError::GroupNotClosed);
    }

    let mut idx: usize = 0;
    while idx < group.participants.len() && !(group.participants[idx].pubkey == participant)
        invariant
            idx <= group.participants@.len(),
            forall|k: int| 0 <= k < idx ==> group.participants@[k].pubkey != participant,
        decreases group.participants@.len() - idx,
    {
        idx = idx + 1;
    }
    if idx == group.participants.len() {
        return Err(KooPaaError::NotParticipant);
    }
    proof {
        lemma_index_of_unique(group.participants@, participant, idx as int);
    }

    let refund_amount = group.participants[idx].refund_amount;
    if refund_amount == 0 {
        return Err(KooPaaError::NoRefundToClaim);
    }

    let ghost old_members = group.participants@;
    let p = group.participants[idx];
    let cleared = AjoParticipant {
        pubkey: p.pubkey,
        contribution_round: p.contribution_round,
        refund_amount: 0,
    };
    group.participants.set(idx, cleared);

    proof {
        let s2 = group.participants@;
        crate::math::lemma_sum_refunds_update(old_members, idx as int, cleared);
        crate::math::lemma_rounds_pointwise(s2, old_members);
        assert forall|v: Pubkey| has_participant(old_members, v) implies has_participant(
            s2,
            v,
        ) by {
            let k = choose|k: int| 0 <= k < old_members.len() && old_members[k].pubkey == v;
            assert(s2[k].pubkey == v);
        }
        assert(group.total_refunds_assigned() == old(group).total_refunds_assigned());
        assert(group.expected_vault() == old(group).expected_vault() - refund_amount);
    }

    Ok(refund_amount)
}

} // verus!
