//! Protocol-wide laws, stated and proved over the same spec functions the
//! operations' contracts use.

use vstd::prelude::*;

use crate::errors::KooPaaError;
use crate::state::{index_of, lemma_index_of_unique, AjoGroup, Pubkey};
use crate::utils::spec_elapsed_rounds;
use crate::{
    can_claim, can_contribute, claim_error, claim_post, contribute_error, contribute_post,
    contribution_round_at,
};

verus! {

/// Rounds are monotonic: both the contribution round and the payout round
/// derived from a later clock reading are at least those derived from an
/// earlier one, whatever the interval.
pub proof fn lemma_rounds_monotonic(now1: i64, now2: i64, start: i64, interval_days: u16)
    requires
        now1 <= now2,
        1 <= interval_days,
    ensures
        spec_elapsed_rounds(now1, start, interval_days) <= spec_elapsed_rounds(
            now2,
            start,
            interval_days,
        ),
{
    vstd::arithmetic::div_mod::lemma_div_is_ordered(
        now1 - start,
        now2 - start,
        interval_days * 86400,
    );
}

/// No double payment: after a successful contribution at `now`, a second
/// contribution by the same member with the same `now` — and hence the same
/// derived round — is rejected as already contributed.
pub proof fn lemma_no_double_contribution(g1: AjoGroup, g2: AjoGroup, id: Pubkey, now: i64)
    requires
        g1.wf(),
        contribution_round_at(g1, now) <= u16::MAX,
        can_contribute(g1, id, now),
        contribute_post(g1, g2, id, now),
    ensures
        !can_contribute(g2, id, now),
        contribute_error(g2, id, now) == KooPaaError::AlreadyContributed,
{
    let s1 = g1.participants@;
    let s2 = g2.participants@;
    let i = index_of(s1, id);
    assert(0 <= i < s1.len() && s1[i].pubkey == id);
    assert(s2[i].pubkey == id);
    lemma_index_of_unique(s2, id, i);
    assert(s2[i].contribution_round == contribution_round_at(g1, now));
    assert(contribution_round_at(g2, now) == contribution_round_at(g1, now));
}

/// No double claim: after a successful refund claim, a second claim by the
/// same member is rejected as having nothing to claim.
pub proof fn lemma_no_double_claim(g1: AjoGroup, g2: AjoGroup, id: Pubkey)
    requires
        g1.wf(),
        can_claim(g1, id),
        claim_post(g1, g2, id),
    ensures
        !can_claim(g2, id),
        claim_error(g2, id) == KooPaaError::NoRefundToClaim,
{
    let s1 = g1.participants@;
    let s2 = g2.participants@;
    let i = index_of(s1, id);
    assert(0 <= i < s1.len() && s1[i].pubkey == id);
    assert(s2[i].pubkey == id);
    lemma_index_of_unique(s2, id, i);
    assert(s2[i].refund_amount == 0);
}

/// Round-robin fairness, first half: within one full cycle of
/// `num_participants` consecutive payouts starting at payout round `r`, two
/// different payouts never select the same member index.
pub proof fn lemma_round_robin_distinct(r: int, n: int, i: int, j: int)
    requires
        0 < n,
        0 <= i < j < n,
    ensures
        (r + i) % n != (r + j) % n,
{
    if (r + i) % n == (r + j) % n {
        vstd::arithmetic::div_mod::lemma_fundamental_div_mod(r + i, n);
        vstd::arithmetic::div_mod::lemma_fundamental_div_mod(r + j, n);
        let d = (r + j) / n - (r + i) / n;
        assert(j - i == n * d) by (nonlinear_arith)
            requires
                r + i == n * ((r + i) / n) + (r + i) % n,
                r + j == n * ((r + j) / n) + (r + j) % n,
                (r + i) % n == (r + j) % n,
                d == (r + j) / n - (r + i) / n,
        ;
        assert(false) by (nonlinear_arith)
            requires 0 < j - i < n, j - i == n * d;
    }
}

/// Round-robin fairness, second half: within one full cycle of
/// `num_participants` consecutive payouts starting at payout round `r`,
/// every member index `t` is selected by some payout. Together with
/// `lemma_round_robin_distinct` and payout's contract — each successful
/// payout pays `participants[payout_round % n]` and advances `payout_round`
/// by one — each member is selected exactly once per cycle, in join order.
pub proof fn lemma_round_robin_coverage(r: int, n: int, t: int)
    requires
        0 < n,
        0 <= t < n,
    ensures
        exists|k: int| 0 <= k < n && #[trigger] ((r + k) % n) == t,
{
    let k = (t - r) % n;
    vstd::arithmetic::div_mod::lemma_mod_bound(t - r, n);
    vstd::arithmetic::div_mod::lemma_add_mod_noop(r, t - r, n);
    vstd::arithmetic::div_mod::lemma_add_mod_noop(r, k, n);
    vstd::arithmetic::div_mod::lemma_small_mod(k as nat, n as nat);
    vstd::arithmetic::div_mod::lemma_small_mod(t as nat, n as nat);
    assert((r + k) % n == t);
}

} // verus!
