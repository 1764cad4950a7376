//! Lemmas about the sums and minimum used by the settlement arithmetic.

use vstd::prelude::*;

use crate::state::{
    distinct_votes, has_participant, min_contribution_round, sum_contribution_rounds, sum_refunds,
    AjoParticipant, Pubkey,
};

verus! {

/// Appending a member adds their contribution round to the sum.
pub proof fn lemma_sum_contribution_rounds_push(s: Seq<AjoParticipant>, p: AjoParticipant)
    ensures
        sum_contribution_rounds(s.push(p)) == sum_contribution_rounds(s) + p.contribution_round,
{
    assert(s.push(p).drop_last() =~= s);
}

/// Replacing one member changes the contribution-round sum by the difference
/// at that position.
pub proof fn lemma_sum_contribution_rounds_update(
    s: Seq<AjoParticipant>,
    i: int,
    p: AjoParticipant,
)
    requires
        0 <= i < s.len(),
    ensures
        sum_contribution_rounds(s.update(i, p)) == sum_contribution_rounds(s)
            - s[i].contribution_round + p.contribution_round,
    decreases s.len(),
{
    let t = s.update(i, p);
    if i == s.len() - 1 {
        assert(t.drop_last() =~= s.drop_last());
    } else {
        lemma_sum_contribution_rounds_update(s.drop_last(), i, p);
        assert(t.drop_last() =~= s.drop_last().update(i, p));
    }
}

/// Replacing one member changes the refund sum by the difference at that
/// position.
pub proof fn lemma_sum_refunds_update(s: Seq<AjoParticipant>, i: int, p: AjoParticipant)
    requires
        0 <= i < s.len(),
    ensures
        sum_refunds(s.update(i, p)) == sum_refunds(s) - s[i].refund_amount + p.refund_amount,
    decreases s.len(),
{
    let t = s.update(i, p);
    if i == s.len() - 1 {
        assert(t.drop_last() =~= s.drop_last());
    } else {
        lemma_sum_refunds_update(s.drop_last(), i, p);
        assert(t.drop_last() =~= s.drop_last().update(i, p));
    }
}

/// The minimum is a lower bound on every member's contribution round.
pub proof fn lemma_min_contribution_round_le(s: Seq<AjoParticipant>, i: int)
    requires
        0 <= i < s.len(),
    ensures
        min_contribution_round(s) <= s[i].contribution_round,
    decreases s.len(),
{
    if s.len() > 1 && i < s.len() - 1 {
        lemma_min_contribution_round_le(s.drop_last(), i);
    }
}

/// The minimum is attained by some member.
pub proof fn lemma_min_contribution_round_witness(s: Seq<AjoParticipant>)
    requires
        s.len() > 0,
    ensures
        exists|i: int|
            0 <= i < s.len() && min_contribution_round(s) == #[trigger] s[i].contribution_round,
    decreases s.len(),
{
    if s.len() == 1 {
        assert(min_contribution_round(s) == s[0].contribution_round);
    } else if s.last().contribution_round < min_contribution_round(s.drop_last()) {
        assert(min_contribution_round(s) == s[s.len() - 1].contribution_round);
    } else {
        lemma_min_contribution_round_witness(s.drop_last());
        let j = choose|i: int|
            0 <= i < s.drop_last().len() && min_contribution_round(s.drop_last())
                == #[trigger] s.drop_last()[i].contribution_round;
        assert(s[j] == s.drop_last()[j]);
    }
}

/// Two member sequences with the same contribution rounds have the same
/// round sum and the same minimum.
pub proof fn lemma_rounds_pointwise(s1: Seq<AjoParticipant>, s2: Seq<AjoParticipant>)
    requires
        s1.len() == s2.len(),
        forall|i: int|
            0 <= i < s1.len() ==> #[trigger] s1[i].contribution_round
                == s2[i].contribution_round,
    ensures
        sum_contribution_rounds(s1) == sum_contribution_rounds(s2),
        min_contribution_round(s1) == min_contribution_round(s2),
    decreases s1.len(),
{
    if s1.len() > 0 {
        lemma_rounds_pointwise(s1.drop_last(), s2.drop_last());
    }
}

/// Dividing `x` by a divisor between 1 and `x` yields a quotient in the same
/// range.
pub proof fn lemma_div_bounds(x: int, d: int)
    requires
        1 <= d <= x,
    ensures
        1 <= x / d <= x,
{
    vstd::arithmetic::div_mod::lemma_div_is_ordered(d, x, d);
    vstd::arithmetic::div_mod::lemma_div_by_self(d);
    vstd::arithmetic::div_mod::lemma_fundamental_div_mod(x, d);
    vstd::arithmetic::div_mod::lemma_mod_bound(x, d);
    assert(x / d <= d * (x / d)) by (nonlinear_arith)
        requires d >= 1, x / d >= 1;
}

/// A vote ledger without duplicates, every entry a member, can hold no more
/// votes than the group has members.
pub proof fn lemma_votes_bound(votes: Seq<Pubkey>, members: Seq<AjoParticipant>)
    requires
        distinct_votes(votes),
        forall|i: int| 0 <= i < votes.len() ==> has_participant(members, #[trigger] votes[i]),
    ensures
        votes.len() <= members.len(),
{
    broadcast use vstd::set::group_set_axioms;
    broadcast use vstd::seq_lib::seq_to_set_is_finite;

    let pks = members.map_values(|p: AjoParticipant| p.pubkey);
    assert(votes.no_duplicates());
    votes.unique_seq_to_set();
    assert forall|v: Pubkey| votes.to_set().contains(v) implies pks.to_set().contains(v) by {
        let i = choose|i: int| 0 <= i < votes.len() && votes[i] == v;
        let j = choose|j: int| 0 <= j < members.len() && members[j].pubkey == v;
        assert(pks[j] == v);
        assert(pks.contains(v));
    }
    assert(votes.to_set().subset_of(pks.to_set()));
    pks.lemma_cardinality_of_set();
    vstd::set_lib::lemma_len_subset(votes.to_set(), pks.to_set());
}

/// When every member's refund follows the closure formula
/// `base + rate * contribution_round`, the refund sum is determined by the
/// round sum.
pub proof fn lemma_sum_refunds_linear(s: Seq<AjoParticipant>, base: int, rate: int)
    requires
        forall|i: int|
            0 <= i < s.len() ==> #[trigger] s[i].refund_amount == base + rate
                * s[i].contribution_round,
    ensures
        sum_refunds(s) == s.len() * base + rate * sum_contribution_rounds(s),
    decreases s.len(),
{
    if s.len() == 0 {
    } else {
        let dl = s.drop_last();
        lemma_sum_refunds_linear(dl, base, rate);
        assert(s.len() * base == dl.len() * base + base) by (nonlinear_arith)
            requires s.len() == dl.len() + 1;
        assert(rate * sum_contribution_rounds(s) == rate * sum_contribution_rounds(dl) + rate
            * s.last().contribution_round) by (nonlinear_arith)
            requires sum_contribution_rounds(s) == sum_contribution_rounds(dl)
                + s.last().contribution_round;
    }
}

} // verus!
