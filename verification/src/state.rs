//! Persistent state of the protocol: the per-group aggregate with its
//! participant ledger, and the process-wide registry counters.

use vstd::prelude::*;

verus! {

/// The address of an account on the hosting ledger, reduced to the one thing
/// the protocol logic reads of it: an identity that can be compared for
/// equality. The host maps its real account addresses onto these.
#[derive(Clone, Copy, PartialEq, Eq, Structural, Debug)]
pub struct Pubkey {
    pub id: u64,
}

/// One member of a group: their identity, the highest contribution round they
/// have fully paid, and the refund set aside for them at closure (zero until
/// the group closes, zeroed again once claimed).
#[derive(Clone, Copy, PartialEq, Eq, Structural, Debug)]
pub struct AjoParticipant {
    pub pubkey: Pubkey,
    pub contribution_round: u16,
    pub refund_amount: u64,
}

/// One rotating-savings circle. Created in the recruiting state, it starts
/// the instant the last seat fills and stays active until a majority votes to
/// close it; it is never deleted, so refunds remain claimable.
#[derive(Debug)]
pub struct AjoGroup {
    /// Unique lookup key, at most 50 characters.
    pub name: String,
    /// Deposit locked by every member on joining; always positive.
    pub security_deposit: u64,
    /// Amount owed per contribution round; always positive.
    pub contribution_amount: u64,
    /// Days between contribution rounds, in (0, 90].
    pub contribution_interval: u16,
    /// Days between payouts; a multiple of `contribution_interval`.
    pub payout_interval: u16,
    /// Seats in the group, fixed at creation; in [3, 20].
    pub num_participants: u8,
    /// Members in join order; join order is payout order.
    pub participants: Vec<AjoParticipant>,
    /// Set once, when membership fills.
    pub start_timestamp: Option<i64>,
    /// Payouts completed so far; also generates the round-robin index.
    pub payout_round: u16,
    /// Members who voted to terminate early, in voting order.
    pub close_votes: Vec<Pubkey>,
    /// Terminal flag: once set, only refund claims are accepted.
    pub is_closed: bool,
}

/// Process-wide registry counters, created once at protocol deployment.
#[derive(Clone, Copy, PartialEq, Eq, Structural, Debug)]
pub struct GlobalState {
    /// Groups ever created; never decremented.
    pub total_groups: u64,
    /// Groups that started and have not closed.
    pub active_groups: u64,
}

impl GlobalState {
    /// Registry invariant: a group activates only after being created.
    pub open spec fn wf(&self) -> bool {
        self.active_groups <= self.total_groups
    }

    /// Count one more group created.
    pub fn record_group_created(&mut self)
        requires
            old(self).wf(),
            old(self).total_groups < u64::MAX,
        ensures
            final(self).wf(),
            final(self).total_groups == old(self).total_groups + 1,
            final(self).active_groups == old(self).active_groups,
    {
        self.total_groups = self.total_groups + 1;
    }

    /// Count one more group active. A group activates only after being
    /// created and counted in `total_groups`, so the active count is
    /// strictly below the total before this call.
    pub fn record_group_activated(&mut self)
        requires
            old(self).wf(),
            old(self).active_groups < old(self).total_groups,
        ensures
            final(self).wf(),
            final(self).total_groups == old(self).total_groups,
            final(self).active_groups == old(self).active_groups + 1,
    {
        self.active_groups = self.active_groups + 1;
    }

    /// Count one started group closed. A no-op, not an error, when the
    /// active count is already zero, to tolerate double-closure races.
    pub fn record_group_deactivated(&mut self)
        requires
            old(self).wf(),
        ensures
            final(self).wf(),
            final(self).total_groups == old(self).total_groups,
            final(self).active_groups == if old(self).active_groups > 0 {
                old(self).active_groups - 1
            } else {
                0
            },
    {
        if self.active_groups > 0 {
            self.active_groups = self.active_groups - 1;
        }
    }
}

/// Whether `id` is a member in `s`.
pub open spec fn has_participant(s: Seq<AjoParticipant>, id: Pubkey) -> bool {
    exists|i: int| 0 <= i < s.len() && s[i].pubkey == id
}

/// The index of member `id` in `s`; meaningful only when `has_participant`
/// holds (and then unique, since members are distinct).
pub open spec fn index_of(s: Seq<AjoParticipant>, id: Pubkey) -> int {
    choose|i: int| 0 <= i < s.len() && s[i].pubkey == id
}

/// No two members share an identity.
pub open spec fn distinct_pubkeys(s: Seq<AjoParticipant>) -> bool {
    forall|i: int, j: int| 0 <= i < j < s.len() ==> s[i].pubkey != s[j].pubkey
}

/// No identity appears twice in a vote ledger.
pub open spec fn distinct_votes(s: Seq<Pubkey>) -> bool {
    forall|i: int, j: int| 0 <= i < j < s.len() ==> s[i] != s[j]
}

/// The creation-time configuration of `a` and `b` agrees: no operation after
/// creation ever changes these fields.
pub open spec fn same_config(a: AjoGroup, b: AjoGroup) -> bool {
    &&& a.name == b.name
    &&& a.security_deposit == b.security_deposit
    &&& a.contribution_amount == b.contribution_amount
    &&& a.contribution_interval == b.contribution_interval
    &&& a.payout_interval == b.payout_interval
    &&& a.num_participants == b.num_participants
}

/// Members are distinct, so an identity found at position `i` is exactly the
/// one `index_of` picks.
pub proof fn lemma_index_of_unique(s: Seq<AjoParticipant>, id: Pubkey, i: int)
    requires
        distinct_pubkeys(s),
        0 <= i < s.len(),
        s[i].pubkey == id,
    ensures
        has_participant(s, id),
        index_of(s, id) == i,
{
    assert(has_participant(s, id));
    let j = index_of(s, id);
    assert(0 <= j < s.len() && s[j].pubkey == id);
    if j < i {
        assert(s[j].pubkey != s[i].pubkey);
    } else if i < j {
        assert(s[i].pubkey != s[j].pubkey);
    }
}

/// Sum of the contribution rounds reached by the members of `s`.
pub open spec fn sum_contribution_rounds(s: Seq<AjoParticipant>) -> int
    decreases s.len(),
{
    if s.len() == 0 {
        0
    } else {
        sum_contribution_rounds(s.drop_last()) + s.last().contribution_round
    }
}

/// Sum of the refunds currently set aside for the members of `s`.
pub open spec fn sum_refunds(s: Seq<AjoParticipant>) -> int
    decreases s.len(),
{
    if s.len() == 0 {
        0
    } else {
        sum_refunds(s.drop_last()) + s.last().refund_amount
    }
}

/// The smallest contribution round reached by any member of `s` (0 for an
/// empty sequence).
pub open spec fn min_contribution_round(s: Seq<AjoParticipant>) -> int
    decreases s.len(),
{
    if s.len() <= 1 {
        if s.len() == 0 {
            0
        } else {
            s[0].contribution_round as int
        }
    } else if s.last().contribution_round < min_contribution_round(s.drop_last()) {
        s.last().contribution_round as int
    } else {
        min_contribution_round(s.drop_last())
    }
}

impl AjoGroup {
    /// Bytes the hosting ledger must allocate for a group account that can
    /// hold `num_participants` members: the serialized fixed fields, the
    /// name, the vote list at its maximum, and one entry per member.
    pub fn calculate_size(name: &str, num_participants: u8) -> (r: usize)
        requires
            name@.len() <= usize::MAX - 20000,
        ensures
            r == 53 + name@.len() + 74 * num_participants,
    {
        let fixed_size: usize = 8  // account discriminator
             + (4 + name.unicode_len())  // name (length-prefixed string)
             + 8  // security_deposit
             + 8  // contribution_amount
             + 1  // contribution_interval
             + 1  // payout_interval
             + 1  // num_participants
             + 4  // participants vector length
             + 9  // start_timestamp (optional i64)
             + 2  // payout_round
             + (4 + (num_participants as usize) * 32)  // close_votes vector
             + 1  // is_closed
             + 1  // vault bump seed
             + 1;  // account bump seed

        // Each member entry: identity (32) + contribution_round (2) + refund_amount (8).
        let participants_size: usize = (num_participants as usize) * 42;

        fixed_size + participants_size
    }

    /// The group has reached full membership and begun its rounds.
    pub open spec fn started(&self) -> bool {
        self.start_timestamp.is_some()
    }

    /// The instant the group started; meaningful only once `started`.
    pub open spec fn start_time(&self) -> int {
        self.start_timestamp.unwrap() as int
    }

    /// Contribution rounds that every member must cover per payout; an exact
    /// integer because `payout_interval` is a multiple of
    /// `contribution_interval`.
    pub open spec fn required_per_payout(&self) -> int {
        self.payout_interval as int / self.contribution_interval as int
    }

    /// Well-formedness of a group: the creation-time bounds, the link between
    /// membership and the start flag, distinctness of members and votes, and
    /// the facts that refunds exist only after closure and that rounds only
    /// advance once the group has started.
    pub open spec fn wf(&self) -> bool {
        &&& 3 <= self.num_participants <= 20
        &&& 1 <= self.contribution_interval <= 90
        &&& 7 <= self.payout_interval <= 180
        &&& self.contribution_interval <= self.payout_interval
        &&& self.payout_interval % self.contribution_interval == 0
        &&& self.contribution_amount > 0
        &&& self.security_deposit > 0
        &&& self.name@.len() <= 50
        &&& 1 <= self.participants@.len() <= self.num_participants
        &&& (self.started() <==> self.participants@.len() == self.num_participants)
        &&& (self.started() ==> self.start_timestamp.unwrap() >= 0)
        &&& distinct_pubkeys(self.participants@)
        &&& distinct_votes(self.close_votes@)
        &&& (forall|i: int|
            0 <= i < self.close_votes@.len() ==> has_participant(
                self.participants@,
                #[trigger] self.close_votes@[i],
            ))
        &&& (!self.is_closed ==> forall|i: int|
            0 <= i < self.participants@.len() ==> #[trigger] self.participants@[i].refund_amount
                == 0)
        &&& (!self.started() ==> self.payout_round == 0)
        &&& (!self.started() ==> forall|i: int|
            0 <= i < self.participants@.len()
                ==> #[trigger] self.participants@[i].contribution_round == 0)
    }

    /// Total security deposits ever moved into custody: every member paid one
    /// on joining.
    pub open spec fn total_deposits(&self) -> int {
        self.participants@.len() * self.security_deposit
    }

    /// Total contributions ever moved into custody: reaching round `r` costs
    /// exactly `r` times the contribution amount, however the catch-up
    /// payments were split.
    pub open spec fn total_contributions(&self) -> int {
        self.contribution_amount * sum_contribution_rounds(self.participants@)
    }

    /// Total paid out of custody: each completed payout moved the pooled
    /// amount for one payout span.
    pub open spec fn total_payouts(&self) -> int {
        self.contribution_amount * self.num_participants * self.required_per_payout()
            * self.payout_round
    }

    /// The refunds closure sets aside: each member gets their deposit back
    /// plus the contributions they paid beyond the round every member jointly
    /// reached.
    pub open spec fn total_refunds_assigned(&self) -> int {
        self.participants@.len() * self.security_deposit + self.contribution_amount * (
        sum_contribution_rounds(self.participants@) - self.participants@.len()
            * min_contribution_round(self.participants@))
    }

    /// Refunds already claimed and moved out of custody: what closure set
    /// aside, minus what is still outstanding.
    pub open spec fn total_refunds_claimed(&self) -> int {
        if self.is_closed {
            self.total_refunds_assigned() - sum_refunds(self.participants@)
        } else {
            0
        }
    }

    /// The custody balance this group's history accounts for: deposits plus
    /// contributions in, payouts plus claimed refunds out. Every operation
    /// states how it moves this quantity, so a host that performs exactly the
    /// transfers the library asks for keeps the real vault equal to it.
    pub open spec fn expected_vault(&self) -> int {
        self.total_deposits() + self.total_contributions() - self.total_payouts()
            - self.total_refunds_claimed()
    }
}

} // verus!
