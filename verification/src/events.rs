//! Notification records, one per successful state-changing operation. The
//! host publishes them for observability; the protocol itself never reads
//! them back.

use vstd::prelude::*;

use crate::state::Pubkey;

verus! {

/// A group was created and is recruiting.
#[derive(Debug)]
pub struct AjoGroupCreatedEvent {
    pub group_name: String,
    pub security_deposit: u64,
    pub contribution_amount: u64,
    pub num_participants: u8,
    pub contribution_interval: u16,
    pub payout_interval: u16,
}

/// A participant joined a group.
#[derive(Debug)]
pub struct ParticipantJoinedEvent {
    pub group_name: String,
    pub participant: Pubkey,
    pub join_timestamp: i64,
    pub admin_invited: bool,
}

/// A join request was rejected.
#[derive(Debug)]
pub struct JoinRequestRejectedEvent {
    pub group_name: String,
    pub participant: Pubkey,
}

/// A participant was placed in the waiting room.
#[derive(Debug)]
pub struct ParticipantInWaitingRoomEvent {
    pub group_name: String,
    pub participant: Pubkey,
}

/// The last seat filled and the group's rounds began.
#[derive(Debug)]
pub struct AjoGroupStartedEvent {
    pub group_name: String,
    pub start_timestamp: i64,
}

/// A participant paid their contribution (possibly catching up on several
/// missed rounds at once).
#[derive(Debug)]
pub struct ContributionMadeEvent {
    pub group_name: String,
    pub contributor: Pubkey,
    pub contribution_amount: u64,
    pub current_round: u16,
}

/// The pooled amount for one payout span was paid to this round's recipient.
#[derive(Debug)]
pub struct PayoutMadeEvent {
    pub group_name: String,
    pub recipient: Pubkey,
    pub payout_amount: u64,
    pub payout_round: u16,
}

/// A majority voted to terminate the group early.
#[derive(Debug)]
pub struct AjoGroupClosedEvent {
    pub group_name: String,
    pub total_votes: u8,
    pub group_size: u8,
}

/// A participant claimed the refund set aside for them at closure.
#[derive(Debug)]
pub struct RefundClaimedEvent {
    pub group_name: String,
    pub participant: Pubkey,
    pub amount: u64,
}

} // verus!
