//! The protocol's error taxonomy. Every precondition failure rejects the
//! whole operation with one of these kinds and no state change.

use vstd::prelude::*;

verus! {

/// Why an operation was rejected. All kinds are terminal for the same call
/// arguments: the caller must change real-world state (wait, fund an
/// account, let others contribute) before retrying.
#[derive(Clone, Copy, PartialEq, Eq, Structural, Debug)]
pub enum KooPaaError {
    /// The payout for this round was already claimed.
    AlreadyClaimed,
    /// Some participant is still in arrears for the covered span.
    NotAllContributed,
    /// The contribution amount must be greater than zero.
    InvalidContributionAmount,
    /// An interval lies outside its allowed range of days.
    InvalidInterval,
    /// The number of participants must be between 3 and 20.
    InvalidParticipantCount,
    /// The group name exceeds 50 characters.
    NameTooLong,
    /// The group has already started; membership is closed.
    GroupAlreadyStarted,
    /// The group has already been closed.
    GroupAlreadyClosed,
    /// The caller already joined this group.
    AlreadyJoined,
    /// The caller already requested to join this group.
    AlreadyRequested,
    /// The group has no admin.
    GroupHasNoAdmin,
    /// Only the admin can update this state.
    OnlyAdminCanUpdate,
    /// The caller already voted to close this group.
    AlreadyVotedToClose,
    /// The caller is not a participant of this group.
    NotParticipant,
    /// The group has not started yet.
    GroupNotStarted,
    /// The group has not been closed yet.
    GroupNotClosed,
    /// The group has completed all of its rounds.
    GroupCompleted,
    /// The caller is not a participant of this group.
    NotAParticipant,
    /// The caller cannot contribute to this round.
    CannotContributeToThisRound,
    /// The interval has not passed yet.
    IntervalNotPassed,
    /// The paying account lacks the funds for the transfer.
    InsufficientFunds,
    /// The fee percentage lies outside its allowed range.
    InvalidFeePercentage,
    /// The caller already covered the current contribution round.
    AlreadyContributed,
    /// The supplied recipient is not the one this round selects.
    NotCurrentRecipient,
    /// The payout interval has not elapsed yet.
    PayoutNotYetDue,
    /// The token account's mint does not match the group's.
    InvalidTokenAccountMint,
    /// The security deposit must be greater than zero.
    InvalidSecurityDeposit,
    /// No refund is available for the caller on this group.
    NoRefundToClaim,
}

} // verus!
