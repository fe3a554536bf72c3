//! Why an operation is refused.

use vstd::prelude::*;

verus! {

/// The reason an operation was refused.  A refused operation changes nothing.
#[derive(Debug, Clone, Copy, PartialEq, Eq, Structural)]
pub enum ErrorCode {
    /// The challenge is not active.
    ChallengeNotActive,
    /// The challenge has been cancelled.
    ChallengeCancelled,
    /// The challenge has no free place left.
    ChallengeFull,
    /// The deadline for joining has passed.
    DeadlinePassed,
    /// The user has already joined this challenge.
    AlreadyJoined,
    /// The caller is not allowed to perform this action.
    Unauthorized,
    /// The challenge is still active.
    ChallengeStillActive,
    /// The arguments do not fit together.
    InvalidInput,
    /// The prize pool does not cover the requested amounts.
    InsufficientFunds,
    /// The challenge has not been cancelled.
    ChallengeNotCancelled,
    /// The record is not that of a participant.
    NotParticipant,
    /// The entry fee has already been refunded.
    AlreadyRefunded,
}

} // verus!
