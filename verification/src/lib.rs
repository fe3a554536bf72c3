//! Escrow and membership rules for fee-funded, time-boxed fitness challenges.
//!
//! A challenge is created by its creator, collects one entry fee per
//! participant into a prize pool while it is open, and ends either by being
//! completed (rewards are then authorised) or by being cancelled (entry fees
//! are then refunded).  Every operation here works on plain records and hands
//! back what the ledger has to do: the transfer to perform and the
//! notifications to emit.

pub mod accounts;
pub mod errors;
pub mod events;
pub mod instructions;
pub mod keys;
pub mod laws;
pub mod state;

pub use accounts::{
    CancelChallenge, CompleteChallenge, DistributeRewards, InitializeChallenge, JoinChallenge,
    RefundParticipant,
};
pub use errors::ErrorCode;
pub use events::{
    ChallengeCancelledEvent, ChallengeCompletedEvent, ChallengeCreatedEvent, ChallengeJoinedEvent,
    ParticipantRefundedEvent, RewardDistributedEvent,
};
pub use instructions::{
    cancel_challenge, complete_challenge, distribute_rewards, initialize_challenge,
    join_challenge, refund_participant, EntryFeeTransfer,
};
pub use state::{Challenge, ChallengeView, Participant, ParticipantView};
