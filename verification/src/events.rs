//! The notifications that successful operations hand back, one kind per
//! transition.  Each names the challenge by its address and by its identifier.

use anchor_lang::prelude::Pubkey;
use vstd::prelude::*;

verus! {

/// A challenge has been created.
#[derive(Debug, Clone, PartialEq, Eq)]
pub struct ChallengeCreatedEvent {
    pub challenge_pubkey: Pubkey,
    pub challenge_id: String,
    pub creator: Pubkey,
    pub entry_fee: u64,
    pub prize_pool: u64,
    pub max_participants: u32,
    pub deadline_timestamp: i64,
    pub start_timestamp: i64,
}

/// A user has joined a challenge and paid the entry fee.
#[derive(Debug, Clone, PartialEq, Eq)]
pub struct ChallengeJoinedEvent {
    pub challenge_pubkey: Pubkey,
    pub challenge_id: String,
    pub user: Pubkey,
    pub firebase_uid: String,
    pub entry_fee: u64,
    pub joined_at: i64,
}

/// A challenge has been completed, with the winners in ranking order.
#[derive(Debug, Clone, PartialEq, Eq)]
pub struct ChallengeCompletedEvent {
    pub challenge_pubkey: Pubkey,
    pub challenge_id: String,
    pub winner_positions: Vec<Pubkey>,
}

/// A reward has been authorised for one winner.
#[derive(Debug, Clone, PartialEq, Eq)]
pub struct RewardDistributedEvent {
    pub challenge_pubkey: Pubkey,
    pub challenge_id: String,
    pub winner: Pubkey,
    pub amount: u64,
}

/// A challenge has been cancelled.
#[derive(Debug, Clone, PartialEq, Eq)]
pub struct ChallengeCancelledEvent {
    pub challenge_pubkey: Pubkey,
    pub challenge_id: String,
}

/// The refund of one participant's entry fee has been authorised.
#[derive(Debug, Clone, PartialEq, Eq)]
pub struct ParticipantRefundedEvent {
    pub challenge_pubkey: Pubkey,
    pub challenge_id: String,
    pub user: Pubkey,
    pub amount: u64,
}

} // verus!
