//! What each operation works on: the records it reads and writes, the
//! address of the challenge, and the identity of the caller.
//!
//! The ledger has authenticated the caller and located the records before an
//! operation runs; the operation itself decides whether the caller may act.

use crate::state::{Challenge, Participant};
use anchor_lang::prelude::Pubkey;
use vstd::prelude::*;

verus! {

/// The accounts of [`initialize_challenge`](crate::instructions::initialize_challenge).
#[derive(Debug, Clone, PartialEq, Eq)]
pub struct InitializeChallenge {
    /// The record to fill, freshly allocated at `challenge_key`.
    pub challenge: Challenge,
    /// Address of the challenge record.
    pub challenge_key: Pubkey,
    /// Disambiguator found when `challenge_key` was derived.
    pub challenge_bump: u8,
    /// The caller, who becomes the creator.
    pub creator: Pubkey,
}

/// The accounts of [`join_challenge`](crate::instructions::join_challenge).
#[derive(Debug, Clone, PartialEq, Eq)]
pub struct JoinChallenge {
    /// The challenge to join.
    pub challenge: Challenge,
    /// Address of the challenge record, which also holds the pooled funds.
    pub challenge_key: Pubkey,
    /// The caller's membership in this challenge: blank before the first join.
    pub participant: Participant,
    /// Disambiguator found when the membership's address was derived.
    pub participant_bump: u8,
    /// The caller, who pays the entry fee.
    pub user: Pubkey,
}

/// The accounts of [`complete_challenge`](crate::instructions::complete_challenge).
#[derive(Debug, Clone, PartialEq, Eq)]
pub struct CompleteChallenge {
    /// The challenge to complete.
    pub challenge: Challenge,
    /// Address of the challenge record.
    pub challenge_key: Pubkey,
    /// The caller.
    pub creator: Pubkey,
}

/// The accounts of [`distribute_rewards`](crate::instructions::distribute_rewards).
#[derive(Debug, Clone, PartialEq, Eq)]
pub struct DistributeRewards {
    /// The challenge whose pool is distributed.
    pub challenge: Challenge,
    /// Address of the challenge record.
    pub challenge_key: Pubkey,
    /// The caller.
    pub creator: Pubkey,
}

/// The accounts of [`cancel_challenge`](crate::instructions::cancel_challenge).
#[derive(Debug, Clone, PartialEq, Eq)]
pub struct CancelChallenge {
    /// The challenge to cancel.
    pub challenge: Challenge,
    /// Address of the challenge record.
    pub challenge_key: Pubkey,
    /// The caller.
    pub creator: Pubkey,
}

/// The accounts of [`refund_participant`](crate::instructions::refund_participant).
#[derive(Debug, Clone, PartialEq, Eq)]
pub struct RefundParticipant {
    /// The cancelled challenge.
    pub challenge: Challenge,
    /// Address of the challenge record.
    pub challenge_key: Pubkey,
    /// The membership to refund.
    pub participant: Participant,
    /// The caller.
    pub user: Pubkey,
}

} // verus!
