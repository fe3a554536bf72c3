//! The six operations of a challenge's life.
//!
//! Each operation first decides whether it is refused, by the checks of its
//! `refusal` function in the order written there; `check` makes that decision
//! alone, and changes nothing.  A refused operation returns the reason and
//! leaves every record as it was.  An accepted one updates the records and
//! returns the notification to emit.
//!
//! Nothing here moves funds.  [`join_challenge`] returns the transfer of the
//! entry fee that the caller must have the ledger perform in the same atomic
//! step: if that transfer fails, the updated records must be discarded.
//! [`distribute_rewards`] and [`refund_participant`] authorise payments out of
//! the pool; the notifications they return are the record of that
//! authorisation, and settling them is left to the caller.

use crate::accounts::{
    CancelChallenge, CompleteChallenge, DistributeRewards, InitializeChallenge, JoinChallenge,
    RefundParticipant,
};
use crate::errors::ErrorCode;
use crate::events::{
    ChallengeCancelledEvent, ChallengeCompletedEvent, ChallengeCreatedEvent, ChallengeJoinedEvent,
    ParticipantRefundedEvent, RewardDistributedEvent,
};
use crate::state::{ChallengeView, ParticipantView};
use anchor_lang::prelude::Pubkey;
use vstd::prelude::*;

verus! {

/// The payment of one entry fee into the pool of a challenge.
#[derive(Debug, Clone, PartialEq, Eq)]
pub struct EntryFeeTransfer {
    /// The account that pays: the joining user.
    pub from: Pubkey,
    /// The account that receives: the challenge.
    pub to: Pubkey,
    /// The amount, in lamports.
    pub lamports: u64,
}

impl JoinChallenge {
    /// Why joining at time `now` is refused, if it is.
    pub open spec fn refusal(&self, now: i64) -> Option<ErrorCode> {
        if !self.challenge.is_active {
            Some(ErrorCode::ChallengeNotActive)
        } else if self.challenge.is_cancelled {
            Some(ErrorCode::ChallengeCancelled)
        } else if self.challenge.current_participants >= self.challenge.max_participants {
            Some(ErrorCode::ChallengeFull)
        } else if now > self.challenge.deadline_timestamp {
            Some(ErrorCode::DeadlinePassed)
        } else if self.participant.has_joined {
            Some(ErrorCode::AlreadyJoined)
        } else {
            None
        }
    }

    /// Decides whether joining at time `now` is refused, and why.
    pub fn check(&self, now: i64) -> (r: Result<(), ErrorCode>)
        ensures
            match r {
                Ok(_) => self.refusal(now) is None,
                Err(e) => self.refusal(now) == Some(e),
            },
    {
        if !self.challenge.is_active {
            Err(ErrorCode::ChallengeNotActive)
        } else if self.challenge.is_cancelled {
            Err(ErrorCode::ChallengeCancelled)
        } else if self.challenge.current_participants >= self.challenge.max_participants {
            Err(ErrorCode::ChallengeFull)
        } else if now > self.challenge.deadline_timestamp {
            Err(ErrorCode::DeadlinePassed)
        } else if self.participant.has_joined {
            Err(ErrorCode::AlreadyJoined)
        } else {
            Ok(())
        }
    }

    /// The entry fee that a successful join has the user pay into the pool.
    pub open spec fn entry_fee_transfer(&self) -> EntryFeeTransfer {
        EntryFeeTransfer {
            from: self.user,
            to: self.challenge_key,
            lamports: self.challenge.entry_fee,
        }
    }

    /// The notification of a successful join at time `now`.
    pub open spec fn joined_event(&self, user_firebase_uid: String, now: i64) -> ChallengeJoinedEvent {
        ChallengeJoinedEvent {
            challenge_pubkey: self.challenge_key,
            challenge_id: self.challenge.challenge_id,
            user: self.user,
            firebase_uid: user_firebase_uid,
            entry_fee: self.challenge.entry_fee,
            joined_at: now,
        }
    }
}

/// Lets `ctx.user` join the challenge at time `now`.
///
/// Joining is refused, in this order, when the challenge is not active, when
/// it is cancelled, when it is full, when `now` is after the deadline, and
/// when the user has joined before.  Otherwise the challenge counts one more
/// participant and one more entry fee, the membership is written, and the
/// result is the transfer of the entry fee to perform together with the
/// notification.
///
/// The pool must be able to hold one more entry fee.
pub fn join_challenge(ctx: &mut JoinChallenge, user_firebase_uid: String, now: i64) -> (r: Result<
    (EntryFeeTransfer, ChallengeJoinedEvent),
    ErrorCode,
>)
    requires
        old(ctx).refusal(now) is None ==> old(ctx).challenge.prize_pool + old(ctx).challenge.entry_fee
            <= u64::MAX,
    ensures
        match r {
            Ok((transfer, event)) => {
                &&& old(ctx).refusal(now) is None
                &&& final(ctx).challenge@ == old(ctx).challenge@.joined()
                &&& final(ctx).participant@ == ParticipantView::enrolled(
                    old(ctx).challenge_key,
                    old(ctx).user,
                    now as int,
                    user_firebase_uid@,
                    old(ctx).participant_bump as nat,
                )
                &&& final(ctx).challenge_key == old(ctx).challenge_key
                &&& final(ctx).participant_bump == old(ctx).participant_bump
                &&& final(ctx).user == old(ctx).user
                &&& transfer == old(ctx).entry_fee_transfer()
                &&& event == old(ctx).joined_event(user_firebase_uid, now)
            },
            Err(e) => old(ctx).refusal(now) == Some(e) && *final(ctx) == *old(ctx),
        },
        old(ctx).challenge.well_formed() ==> final(ctx).challenge.well_formed(),
        old(ctx).challenge@.may_become(final(ctx).challenge@),
        old(ctx).participant@.may_become(final(ctx).participant@),
{
    match ctx.check(now) {
        Err(e) => {
            return Err(e);
        },
        Ok(_) => {},
    }
    let transfer = EntryFeeTransfer {
        from: ctx.user,
        to: ctx.challenge_key,
        lamports: ctx.challenge.entry_fee,
    };

    ctx.participant.challenge = ctx.challenge_key;
    ctx.participant.user = ctx.user;
    ctx.participant.joined_at = now;
    ctx.participant.has_joined = true;
    ctx.participant.has_completed = false;
    ctx.participant.firebase_uid = user_firebase_uid;
    ctx.participant.bump = ctx.participant_bump;

    proof {
        let fee = old(ctx).challenge.entry_fee as int;
        let count = old(ctx).challenge.current_participants as int;
        assert(fee * (count + 1) == fee * count + fee) by (nonlinear_arith);
    }
    ctx.challenge.current_participants = ctx.challenge.current_participants + 1;
    ctx.challenge.prize_pool = ctx.challenge.prize_pool + ctx.challenge.entry_fee;

    let event = ChallengeJoinedEvent {
        challenge_pubkey: ctx.challenge_key,
        challenge_id: ctx.challenge.challenge_id.clone(),
        user: ctx.user,
        firebase_uid: ctx.participant.firebase_uid.clone(),
        entry_fee: ctx.challenge.entry_fee,
        joined_at: ctx.participant.joined_at,
    };
    Ok((transfer, event))
}

impl InitializeChallenge {
    /// The notification of the creation of the challenge.
    pub open spec fn created_event(
        &self,
        challenge_id: String,
        entry_fee: u64,
        prize_pool: u64,
        max_participants: u32,
        deadline_timestamp: i64,
        start_timestamp: i64,
    ) -> ChallengeCreatedEvent {
        ChallengeCreatedEvent {
            challenge_pubkey: self.challenge_key,
            challenge_id,
            creator: self.creator,
            entry_fee,
            prize_pool,
            max_participants,
            deadline_timestamp,
            start_timestamp,
        }
    }
}

/// Creates the challenge `challenge_id` for `ctx.creator`.
///
/// The record is filled from the arguments: nobody has joined yet, the pool
/// holds the creator's seed `prize_pool`, and the challenge is open.  Creation
/// is never refused here; that an identifier is used only once is the ledger's
/// concern.
pub fn initialize_challenge(
    ctx: &mut InitializeChallenge,
    challenge_id: String,
    title: String,
    entry_fee: u64,
    prize_pool: u64,
    max_participants: u32,
    deadline_timestamp: i64,
    start_timestamp: i64,
) -> (event: ChallengeCreatedEvent)
    ensures
        final(ctx).challenge@ == ChallengeView::created(
            old(ctx).creator,
            challenge_id@,
            title@,
            entry_fee as nat,
            prize_pool as nat,
            max_participants as nat,
            deadline_timestamp as int,
            start_timestamp as int,
            old(ctx).challenge_bump as nat,
        ),
        final(ctx).challenge.well_formed(),
        final(ctx).challenge_key == old(ctx).challenge_key,
        final(ctx).challenge_bump == old(ctx).challenge_bump,
        final(ctx).creator == old(ctx).creator,
        event == old(ctx).created_event(
            challenge_id,
            entry_fee,
            prize_pool,
            max_participants,
            deadline_timestamp,
            start_timestamp,
        ),
{
    ctx.challenge.creator = ctx.creator;
    ctx.challenge.challenge_id = challenge_id;
    ctx.challenge.title = title;
    ctx.challenge.entry_fee = entry_fee;
    ctx.challenge.prize_pool = prize_pool;
    ctx.challenge.max_participants = max_participants;
    ctx.challenge.current_participants = 0;
    ctx.challenge.deadline_timestamp = deadline_timestamp;
    ctx.challenge.start_timestamp = start_timestamp;
    ctx.challenge.is_active = true;
    ctx.challenge.is_cancelled = false;
    ctx.challenge.bump = ctx.challenge_bump;

    ChallengeCreatedEvent {
        challenge_pubkey: ctx.challenge_key,
        challenge_id: ctx.challenge.challenge_id.clone(),
        creator: ctx.creator,
        entry_fee,
        prize_pool,
        max_participants,
        deadline_timestamp,
        start_timestamp,
    }
}

impl CompleteChallenge {
    /// Why completing the challenge is refused, if it is.
    pub open spec fn refusal(&self) -> Option<ErrorCode> {
        if self.creator != self.challenge.creator {
            Some(ErrorCode::Unauthorized)
        } else if !self.challenge.is_active {
            Some(ErrorCode::ChallengeNotActive)
        } else if self.challenge.is_cancelled {
            Some(ErrorCode::ChallengeCancelled)
        } else {
            None
        }
    }

    /// Decides whether completing the challenge is refused, and why.
    pub fn check(&self) -> (r: Result<(), ErrorCode>)
        ensures
            match r {
                Ok(_) => self.refusal() is None,
                Err(e) => self.refusal() == Some(e),
            },
    {
        if !self.challenge.is_creator(&self.creator) {
            Err(ErrorCode::Unauthorized)
        } else if !self.challenge.is_active {
            Err(ErrorCode::ChallengeNotActive)
        } else if self.challenge.is_cancelled {
            Err(ErrorCode::ChallengeCancelled)
        } else {
            Ok(())
        }
    }

    /// The notification of the completion, with the winners as given.
    pub open spec fn completed_event(&self, winner_positions: Vec<Pubkey>) -> ChallengeCompletedEvent {
        ChallengeCompletedEvent {
            challenge_pubkey: self.challenge_key,
            challenge_id: self.challenge.challenge_id,
            winner_positions,
        }
    }
}

/// Completes the challenge and records the ranking `winner_positions`.
///
/// Completing is refused, in this order, when the caller is not the creator,
/// when the challenge is not active, and when it is cancelled.  Otherwise the
/// challenge stops being active, for good.  The ranking is handed on as given:
/// who has won is the caller's assertion.
pub fn complete_challenge(ctx: &mut CompleteChallenge, winner_positions: Vec<Pubkey>) -> (r: Result<
    ChallengeCompletedEvent,
    ErrorCode,
>)
    ensures
        match r {
            Ok(event) => {
                &&& old(ctx).refusal() is None
                &&& final(ctx).challenge@ == old(ctx).challenge@.completed()
                &&& final(ctx).challenge_key == old(ctx).challenge_key
                &&& final(ctx).creator == old(ctx).creator
                &&& event == old(ctx).completed_event(winner_positions)
            },
            Err(e) => old(ctx).refusal() == Some(e) && *final(ctx) == *old(ctx),
        },
        old(ctx).challenge.well_formed() ==> final(ctx).challenge.well_formed(),
        old(ctx).challenge@.may_become(final(ctx).challenge@),
{
    match ctx.check() {
        Err(e) => {
            return Err(e);
        },
        Ok(_) => {},
    }
    ctx.challenge.is_active = false;

    Ok(
        ChallengeCompletedEvent {
            challenge_pubkey: ctx.challenge_key,
            challenge_id: ctx.challenge.challenge_id.clone(),
            winner_positions,
        },
    )
}

/// The sum of `amounts`, as a number without bound.
pub open spec fn total_rewards(amounts: Seq<u64>) -> int
    decreases amounts.len(),
{
    if amounts.len() == 0 {
        0
    } else {
        total_rewards(amounts.drop_last()) + amounts.last()
    }
}

/// The sum of a prefix of `amounts` is at most the sum of all of them.
pub proof fn lemma_total_rewards_grows(amounts: Seq<u64>, n: int)
    requires
        0 <= n <= amounts.len(),
    ensures
        0 <= total_rewards(amounts.take(n)) <= total_rewards(amounts),
    decreases amounts.len(),
{
    if amounts.len() == 0 {
        assert(amounts.take(n) =~= amounts);
    } else if n == amounts.len() {
        assert(amounts.take(n) =~= amounts);
        lemma_total_rewards_grows(amounts.drop_last(), n - 1);
    } else {
        assert(amounts.drop_last().take(n) =~= amounts.take(n));
        lemma_total_rewards_grows(amounts.drop_last(), n);
    }
}

impl DistributeRewards {
    /// Why distributing `amounts` among `winners` is refused, if it is.
    pub open spec fn refusal(&self, winners: Seq<Pubkey>, amounts: Seq<u64>) -> Option<ErrorCode> {
        if self.creator != self.challenge.creator {
            Some(ErrorCode::Unauthorized)
        } else if self.challenge.is_active {
            Some(ErrorCode::ChallengeStillActive)
        } else if winners.len() != amounts.len() {
            Some(ErrorCode::InvalidInput)
        } else if total_rewards(amounts) > self.challenge.prize_pool {
            Some(ErrorCode::InsufficientFunds)
        } else {
            None
        }
    }

    /// Decides whether distributing `amounts` among `winners` is refused, and
    /// why.  The amounts are added up with checked arithmetic, so a sum that
    /// does not fit in a `u64` is refused like any other that exceeds the pool.
    pub fn check(&self, winners: &Vec<Pubkey>, amounts: &Vec<u64>) -> (r: Result<(), ErrorCode>)
        ensures
            match r {
                Ok(_) => self.refusal(winners@, amounts@) is None,
                Err(e) => self.refusal(winners@, amounts@) == Some(e),
            },
    {
        if !self.challenge.is_creator(&self.creator) {
            Err(ErrorCode::Unauthorized)
        } else if self.challenge.is_active {
            Err(ErrorCode::ChallengeStillActive)
        } else if winners.len() != amounts.len() {
            Err(ErrorCode::InvalidInput)
        } else {
            match checked_total(amounts) {
                Some(total) => if total <= self.challenge.prize_pool {
                    Ok(())
                } else {
                    Err(ErrorCode::InsufficientFunds)
                },
                None => Err(ErrorCode::InsufficientFunds),
            }
        }
    }

    /// The notification that `winner` is awarded `amount`.
    pub open spec fn reward_event(&self, winner: Pubkey, amount: u64) -> RewardDistributedEvent {
        RewardDistributedEvent {
            challenge_pubkey: self.challenge_key,
            challenge_id: self.challenge.challenge_id,
            winner,
            amount,
        }
    }
}

/// Adds up `amounts` with checked arithmetic: `None` when the sum does not fit.
fn checked_total(amounts: &Vec<u64>) -> (r: Option<u64>)
    ensures
        match r {
            Some(total) => total == total_rewards(amounts@),
            None => total_rewards(amounts@) > u64::MAX,
        },
{
    let mut total: u64 = 0;
    let mut i: usize = 0;
    while i < amounts.len()
        invariant
            i <= amounts.len(),
            total == total_rewards(amounts@.take(i as int)),
        decreases amounts.len() - i,
    {
        proof {
            assert(amounts@.take(i + 1).drop_last() =~= amounts@.take(i as int));
        }
        match total.checked_add(amounts[i]) {
            Some(next) => {
                total = next;
            },
            None => {
                proof {
                    lemma_total_rewards_grows(amounts@, i + 1);
                }
                return None;
            },
        }
        i = i + 1;
    }
    proof {
        assert(amounts@.take(i as int) =~= amounts@);
    }
    Some(total)
}

/// Authorises the rewards `reward_amounts` for the winners `winner_pubkeys`,
/// pair by pair.
///
/// Distribution is refused, in this order, when the caller is not the creator,
/// when the challenge is still active, when the two lists differ in length,
/// and when the amounts add up to more than the prize pool.  Otherwise the
/// result holds one notification per pair, in the order given.  The challenge
/// is not changed, whatever the outcome.
pub fn distribute_rewards(
    ctx: &DistributeRewards,
    winner_pubkeys: Vec<Pubkey>,
    reward_amounts: Vec<u64>,
) -> (r: Result<Vec<RewardDistributedEvent>, ErrorCode>)
    ensures
        match r {
            Ok(events) => {
                &&& ctx.refusal(winner_pubkeys@, reward_amounts@) is None
                &&& events@.len() == winner_pubkeys@.len()
                &&& forall|i: int|
                    0 <= i < events@.len() ==> #[trigger] events@[i] == ctx.reward_event(
                        winner_pubkeys@[i],
                        reward_amounts@[i],
                    )
            },
            Err(e) => ctx.refusal(winner_pubkeys@, reward_amounts@) == Some(e),
        },
{
    match ctx.check(&winner_pubkeys, &reward_amounts) {
        Err(e) => {
            return Err(e);
        },
        Ok(_) => {},
    }

    let mut events: Vec<RewardDistributedEvent> = Vec::new();
    let mut i: usize = 0;
    while i < winner_pubkeys.len()
        invariant
            i <= winner_pubkeys.len(),
            winner_pubkeys.len() == reward_amounts.len(),
            events@.len() == i,
            forall|j: int|
                0 <= j < i ==> #[trigger] events@[j] == ctx.reward_event(
                    winner_pubkeys@[j],
                    reward_amounts@[j],
                ),
        decreases winner_pubkeys.len() - i,
    {
        events.push(
            RewardDistributedEvent {
                challenge_pubkey: ctx.challenge_key,
                challenge_id: ctx.challenge.challenge_id.clone(),
                winner: winner_pubkeys[i],
                amount: reward_amounts[i],
            },
        );
        i = i + 1;
    }
    Ok(events)
}

impl CancelChallenge {
    /// Why cancelling the challenge is refused, if it is.
    pub open spec fn refusal(&self) -> Option<ErrorCode> {
        if self.creator != self.challenge.creator {
            Some(ErrorCode::Unauthorized)
        } else if !self.challenge.is_active {
            Some(ErrorCode::ChallengeNotActive)
        } else {
            None
        }
    }

    /// Decides whether cancelling the challenge is refused, and why.
    pub fn check(&self) -> (r: Result<(), ErrorCode>)
        ensures
            match r {
                Ok(_) => self.refusal() is None,
                Err(e) => self.refusal() == Some(e),
            },
    {
        if !self.challenge.is_creator(&self.creator) {
            Err(ErrorCode::Unauthorized)
        } else if !self.challenge.is_active {
            Err(ErrorCode::ChallengeNotActive)
        } else {
            Ok(())
        }
    }

    /// The notification of the cancellation.
    pub open spec fn cancelled_event(&self) -> ChallengeCancelledEvent {
        ChallengeCancelledEvent {
            challenge_pubkey: self.challenge_key,
            challenge_id: self.challenge.challenge_id,
        }
    }
}

/// Cancels the challenge.
///
/// Cancelling is refused, in this order, when the caller is not the creator
/// and when the challenge is not active.  Otherwise the challenge stops being
/// active and is marked cancelled, for good.
pub fn cancel_challenge(ctx: &mut CancelChallenge) -> (r: Result<ChallengeCancelledEvent, ErrorCode>)
    ensures
        match r {
            Ok(event) => {
                &&& old(ctx).refusal() is None
                &&& final(ctx).challenge@ == old(ctx).challenge@.cancelled()
                &&& final(ctx).challenge_key == old(ctx).challenge_key
                &&& final(ctx).creator == old(ctx).creator
                &&& event == old(ctx).cancelled_event()
            },
            Err(e) => old(ctx).refusal() == Some(e) && *final(ctx) == *old(ctx),
        },
        old(ctx).challenge.well_formed() ==> final(ctx).challenge.well_formed(),
        old(ctx).challenge@.may_become(final(ctx).challenge@),
{
    match ctx.check() {
        Err(e) => {
            return Err(e);
        },
        Ok(_) => {},
    }
    ctx.challenge.is_active = false;
    ctx.challenge.is_cancelled = true;

    Ok(
        ChallengeCancelledEvent {
            challenge_pubkey: ctx.challenge_key,
            challenge_id: ctx.challenge.challenge_id.clone(),
        },
    )
}

impl RefundParticipant {
    /// Why refunding the participant is refused, if it is.
    pub open spec fn refusal(&self) -> Option<ErrorCode> {
        if self.participant.user != self.user {
            Some(ErrorCode::Unauthorized)
        } else if !self.challenge.is_cancelled {
            Some(ErrorCode::ChallengeNotCancelled)
        } else if !self.participant.has_joined {
            Some(ErrorCode::NotParticipant)
        } else if self.participant.has_completed {
            Some(ErrorCode::AlreadyRefunded)
        } else {
            None
        }
    }

    /// Decides whether refunding the participant is refused, and why.
    pub fn check(&self) -> (r: Result<(), ErrorCode>)
        ensures
            match r {
                Ok(_) => self.refusal() is None,
                Err(e) => self.refusal() == Some(e),
            },
    {
        if !self.participant.belongs_to(&self.user) {
            Err(ErrorCode::Unauthorized)
        } else if !self.challenge.is_cancelled {
            Err(ErrorCode::ChallengeNotCancelled)
        } else if !self.participant.has_joined {
            Err(ErrorCode::NotParticipant)
        } else if self.participant.has_completed {
            Err(ErrorCode::AlreadyRefunded)
        } else {
            Ok(())
        }
    }

    /// The notification that the user gets the entry fee back.
    pub open spec fn refunded_event(&self) -> ParticipantRefundedEvent {
        ParticipantRefundedEvent {
            challenge_pubkey: self.challenge_key,
            challenge_id: self.challenge.challenge_id,
            user: self.user,
            amount: self.challenge.entry_fee,
        }
    }
}

/// Authorises the refund of the caller's entry fee after a cancellation.
///
/// The refund is refused, in this order, when the membership is not the
/// caller's, when the challenge has not been cancelled, when the user never
/// joined, and when the fee has been refunded before.  Otherwise the
/// membership is marked as refunded, and the notification names the entry fee
/// as the amount.  The challenge is not changed, whatever the outcome.
pub fn refund_participant(ctx: &mut RefundParticipant) -> (r: Result<
    ParticipantRefundedEvent,
    ErrorCode,
>)
    ensures
        match r {
            Ok(event) => {
                &&& old(ctx).refusal() is None
                &&& final(ctx).participant@ == old(ctx).participant@.refunded()
                &&& final(ctx).challenge == old(ctx).challenge
                &&& final(ctx).challenge_key == old(ctx).challenge_key
                &&& final(ctx).user == old(ctx).user
                &&& event == old(ctx).refunded_event()
            },
            Err(e) => old(ctx).refusal() == Some(e) && *final(ctx) == *old(ctx),
        },
        old(ctx).participant.well_formed() ==> final(ctx).participant.well_formed(),
        old(ctx).participant@.may_become(final(ctx).participant@),
{
    match ctx.check() {
        Err(e) => {
            return Err(e);
        },
        Ok(_) => {},
    }
    ctx.participant.has_completed = true;

    Ok(
        ParticipantRefundedEvent {
            challenge_pubkey: ctx.challenge_key,
            challenge_id: ctx.challenge.challenge_id.clone(),
            user: ctx.user,
            amount: ctx.challenge.entry_fee,
        },
    )
}

} // verus!
