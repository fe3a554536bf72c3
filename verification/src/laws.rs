//! What holds of the lifecycle as a whole.
//!
//! A history is the sequence of states that one record goes through, each
//! state following from the one before by a step of `may_become`.  Every
//! operation takes such a step, whether it is accepted or refused, so what is
//! proved here of histories holds whatever operations are called, and in
//! whatever order.

use crate::accounts::{
    CancelChallenge, CompleteChallenge, DistributeRewards, JoinChallenge, RefundParticipant,
};
use crate::errors::ErrorCode;
use crate::instructions::total_rewards;
use crate::state::{Challenge, ChallengeView, ParticipantView};
use anchor_lang::prelude::Pubkey;
use vstd::prelude::*;

verus! {

/// State `i` of `states` follows from the state before it by one step.
pub open spec fn challenge_step(states: Seq<ChallengeView>, i: int) -> bool {
    states[i - 1].may_become(states[i])
}

/// `states` is a history of a challenge: it is not empty, and every state
/// but the first follows from the one before it.
pub open spec fn is_challenge_history(states: Seq<ChallengeView>) -> bool {
    &&& states.len() > 0
    &&& forall|i: int| 0 < i < states.len() ==> #[trigger] challenge_step(states, i)
}

/// A challenge that starts well formed is well formed at every point of its
/// history.  In particular it never has more participants than it admits,
/// and its pool always covers one entry fee per participant.
pub proof fn lemma_challenge_stays_well_formed(states: Seq<ChallengeView>, i: int)
    requires
        is_challenge_history(states),
        states[0].well_formed(),
        0 <= i < states.len(),
    ensures
        states[i].well_formed(),
        states[i].current_participants <= states[i].max_participants,
        states[i].prize_pool >= states[i].entry_fee * states[i].current_participants,
        states[i].is_cancelled ==> !states[i].is_active,
    decreases i,
{
    if i > 0 {
        lemma_challenge_stays_well_formed(states, i - 1);
        assert(challenge_step(states, i));
        let before = states[i - 1];
        let fee = before.entry_fee as int;
        let count = before.current_participants as int;
        assert(fee * (count + 1) == fee * count + fee) by (nonlinear_arith);
    }
}

/// A challenge that has been created is well formed at every point of its
/// history, whatever it was created with.
pub proof fn lemma_created_challenge_stays_well_formed(states: Seq<ChallengeView>, i: int)
    requires
        is_challenge_history(states),
        states[0].current_participants == 0,
        states[0].is_active,
        !states[0].is_cancelled,
        0 <= i < states.len(),
    ensures
        states[i].well_formed(),
        states[i].current_participants <= states[i].max_participants,
{
    lemma_challenge_stays_well_formed(states, i);
}

/// The end of a challenge is final: once it has stopped being active it never
/// becomes active again, and once it is cancelled it stays cancelled.
pub proof fn lemma_closed_challenge_stays_closed(states: Seq<ChallengeView>, i: int, j: int)
    requires
        is_challenge_history(states),
        0 <= i <= j < states.len(),
    ensures
        !states[i].is_active ==> !states[j].is_active,
        states[i].is_cancelled ==> states[j].is_cancelled,
        !states[i].is_active ==> states[j] == states[i],
    decreases j - i,
{
    if i < j {
        lemma_closed_challenge_stays_closed(states, i, j - 1);
        assert(challenge_step(states, j));
    }
}

/// What a challenge was created with never changes, and neither its pool nor
/// its number of participants ever goes down.
pub proof fn lemma_challenge_keeps_its_terms(states: Seq<ChallengeView>, i: int, j: int)
    requires
        is_challenge_history(states),
        0 <= i <= j < states.len(),
    ensures
        states[j].creator == states[i].creator,
        states[j].challenge_id == states[i].challenge_id,
        states[j].title == states[i].title,
        states[j].entry_fee == states[i].entry_fee,
        states[j].max_participants == states[i].max_participants,
        states[j].deadline_timestamp == states[i].deadline_timestamp,
        states[j].start_timestamp == states[i].start_timestamp,
        states[j].bump == states[i].bump,
        states[j].prize_pool >= states[i].prize_pool,
        states[j].current_participants >= states[i].current_participants,
    decreases j - i,
{
    if i < j {
        lemma_challenge_keeps_its_terms(states, i, j - 1);
        assert(challenge_step(states, j));
    }
}

/// State `i` of `states` follows from the state before it by one step.
pub open spec fn participant_step(states: Seq<ParticipantView>, i: int) -> bool {
    states[i - 1].may_become(states[i])
}

/// `states` is a history of a membership: it is not empty, and every state
/// but the first follows from the one before it.
pub open spec fn is_participant_history(states: Seq<ParticipantView>) -> bool {
    &&& states.len() > 0
    &&& forall|i: int| 0 < i < states.len() ==> #[trigger] participant_step(states, i)
}

/// A user who has joined stays joined, and the refund of a user who has
/// joined stays paid: no operation takes either back.  A membership that
/// starts well formed stays so.
pub proof fn lemma_membership_is_kept(states: Seq<ParticipantView>, i: int, j: int)
    requires
        is_participant_history(states),
        0 <= i <= j < states.len(),
    ensures
        states[i].has_joined ==> states[j].has_joined,
        states[i].has_joined && states[i].has_completed ==> states[j].has_completed,
        states[i].well_formed() ==> states[j].well_formed(),
    decreases j - i,
{
    if i < j {
        lemma_membership_is_kept(states, i, j - 1);
        assert(participant_step(states, j));
    }
}

/// A user joins a challenge at most once.  Whatever has happened since the
/// user joined, to this membership or to the challenge, another attempt to
/// join is refused; and it is refused as a second join whenever the challenge
/// is still open, has room, and `now` is not after the deadline.
pub proof fn lemma_joined_user_cannot_join_again(
    states: Seq<ParticipantView>,
    ctx: JoinChallenge,
    now: i64,
)
    requires
        is_participant_history(states),
        states[0].has_joined,
        ctx.participant@ == states.last(),
    ensures
        ctx.refusal(now) is Some,
        ctx.challenge.is_active && !ctx.challenge.is_cancelled
            && ctx.challenge.current_participants < ctx.challenge.max_participants && now
            <= ctx.challenge.deadline_timestamp ==> ctx.refusal(now) == Some(
            ErrorCode::AlreadyJoined,
        ),
{
    lemma_membership_is_kept(states, 0, states.len() - 1);
}

/// Joining after the deadline is refused, and while the challenge is open and
/// has room the reason given is the deadline.
pub proof fn lemma_late_join_is_refused(ctx: JoinChallenge, now: i64)
    requires
        now > ctx.challenge.deadline_timestamp,
    ensures
        ctx.refusal(now) is Some,
        ctx.challenge.is_active && !ctx.challenge.is_cancelled
            && ctx.challenge.current_participants < ctx.challenge.max_participants
            ==> ctx.refusal(now) == Some(ErrorCode::DeadlinePassed),
{
}

/// After the creator has cancelled an active challenge, a participant who
/// has joined and has not been refunded is refunded when asking for it, and
/// is refused with `AlreadyRefunded` when asking again.
pub proof fn lemma_refund_is_paid_once(
    cancel: CancelChallenge,
    refund: RefundParticipant,
    again: RefundParticipant,
)
    requires
        cancel.creator == cancel.challenge.creator,
        cancel.challenge.is_active,
        refund.challenge@ == cancel.challenge@.cancelled(),
        refund.participant.has_joined,
        !refund.participant.has_completed,
        refund.participant.user == refund.user,
        again.challenge@ == refund.challenge@,
        again.participant@ == refund.participant@.refunded(),
        again.user == refund.user,
    ensures
        cancel.refusal() is None,
        refund.refusal() is None,
        again.refusal() == Some(ErrorCode::AlreadyRefunded),
{
}

/// Rewards that add up to more than the prize pool are never authorised, and
/// when the creator asks for them after the end of the challenge, with as
/// many amounts as winners, the reason given is `InsufficientFunds`.
pub proof fn lemma_overspending_is_refused(
    ctx: DistributeRewards,
    winners: Seq<Pubkey>,
    amounts: Seq<u64>,
)
    requires
        total_rewards(amounts) > ctx.challenge.prize_pool,
    ensures
        ctx.refusal(winners, amounts) is Some,
        ctx.creator == ctx.challenge.creator && !ctx.challenge.is_active && winners.len()
            == amounts.len() ==> ctx.refusal(winners, amounts) == Some(
            ErrorCode::InsufficientFunds,
        ),
{
}

/// Only the creator may complete a challenge, distribute its rewards or
/// cancel it: any other caller is refused with `Unauthorized`, whatever the
/// state of the challenge, and the creator is never refused for that reason.
pub proof fn lemma_only_the_creator_may_settle(
    challenge: Challenge,
    challenge_key: Pubkey,
    caller: Pubkey,
    winners: Seq<Pubkey>,
    amounts: Seq<u64>,
)
    ensures
        caller != challenge.creator ==> {
            &&& (CompleteChallenge { challenge, challenge_key, creator: caller }).refusal()
                == Some(ErrorCode::Unauthorized)
            &&& (DistributeRewards { challenge, challenge_key, creator: caller }).refusal(
                winners,
                amounts,
            ) == Some(ErrorCode::Unauthorized)
            &&& (CancelChallenge { challenge, challenge_key, creator: caller }).refusal() == Some(
                ErrorCode::Unauthorized,
            )
        },
        caller == challenge.creator ==> {
            &&& (CompleteChallenge { challenge, challenge_key, creator: caller }).refusal()
                != Some(ErrorCode::Unauthorized)
            &&& (DistributeRewards { challenge, challenge_key, creator: caller }).refusal(
                winners,
                amounts,
            ) != Some(ErrorCode::Unauthorized)
            &&& (CancelChallenge { challenge, challenge_key, creator: caller }).refusal() != Some(
                ErrorCode::Unauthorized,
            )
        },
{
}

} // verus!
