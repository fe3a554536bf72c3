use anchor_lang::prelude::Pubkey;
use fitness_challenges::{
    cancel_challenge, complete_challenge, initialize_challenge, join_challenge,
    refund_participant, CancelChallenge, Challenge, ChallengeCancelledEvent,
    ChallengeCompletedEvent, ChallengeCreatedEvent, ChallengeJoinedEvent, CompleteChallenge,
    EntryFeeTransfer, ErrorCode, InitializeChallenge, JoinChallenge, Participant,
    ParticipantRefundedEvent, RefundParticipant,
};

fn key(n: u8) -> Pubkey {
    Pubkey::new_from_array([n; 32])
}

fn creator() -> Pubkey {
    key(1)
}

fn challenge_key() -> Pubkey {
    key(2)
}

fn blank_challenge() -> Challenge {
    Challenge {
        creator: Pubkey::default(),
        challenge_id: String::new(),
        title: String::new(),
        entry_fee: 0,
        prize_pool: 0,
        max_participants: 0,
        current_participants: 0,
        deadline_timestamp: 0,
        start_timestamp: 0,
        is_active: false,
        is_cancelled: false,
        bump: 0,
    }
}

fn blank_participant() -> Participant {
    Participant {
        challenge: Pubkey::default(),
        user: Pubkey::default(),
        joined_at: 0,
        has_joined: false,
        has_completed: false,
        firebase_uid: String::new(),
        bump: 0,
    }
}

fn create(entry_fee: u64, prize_pool: u64, max_participants: u32, deadline: i64) -> Challenge {
    let mut ctx = InitializeChallenge {
        challenge: blank_challenge(),
        challenge_key: challenge_key(),
        challenge_bump: 254,
        creator: creator(),
    };
    initialize_challenge(
        &mut ctx,
        String::from("steps-2024"),
        String::from("Ten thousand steps"),
        entry_fee,
        prize_pool,
        max_participants,
        deadline,
        500,
    );
    ctx.challenge
}

fn join_ctx(challenge: &Challenge, participant: &Participant, user: Pubkey) -> JoinChallenge {
    JoinChallenge {
        challenge: challenge.clone(),
        challenge_key: challenge_key(),
        participant: participant.clone(),
        participant_bump: 253,
        user,
    }
}

fn join(
    challenge: &mut Challenge,
    participant: &mut Participant,
    user: Pubkey,
    now: i64,
) -> Result<(EntryFeeTransfer, ChallengeJoinedEvent), ErrorCode> {
    let mut ctx = join_ctx(challenge, participant, user);
    let r = join_challenge(&mut ctx, String::from("uid"), now);
    *challenge = ctx.challenge;
    *participant = ctx.participant;
    r
}

fn complete(challenge: &mut Challenge, caller: Pubkey) -> Result<ChallengeCompletedEvent, ErrorCode> {
    let mut ctx = CompleteChallenge {
        challenge: challenge.clone(),
        challenge_key: challenge_key(),
        creator: caller,
    };
    let r = complete_challenge(&mut ctx, vec![key(10), key(11)]);
    *challenge = ctx.challenge;
    r
}

fn cancel(challenge: &mut Challenge, caller: Pubkey) -> Result<ChallengeCancelledEvent, ErrorCode> {
    let mut ctx = CancelChallenge {
        challenge: challenge.clone(),
        challenge_key: challenge_key(),
        creator: caller,
    };
    let r = cancel_challenge(&mut ctx);
    *challenge = ctx.challenge;
    r
}

fn refund(
    challenge: &Challenge,
    participant: &mut Participant,
    user: Pubkey,
) -> Result<ParticipantRefundedEvent, ErrorCode> {
    let mut ctx = RefundParticipant {
        challenge: challenge.clone(),
        challenge_key: challenge_key(),
        participant: participant.clone(),
        user,
    };
    let r = refund_participant(&mut ctx);
    assert_eq!(&ctx.challenge, challenge);
    *participant = ctx.participant;
    r
}

#[test]
fn create_fills_the_record_and_reports_it() {
    let mut ctx = InitializeChallenge {
        challenge: blank_challenge(),
        challenge_key: challenge_key(),
        challenge_bump: 254,
        creator: creator(),
    };
    let event = initialize_challenge(
        &mut ctx,
        String::from("steps-2024"),
        String::from("Ten thousand steps"),
        100,
        7,
        2,
        1_000,
        500,
    );
    assert_eq!(
        ctx.challenge,
        Challenge {
            creator: creator(),
            challenge_id: String::from("steps-2024"),
            title: String::from("Ten thousand steps"),
            entry_fee: 100,
            prize_pool: 7,
            max_participants: 2,
            current_participants: 0,
            deadline_timestamp: 1_000,
            start_timestamp: 500,
            is_active: true,
            is_cancelled: false,
            bump: 254,
        }
    );
    assert_eq!(
        event,
        ChallengeCreatedEvent {
            challenge_pubkey: challenge_key(),
            challenge_id: String::from("steps-2024"),
            creator: creator(),
            entry_fee: 100,
            prize_pool: 7,
            max_participants: 2,
            deadline_timestamp: 1_000,
            start_timestamp: 500,
        }
    );
    assert_eq!(ctx.challenge_key, challenge_key());
    assert_eq!(ctx.creator, creator());
    assert_eq!(ctx.challenge_bump, 254);
}

#[test]
fn create_overwrites_whatever_the_record_held() {
    let mut stale = blank_challenge();
    stale.current_participants = 9;
    stale.is_cancelled = true;
    stale.prize_pool = 55;
    let mut ctx = InitializeChallenge {
        challenge: stale,
        challenge_key: challenge_key(),
        challenge_bump: 3,
        creator: creator(),
    };
    initialize_challenge(&mut ctx, String::from("c"), String::from("t"), 1, 2, 3, 4, 5);
    assert_eq!(ctx.challenge.current_participants, 0);
    assert_eq!(ctx.challenge.prize_pool, 2);
    assert!(ctx.challenge.is_active);
    assert!(!ctx.challenge.is_cancelled);
    assert_eq!(ctx.challenge.bump, 3);
}

#[test]
fn two_places_are_filled_and_the_third_join_is_refused() {
    let mut challenge = create(100, 0, 2, 1_000);
    let mut a = blank_participant();
    let mut b = blank_participant();
    let mut c = blank_participant();

    assert!(join(&mut challenge, &mut a, key(20), 10).is_ok());
    assert_eq!(challenge.current_participants, 1);
    assert_eq!(challenge.prize_pool, 100);

    assert!(join(&mut challenge, &mut b, key(21), 11).is_ok());
    assert_eq!(challenge.current_participants, 2);
    assert_eq!(challenge.prize_pool, 200);

    assert_eq!(join(&mut challenge, &mut c, key(22), 12), Err(ErrorCode::ChallengeFull));
    assert_eq!(challenge.current_participants, 2);
    assert_eq!(challenge.prize_pool, 200);
    assert_eq!(c, blank_participant());
}

#[test]
fn join_after_a_deadline_in_the_past_is_refused() {
    let mut challenge = create(100, 0, 2, 1_000);
    let mut a = blank_participant();
    assert_eq!(join(&mut challenge, &mut a, key(20), 1_001), Err(ErrorCode::DeadlinePassed));
    assert_eq!(challenge.current_participants, 0);
    assert_eq!(challenge.prize_pool, 0);
    assert!(!a.has_joined);
}

#[test]
fn join_at_the_deadline_is_accepted() {
    let mut challenge = create(100, 0, 2, 1_000);
    let mut a = blank_participant();
    assert!(join(&mut challenge, &mut a, key(20), 1_000).is_ok());
    assert_eq!(a.joined_at, 1_000);
}

#[test]
fn join_with_the_longest_deadline_and_the_earliest_time() {
    let mut challenge = create(1, 0, 1, i64::MIN);
    let mut a = blank_participant();
    assert!(join(&mut challenge, &mut a, key(20), i64::MIN).is_ok());
    let mut late = create(1, 0, 1, i64::MAX - 1);
    let mut b = blank_participant();
    assert_eq!(join(&mut late, &mut b, key(21), i64::MAX), Err(ErrorCode::DeadlinePassed));
}

#[test]
fn cancel_then_refund_succeeds_once() {
    let mut challenge = create(100, 0, 2, 1_000);
    let mut a = blank_participant();
    assert!(join(&mut challenge, &mut a, key(20), 10).is_ok());

    let cancelled = cancel(&mut challenge, creator());
    assert_eq!(
        cancelled,
        Ok(ChallengeCancelledEvent {
            challenge_pubkey: challenge_key(),
            challenge_id: String::from("steps-2024"),
        })
    );
    assert!(!challenge.is_active);
    assert!(challenge.is_cancelled);
    assert_eq!(challenge.current_participants, 1);
    assert_eq!(challenge.prize_pool, 100);

    let first = refund(&challenge, &mut a, key(20));
    assert_eq!(
        first,
        Ok(ParticipantRefundedEvent {
            challenge_pubkey: challenge_key(),
            challenge_id: String::from("steps-2024"),
            user: key(20),
            amount: 100,
        })
    );
    assert!(a.has_joined);
    assert!(a.has_completed);

    assert_eq!(refund(&challenge, &mut a, key(20)), Err(ErrorCode::AlreadyRefunded));
    assert!(a.has_completed);
}

#[test]
fn join_writes_the_membership_and_asks_for_the_fee() {
    let challenge = create(100, 40, 5, 1_000);
    let mut ctx = join_ctx(&challenge, &blank_participant(), key(20));
    let r = join_challenge(&mut ctx, String::from("firebase-abc"), 77);
    let (transfer, event) = r.unwrap();
    assert_eq!(transfer, EntryFeeTransfer { from: key(20), to: challenge_key(), lamports: 100 });
    assert_eq!(
        event,
        ChallengeJoinedEvent {
            challenge_pubkey: challenge_key(),
            challenge_id: String::from("steps-2024"),
            user: key(20),
            firebase_uid: String::from("firebase-abc"),
            entry_fee: 100,
            joined_at: 77,
        }
    );
    assert_eq!(
        ctx.participant,
        Participant {
            challenge: challenge_key(),
            user: key(20),
            joined_at: 77,
            has_joined: true,
            has_completed: false,
            firebase_uid: String::from("firebase-abc"),
            bump: 253,
        }
    );
    let mut expected = challenge.clone();
    expected.current_participants = 1;
    expected.prize_pool = 140;
    assert_eq!(ctx.challenge, expected);
    assert_eq!(ctx.user, key(20));
    assert_eq!(ctx.challenge_key, challenge_key());
    assert_eq!(ctx.participant_bump, 253);
}

#[test]
fn join_twice_is_refused_whatever_others_do() {
    let mut challenge = create(100, 0, 5, 1_000);
    let mut a = blank_participant();
    let mut b = blank_participant();
    assert!(join(&mut challenge, &mut a, key(20), 10).is_ok());
    assert_eq!(join(&mut challenge, &mut a, key(20), 11), Err(ErrorCode::AlreadyJoined));
    assert!(join(&mut challenge, &mut b, key(21), 12).is_ok());
    let joined = a.clone();
    assert_eq!(join(&mut challenge, &mut a, key(20), 13), Err(ErrorCode::AlreadyJoined));
    assert_eq!(a, joined);
    assert_eq!(challenge.current_participants, 2);
    assert_eq!(challenge.prize_pool, 200);
}

#[test]
fn second_join_into_a_full_challenge_reports_that_it_is_full() {
    let mut challenge = create(100, 0, 1, 1_000);
    let mut a = blank_participant();
    assert!(join(&mut challenge, &mut a, key(20), 10).is_ok());
    assert_eq!(join(&mut challenge, &mut a, key(20), 11), Err(ErrorCode::ChallengeFull));
}

#[test]
fn join_is_refused_once_the_challenge_is_completed() {
    let mut challenge = create(100, 0, 2, 1_000);
    assert!(complete(&mut challenge, creator()).is_ok());
    let mut a = blank_participant();
    assert_eq!(join(&mut challenge, &mut a, key(20), 10), Err(ErrorCode::ChallengeNotActive));
}

#[test]
fn join_is_refused_once_the_challenge_is_cancelled() {
    let mut challenge = create(100, 0, 2, 1_000);
    assert!(cancel(&mut challenge, creator()).is_ok());
    let mut a = blank_participant();
    assert_eq!(join(&mut challenge, &mut a, key(20), 10), Err(ErrorCode::ChallengeNotActive));
}

#[test]
fn join_reports_a_cancelled_challenge_that_is_still_marked_active() {
    let mut challenge = create(100, 0, 2, 1_000);
    challenge.is_cancelled = true;
    let mut a = blank_participant();
    assert_eq!(join(&mut challenge, &mut a, key(20), 10), Err(ErrorCode::ChallengeCancelled));
}

#[test]
fn join_reports_the_first_check_that_fails() {
    let mut joined = blank_participant();
    joined.has_joined = true;

    let mut challenge = create(100, 0, 0, 1_000);
    challenge.is_active = false;
    challenge.is_cancelled = true;
    let mut p = joined.clone();
    assert_eq!(join(&mut challenge, &mut p, key(20), 2_000), Err(ErrorCode::ChallengeNotActive));

    challenge.is_active = true;
    assert_eq!(join(&mut challenge, &mut p, key(20), 2_000), Err(ErrorCode::ChallengeCancelled));

    challenge.is_cancelled = false;
    assert_eq!(join(&mut challenge, &mut p, key(20), 2_000), Err(ErrorCode::ChallengeFull));

    challenge.max_participants = 1;
    assert_eq!(join(&mut challenge, &mut p, key(20), 2_000), Err(ErrorCode::DeadlinePassed));

    assert_eq!(join(&mut challenge, &mut p, key(20), 1_000), Err(ErrorCode::AlreadyJoined));
    assert_eq!(p, joined);
}

#[test]
fn refused_join_changes_nothing() {
    let challenge = create(100, 0, 0, 1_000);
    let mut ctx = join_ctx(&challenge, &blank_participant(), key(20));
    let before = ctx.clone();
    assert_eq!(join_challenge(&mut ctx, String::from("uid"), 10), Err(ErrorCode::ChallengeFull));
    assert_eq!(ctx, before);
}

#[test]
fn a_challenge_without_places_admits_nobody() {
    let mut challenge = create(100, 0, 0, 1_000);
    let mut a = blank_participant();
    assert_eq!(join(&mut challenge, &mut a, key(20), 10), Err(ErrorCode::ChallengeFull));
}

#[test]
fn a_free_challenge_counts_participants_and_keeps_its_pool() {
    let mut challenge = create(0, 30, 2, 1_000);
    let mut a = blank_participant();
    let (transfer, _) = join(&mut challenge, &mut a, key(20), 10).unwrap();
    assert_eq!(transfer.lamports, 0);
    assert_eq!(challenge.current_participants, 1);
    assert_eq!(challenge.prize_pool, 30);
}

#[test]
fn the_pool_can_be_filled_to_the_last_lamport() {
    let mut challenge = create(5, u64::MAX - 5, 2, 1_000);
    assert!(challenge.pool_can_grow());
    let mut a = blank_participant();
    assert!(join(&mut challenge, &mut a, key(20), 10).is_ok());
    assert_eq!(challenge.prize_pool, u64::MAX);
    assert!(!challenge.pool_can_grow());
    let almost = create(5, u64::MAX - 4, 2, 1_000);
    assert!(!almost.pool_can_grow());
}

#[test]
fn the_number_of_participants_never_passes_the_capacity() {
    let mut challenge = create(10, 0, 3, 1_000);
    let mut accepted = 0;
    for n in 0..6u8 {
        let mut p = blank_participant();
        if join(&mut challenge, &mut p, key(30 + n), 10).is_ok() {
            accepted += 1;
        }
        assert!(challenge.current_participants <= challenge.max_participants);
        assert_eq!(challenge.prize_pool, 10 * challenge.current_participants as u64);
    }
    assert_eq!(accepted, 3);
    assert_eq!(challenge.current_participants, 3);
}

#[test]
fn complete_closes_the_challenge_and_hands_on_the_ranking() {
    let mut challenge = create(100, 0, 2, 1_000);
    let event = complete(&mut challenge, creator());
    assert_eq!(
        event,
        Ok(ChallengeCompletedEvent {
            challenge_pubkey: challenge_key(),
            challenge_id: String::from("steps-2024"),
            winner_positions: vec![key(10), key(11)],
        })
    );
    assert!(!challenge.is_active);
    assert!(!challenge.is_cancelled);
}

#[test]
fn complete_is_refused_the_second_time() {
    let mut challenge = create(100, 0, 2, 1_000);
    assert!(complete(&mut challenge, creator()).is_ok());
    let closed = challenge.clone();
    assert_eq!(complete(&mut challenge, creator()), Err(ErrorCode::ChallengeNotActive));
    assert_eq!(challenge, closed);
}

#[test]
fn complete_is_refused_after_a_cancellation() {
    let mut challenge = create(100, 0, 2, 1_000);
    assert!(cancel(&mut challenge, creator()).is_ok());
    assert_eq!(complete(&mut challenge, creator()), Err(ErrorCode::ChallengeNotActive));
    assert!(challenge.is_cancelled);
}

#[test]
fn complete_reports_a_cancelled_challenge_that_is_still_marked_active() {
    let mut challenge = create(100, 0, 2, 1_000);
    challenge.is_cancelled = true;
    assert_eq!(complete(&mut challenge, creator()), Err(ErrorCode::ChallengeCancelled));
    assert!(challenge.is_active);
}

#[test]
fn only_the_creator_completes() {
    let mut challenge = create(100, 0, 2, 1_000);
    assert_eq!(complete(&mut challenge, key(99)), Err(ErrorCode::Unauthorized));
    assert!(challenge.is_active);
    assert!(complete(&mut challenge, creator()).is_ok());
    assert_eq!(complete(&mut challenge, key(99)), Err(ErrorCode::Unauthorized));
}

#[test]
fn only_the_creator_cancels() {
    let mut challenge = create(100, 0, 2, 1_000);
    assert_eq!(cancel(&mut challenge, key(99)), Err(ErrorCode::Unauthorized));
    assert!(challenge.is_active);
    assert!(!challenge.is_cancelled);
    assert!(cancel(&mut challenge, creator()).is_ok());
    assert_eq!(cancel(&mut challenge, key(99)), Err(ErrorCode::Unauthorized));
}

#[test]
fn cancel_is_refused_once_the_challenge_has_ended() {
    let mut completed = create(100, 0, 2, 1_000);
    assert!(complete(&mut completed, creator()).is_ok());
    assert_eq!(cancel(&mut completed, creator()), Err(ErrorCode::ChallengeNotActive));
    assert!(!completed.is_cancelled);

    let mut cancelled = create(100, 0, 2, 1_000);
    assert!(cancel(&mut cancelled, creator()).is_ok());
    assert_eq!(cancel(&mut cancelled, creator()), Err(ErrorCode::ChallengeNotActive));
    assert!(cancelled.is_cancelled);
}

#[test]
fn addresses_that_differ_in_one_byte_are_different_callers() {
    let mut bytes = [1u8; 32];
    bytes[31] = 2;
    let near = Pubkey::new_from_array(bytes);
    let challenge = create(100, 0, 2, 1_000);
    assert!(challenge.is_creator(&creator()));
    assert!(!challenge.is_creator(&near));
    let mut copy = challenge.clone();
    assert_eq!(cancel(&mut copy, near), Err(ErrorCode::Unauthorized));
    let mut p = blank_participant();
    p.user = near;
    assert!(p.belongs_to(&near));
    assert!(!p.belongs_to(&creator()));
}

#[test]
fn refund_needs_a_cancelled_challenge() {
    let mut challenge = create(100, 0, 2, 1_000);
    let mut a = blank_participant();
    assert!(join(&mut challenge, &mut a, key(20), 10).is_ok());
    assert_eq!(refund(&challenge, &mut a, key(20)), Err(ErrorCode::ChallengeNotCancelled));
    assert!(complete(&mut challenge, creator()).is_ok());
    assert_eq!(refund(&challenge, &mut a, key(20)), Err(ErrorCode::ChallengeNotCancelled));
    assert!(!a.has_completed);
}

#[test]
fn refund_needs_a_user_who_joined() {
    let mut challenge = create(100, 0, 2, 1_000);
    assert!(cancel(&mut challenge, creator()).is_ok());
    let mut never = blank_participant();
    never.user = key(20);
    assert_eq!(refund(&challenge, &mut never, key(20)), Err(ErrorCode::NotParticipant));
    assert!(!never.has_completed);
}

#[test]
fn refund_goes_to_the_participant_alone() {
    let mut challenge = create(100, 0, 2, 1_000);
    let mut a = blank_participant();
    assert!(join(&mut challenge, &mut a, key(20), 10).is_ok());
    assert!(cancel(&mut challenge, creator()).is_ok());
    assert_eq!(refund(&challenge, &mut a, key(21)), Err(ErrorCode::Unauthorized));
    assert_eq!(refund(&challenge, &mut a, creator()), Err(ErrorCode::Unauthorized));
    assert!(!a.has_completed);
    assert!(refund(&challenge, &mut a, key(20)).is_ok());
}

#[test]
fn refund_reports_the_first_check_that_fails() {
    let challenge = create(100, 0, 2, 1_000);
    let mut p = blank_participant();
    p.user = key(20);
    p.has_completed = true;
    assert_eq!(refund(&challenge, &mut p, key(21)), Err(ErrorCode::Unauthorized));
    assert_eq!(refund(&challenge, &mut p, key(20)), Err(ErrorCode::ChallengeNotCancelled));
    let mut cancelled = challenge.clone();
    assert!(cancel(&mut cancelled, creator()).is_ok());
    assert_eq!(refund(&cancelled, &mut p, key(20)), Err(ErrorCode::NotParticipant));
    p.has_joined = true;
    assert_eq!(refund(&cancelled, &mut p, key(20)), Err(ErrorCode::AlreadyRefunded));
}

#[test]
fn each_participant_is_refunded_separately() {
    let mut challenge = create(100, 0, 2, 1_000);
    let mut a = blank_participant();
    let mut b = blank_participant();
    assert!(join(&mut challenge, &mut a, key(20), 10).is_ok());
    assert!(join(&mut challenge, &mut b, key(21), 10).is_ok());
    assert!(cancel(&mut challenge, creator()).is_ok());
    assert!(refund(&challenge, &mut a, key(20)).is_ok());
    assert!(!b.has_completed);
    assert!(refund(&challenge, &mut b, key(21)).is_ok());
    assert_eq!(refund(&challenge, &mut a, key(20)), Err(ErrorCode::AlreadyRefunded));
    assert_eq!(refund(&challenge, &mut b, key(21)), Err(ErrorCode::AlreadyRefunded));
}
