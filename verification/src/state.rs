//! The two persistent records and their mathematical models.
//!
//! The view of a record is its model: amounts and counts are natural numbers,
//! timestamps are integers, text is a sequence of characters.  The lifecycle is
//! defined on the models, and the operations are specified against them.

use crate::keys::same_key;
use anchor_lang::prelude::Pubkey;
use vstd::prelude::*;

verus! {

/// The authoritative state of one challenge.
#[derive(Debug, Clone, PartialEq, Eq)]
pub struct Challenge {
    /// Who created the challenge, and who alone may complete or cancel it.
    pub creator: Pubkey,
    /// Identifier given by the off-chain system.
    pub challenge_id: String,
    /// Display text.
    pub title: String,
    /// What each participant pays to join.
    pub entry_fee: u64,
    /// What has been pooled so far: the creator's seed and one fee per join.
    pub prize_pool: u64,
    /// How many participants the challenge admits.
    pub max_participants: u32,
    /// How many have joined.
    pub current_participants: u32,
    /// Last moment at which joining is allowed.
    pub deadline_timestamp: i64,
    /// When the challenge starts.  No rule depends on it.
    pub start_timestamp: i64,
    /// True from creation until the challenge is completed or cancelled.
    pub is_active: bool,
    /// True once the challenge has been cancelled.
    pub is_cancelled: bool,
    /// Disambiguator of the record's derived address.
    pub bump: u8,
}

/// The model of a [`Challenge`].
pub struct ChallengeView {
    pub creator: Pubkey,
    pub challenge_id: Seq<char>,
    pub title: Seq<char>,
    pub entry_fee: nat,
    pub prize_pool: nat,
    pub max_participants: nat,
    pub current_participants: nat,
    pub deadline_timestamp: int,
    pub start_timestamp: int,
    pub is_active: bool,
    pub is_cancelled: bool,
    pub bump: nat,
}

impl View for Challenge {
    type V = ChallengeView;

    open spec fn view(&self) -> ChallengeView {
        ChallengeView {
            creator: self.creator,
            challenge_id: self.challenge_id@,
            title: self.title@,
            entry_fee: self.entry_fee as nat,
            prize_pool: self.prize_pool as nat,
            max_participants: self.max_participants as nat,
            current_participants: self.current_participants as nat,
            deadline_timestamp: self.deadline_timestamp as int,
            start_timestamp: self.start_timestamp as int,
            is_active: self.is_active,
            is_cancelled: self.is_cancelled,
            bump: self.bump as nat,
        }
    }
}

impl ChallengeView {
    /// What holds of a challenge after every operation: it is never over
    /// capacity, the pool covers one entry fee per participant, and a
    /// cancelled challenge is not active.
    pub open spec fn well_formed(self) -> bool {
        &&& self.current_participants <= self.max_participants
        &&& self.prize_pool >= self.entry_fee * self.current_participants
        &&& self.is_cancelled ==> !self.is_active
    }

    /// The challenge is open: it can still be joined, completed or cancelled.
    pub open spec fn is_open(self) -> bool {
        self.is_active && !self.is_cancelled
    }

    /// The challenge has ended, by completion or by cancellation.
    pub open spec fn is_closed(self) -> bool {
        !self.is_active
    }

    /// The challenge as created: nobody has joined, and it is open.
    pub open spec fn created(
        creator: Pubkey,
        challenge_id: Seq<char>,
        title: Seq<char>,
        entry_fee: nat,
        prize_pool: nat,
        max_participants: nat,
        deadline_timestamp: int,
        start_timestamp: int,
        bump: nat,
    ) -> ChallengeView {
        ChallengeView {
            creator,
            challenge_id,
            title,
            entry_fee,
            prize_pool,
            max_participants,
            current_participants: 0,
            deadline_timestamp,
            start_timestamp,
            is_active: true,
            is_cancelled: false,
            bump,
        }
    }

    /// The challenge after one more participant has paid the entry fee.
    pub open spec fn joined(self) -> ChallengeView {
        ChallengeView {
            current_participants: self.current_participants + 1,
            prize_pool: self.prize_pool + self.entry_fee,
            ..self
        }
    }

    /// The challenge after it has been completed.
    pub open spec fn completed(self) -> ChallengeView {
        ChallengeView { is_active: false, ..self }
    }

    /// The challenge after it has been cancelled.
    pub open spec fn cancelled(self) -> ChallengeView {
        ChallengeView { is_active: false, is_cancelled: true, ..self }
    }

    /// One step of the lifecycle: an operation leaves the challenge as it is,
    /// admits one more participant while it is open and has room, completes
    /// it while it is open, or cancels it while it is active.
    pub open spec fn may_become(self, next: ChallengeView) -> bool {
        ||| next == self
        ||| self.is_open() && self.current_participants < self.max_participants && next
            == self.joined()
        ||| self.is_open() && next == self.completed()
        ||| self.is_active && next == self.cancelled()
    }
}

impl Challenge {
    /// The record satisfies [`ChallengeView::well_formed`].
    pub open spec fn well_formed(&self) -> bool {
        self@.well_formed()
    }

    /// Whether the pool can take one more entry fee and still fit in a `u64`.
    /// [`join_challenge`](crate::instructions::join_challenge) asks for this.
    pub fn pool_can_grow(&self) -> (r: bool)
        ensures
            r == (self.prize_pool + self.entry_fee <= u64::MAX),
    {
        self.entry_fee <= u64::MAX - self.prize_pool
    }

    /// The one authorisation rule: `caller` is the creator of the challenge.
    pub fn is_creator(&self, caller: &Pubkey) -> (r: bool)
        ensures
            r == (self.creator == *caller),
    {
        same_key(&self.creator, caller)
    }
}

/// The membership of one user in one challenge.
#[derive(Debug, Clone, PartialEq, Eq)]
pub struct Participant {
    /// Address of the challenge that the record belongs to.
    pub challenge: Pubkey,
    /// The user who joined.
    pub user: Pubkey,
    /// When the user joined.
    pub joined_at: i64,
    /// True once the user has joined.
    pub has_joined: bool,
    /// True once the entry fee has been refunded after a cancellation.
    pub has_completed: bool,
    /// The user's identifier in the off-chain system.
    pub firebase_uid: String,
    /// Disambiguator of the record's derived address.
    pub bump: u8,
}

/// The model of a [`Participant`].
pub struct ParticipantView {
    pub challenge: Pubkey,
    pub user: Pubkey,
    pub joined_at: int,
    pub has_joined: bool,
    pub has_completed: bool,
    pub firebase_uid: Seq<char>,
    pub bump: nat,
}

impl View for Participant {
    type V = ParticipantView;

    open spec fn view(&self) -> ParticipantView {
        ParticipantView {
            challenge: self.challenge,
            user: self.user,
            joined_at: self.joined_at as int,
            has_joined: self.has_joined,
            has_completed: self.has_completed,
            firebase_uid: self.firebase_uid@,
            bump: self.bump as nat,
        }
    }
}

impl ParticipantView {
    /// What holds of a membership after every operation: only a user who has
    /// joined can have been refunded.
    pub open spec fn well_formed(self) -> bool {
        self.has_completed ==> self.has_joined
    }

    /// The membership that a successful join writes.
    pub open spec fn enrolled(
        challenge: Pubkey,
        user: Pubkey,
        joined_at: int,
        firebase_uid: Seq<char>,
        bump: nat,
    ) -> ParticipantView {
        ParticipantView {
            challenge,
            user,
            joined_at,
            has_joined: true,
            has_completed: false,
            firebase_uid,
            bump,
        }
    }

    /// The membership after the entry fee has been refunded.
    pub open spec fn refunded(self) -> ParticipantView {
        ParticipantView { has_completed: true, ..self }
    }

    /// One step in the life of a membership: an operation leaves it as it is,
    /// enrols a user who has not joined, or refunds one who has joined and
    /// has not been refunded.
    pub open spec fn may_become(self, next: ParticipantView) -> bool {
        ||| next == self
        ||| !self.has_joined && next.has_joined && !next.has_completed
        ||| self.has_joined && !self.has_completed && next == self.refunded()
    }
}

impl Participant {
    /// The record satisfies [`ParticipantView::well_formed`].
    pub open spec fn well_formed(&self) -> bool {
        self@.well_formed()
    }

    /// Whether the record is that of `user`.
    pub fn belongs_to(&self, user: &Pubkey) -> (r: bool)
        ensures
            r == (self.user == *user),
    {
        same_key(&self.user, user)
    }
}

} // verus!
