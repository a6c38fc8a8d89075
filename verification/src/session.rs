//! The pairing state of one session: two slots and a flag.

use vstd::prelude::*;
use crate::protocol::UserId;

verus! {

/// What a join did to the session it named.
#[derive(Debug, Clone, Copy, PartialEq, Eq)]
pub enum PairingOutcome {
    /// The endpoint is alone in the session and waits for a peer.
    FirstJoined,
    /// The endpoint took the free slot beside a waiting peer.
    SecondJoined,
    /// Both slots were taken; the session is as it was.
    AlreadyFull,
}

/// Pairing state of a session: at most two endpoints, and whether a
/// negotiation message has already been forwarded.
#[derive(Debug, Clone, Copy, PartialEq, Eq)]
pub struct Session {
    pub first: Option<UserId>,
    pub second: Option<UserId>,
    pub offer_received: bool,
}

impl Session {
    /// The session that `user` opens by joining first.
    pub open spec fn opened(user: UserId) -> Session {
        Session { first: Some(user), second: None, offer_received: false }
    }

    /// Both slots are taken.
    pub open spec fn spec_is_full(&self) -> bool {
        self.first is Some && self.second is Some
    }

    /// Both slots are free.
    pub open spec fn spec_is_vacant(&self) -> bool {
        self.first is None && self.second is None
    }

    /// Whether `user` holds a slot.
    pub open spec fn spec_holds(&self, user: UserId) -> bool {
        self.first == Some(user) || self.second == Some(user)
    }

    /// How a join ends on this session.
    pub open spec fn join_outcome(&self) -> PairingOutcome {
        if self.spec_is_full() {
            PairingOutcome::AlreadyFull
        } else if self.spec_is_vacant() {
            PairingOutcome::FirstJoined
        } else {
            PairingOutcome::SecondJoined
        }
    }

    /// The session after `user` joined: a full session stays as it is,
    /// otherwise `user` takes the first slot if it is free, else the second.
    pub open spec fn joined(&self, user: UserId) -> Session {
        if self.spec_is_full() {
            *self
        } else if self.first is None {
            Session { first: Some(user), ..*self }
        } else {
            Session { second: Some(user), ..*self }
        }
    }

    /// The endpoint in the first slot that is taken: in a session with one
    /// endpoint, the one that waits for a peer.
    pub open spec fn spec_waiting(&self) -> Option<UserId> {
        if self.first is Some {
            self.first
        } else {
            self.second
        }
    }

    /// The endpoint that forwarded messages go to: the second slot while the
    /// first is taken, the first slot (then empty) otherwise. The sender plays
    /// no part in the rule.
    pub open spec fn spec_recipient(&self) -> Option<UserId> {
        if self.first is Some {
            self.second
        } else {
            self.first
        }
    }

    /// The session with the negotiation flag raised.
    pub open spec fn negotiated(&self) -> Session {
        Session { offer_received: true, ..*self }
    }

    /// The session with every slot that `user` held cleared.
    pub open spec fn without(&self, user: UserId) -> Session {
        Session {
            first: if self.first == Some(user) { None } else { self.first },
            second: if self.second == Some(user) { None } else { self.second },
            offer_received: self.offer_received,
        }
    }

    /// Opens a session with `user` in the first slot.
    pub fn open(user: UserId) -> (session: Session)
        ensures
            session == Session::opened(user),
    {
        Session { first: Some(user), second: None, offer_received: false }
    }

    /// Both slots are taken.
    #[verifier::when_used_as_spec(spec_is_full)]
    pub fn is_full(&self) -> (full: bool)
        ensures
            full == self.spec_is_full(),
    {
        self.first.is_some() && self.second.is_some()
    }

    /// Both slots are free.
    #[verifier::when_used_as_spec(spec_is_vacant)]
    pub fn is_vacant(&self) -> (vacant: bool)
        ensures
            vacant == self.spec_is_vacant(),
    {
        self.first.is_none() && self.second.is_none()
    }

    /// Whether `user` holds a slot.
    #[verifier::when_used_as_spec(spec_holds)]
    pub fn holds(&self, user: UserId) -> (held: bool)
        ensures
            held == self.spec_holds(user),
    {
        let in_first = match self.first {
            Some(id) => id.0 == user.0,
            None => false,
        };
        let in_second = match self.second {
            Some(id) => id.0 == user.0,
            None => false,
        };
        in_first || in_second
    }

    /// Lets `user` into the session if a slot is free, and says how it went.
    pub fn join(&mut self, user: UserId) -> (outcome: PairingOutcome)
        ensures
            *final(self) == old(self).joined(user),
            outcome == old(self).join_outcome(),
    {
        if self.first.is_some() && self.second.is_some() {
            PairingOutcome::AlreadyFull
        } else if self.first.is_none() {
            let alone = self.second.is_none();
            self.first = Some(user);
            if alone {
                PairingOutcome::FirstJoined
            } else {
                PairingOutcome::SecondJoined
            }
        } else {
            self.second = Some(user);
            PairingOutcome::SecondJoined
        }
    }

    /// The endpoint in the first slot that is taken, if any.
    #[verifier::when_used_as_spec(spec_waiting)]
    pub fn waiting(&self) -> (waiting: Option<UserId>)
        ensures
            waiting == self.spec_waiting(),
    {
        if self.first.is_some() {
            self.first
        } else {
            self.second
        }
    }

    /// The endpoint that forwarded messages go to, if its slot is taken.
    #[verifier::when_used_as_spec(spec_recipient)]
    pub fn recipient(&self) -> (recipient: Option<UserId>)
        ensures
            recipient == self.spec_recipient(),
    {
        if self.first.is_some() {
            self.second
        } else {
            self.first
        }
    }

    /// Clears every slot that `user` holds.
    pub fn release(&mut self, user: UserId)
        ensures
            *final(self) == old(self).without(user),
    {
        let in_first = match self.first {
            Some(id) => id.0 == user.0,
            None => false,
        };
        if in_first {
            self.first = None;
        }
        let in_second = match self.second {
            Some(id) => id.0 == user.0,
            None => false,
        };
        if in_second {
            self.second = None;
        }
    }
}

} // verus!
