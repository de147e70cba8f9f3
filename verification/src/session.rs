//! What the session layer tells the client about itself.

use vstd::prelude::*;
use crate::entity::PlayerId;

verus! {

/// The client's own identity: absent until the session layer has assigned it,
/// and fixed from then on. Everything that acts for the player waits for it.
pub struct Session {
    identity: Option<PlayerId>,
}

impl View for Session {
    type V = Option<PlayerId>;

    /// The identity, once it is known.
    closed spec fn view(&self) -> Option<PlayerId> {
        self.identity
    }
}

impl Session {
    /// A session whose identity is not known yet.
    pub fn new() -> (session: Session)
        ensures
            session@ is None,
    {
        Session { identity: None }
    }

    /// The identity, once it is known.
    pub fn local_identity(&self) -> (identity: Option<PlayerId>)
        ensures
            identity == self@,
    {
        self.identity
    }

    /// Takes the identity that the session layer assigns.
    ///
    /// The first assignment sets the identity and returns `true`. The identity is
    /// set once: every later assignment leaves it as it is and returns `false`.
    pub fn assign(&mut self, id: PlayerId) -> (changed: bool)
        ensures
            changed == (old(self)@ is None),
            final(self)@ == (if old(self)@ is None {
                Some(id)
            } else {
                old(self)@
            }),
            final(self)@ is Some,
    {
        match self.identity {
            Some(_) => false,
            None => {
                self.identity = Some(id);
                true
            },
        }
    }
}

} // verus!
