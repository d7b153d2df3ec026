//! The request-scoped slot through which a session travels from the
//! middleware to the handlers and back.

use crate::backend::Backend;
use crate::codec::SessionValue;
use crate::session::SessionData;
use vstd::prelude::*;

verus! {

/// State that belongs to one request: room for one session of type `T`.
pub struct State<B: Backend, T: SessionValue> {
    session: Option<SessionData<B, T>>,
}

impl<B: Backend, T: SessionValue> State<B, T> {
    /// The session that the state holds, if any.
    pub closed spec fn session(&self) -> Option<SessionData<B, T>> {
        self.session
    }

    /// State without a session.
    pub fn new() -> (r: Self)
        ensures
            r.session() is None,
    {
        State { session: None }
    }

    /// Stores `session`, replacing the one that was there.
    pub fn put(&mut self, session: SessionData<B, T>)
        ensures
            final(self).session() == Some(session),
    {
        self.session = Some(session);
    }

    /// Whether the state holds a session.
    pub fn has(&self) -> (r: bool)
        ensures
            r == self.session().is_some(),
    {
        self.session.is_some()
    }

    /// Removes the session and hands it over.
    pub fn take(&mut self) -> (r: Option<SessionData<B, T>>)
        ensures
            r == old(self).session(),
            final(self).session() is None,
            r is None ==> *final(self) == *old(self),
    {
        self.session.take()
    }

    /// The session, for reading.
    pub fn borrow(&self) -> (r: Option<&SessionData<B, T>>)
        ensures
            r.is_some() == self.session().is_some(),
            r matches Some(session) ==> self.session() == Some(*session),
    {
        self.session.as_ref()
    }

    /// The session, for writing. What is done to it is done to the
    /// session in the state.
    pub fn borrow_mut(&mut self) -> (r: Option<&mut SessionData<B, T>>)
        ensures
            match r {
                Some(session) => old(self).session() == Some(*session) && final(self).session()
                    == Some(*final(session)),
                None => old(self).session() is None && final(self).session() is None,
            },
    {
        match &mut self.session {
            Some(session) => Some(session),
            None => None,
        }
    }
}

} // verus!
