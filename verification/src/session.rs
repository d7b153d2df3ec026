//! The session of one request: its value, where it came from, and whether
//! it has to be written back.

use crate::backend::Backend;
use crate::codec::{payload, SessionValue};
use crate::cookie::SessionCookieConfig;
use crate::error::SessionError;
use crate::identifier::SessionIdentifier;
use std::sync::Arc;
use vstd::prelude::*;

verus! {

/// Whether the client already holds the session's cookie.
#[derive(Debug, Clone, Copy, PartialEq, Eq, Structural)]
pub enum SessionCookieState {
    /// The identifier was made during this request; the client has to be
    /// told.
    New,
    /// The client sent the identifier.
    Existing,
}

/// Whether the value differs from what the backend holds.
#[derive(Debug, Clone, Copy, PartialEq, Eq, Structural)]
pub enum SessionDataState {
    /// The value is what was read from the backend.
    Clean,
    /// The value has to be written back.
    Dirty,
}

/// Where a session stands. A session made during the request has to be
/// written back whatever happens to it, so it has no clean state.
#[derive(Debug, Clone, Copy, PartialEq, Eq, Structural)]
enum Lifecycle {
    New,
    ExistingClean,
    ExistingDirty,
}

/// A session value together with its identifier, its lifecycle flags, the
/// backend handle that will store it and the cookie configuration.
///
/// A new session is always dirty, so that the identifier handed to the
/// client names a stored record even if no handler touches the value.
/// Handing out the value for writing marks the session dirty, and nothing
/// marks it clean again.
pub struct SessionData<B: Backend, T: SessionValue> {
    value: T,
    lifecycle: Lifecycle,
    identifier: SessionIdentifier,
    backend: B,
    cookie_config: Arc<SessionCookieConfig>,
}

impl<B: Backend, T: SessionValue> SessionData<B, T> {
    /// The session's value.
    pub closed spec fn value(&self) -> T {
        self.value
    }

    /// Whether the identifier was made during this request.
    pub closed spec fn cookie_state(&self) -> SessionCookieState {
        match self.lifecycle {
            Lifecycle::New => SessionCookieState::New,
            Lifecycle::ExistingClean | Lifecycle::ExistingDirty => SessionCookieState::Existing,
        }
    }

    /// Whether the value has to be written back.
    pub closed spec fn data_state(&self) -> SessionDataState {
        match self.lifecycle {
            Lifecycle::ExistingClean => SessionDataState::Clean,
            Lifecycle::New | Lifecycle::ExistingDirty => SessionDataState::Dirty,
        }
    }

    /// The text of the session's identifier.
    pub closed spec fn identifier(&self) -> Seq<char> {
        self.identifier@
    }

    /// The backend handle that the session owns.
    pub closed spec fn backend(&self) -> B {
        self.backend
    }

    /// The cookie configuration that the session shares.
    pub closed spec fn cookie_config(&self) -> SessionCookieConfig {
        *self.cookie_config
    }

    /// Whether `outcome` is a session that was made from nothing with
    /// `backend` and `cookie_config`: new, dirty, holding the starting
    /// value, under an identifier from the backend's generator.
    pub open spec fn is_fresh(
        outcome: Self,
        backend: B,
        cookie_config: SessionCookieConfig,
    ) -> bool {
        &&& T::starts_as(outcome.value())
        &&& outcome.cookie_state() == SessionCookieState::New
        &&& outcome.data_state() == SessionDataState::Dirty
        &&& backend.mints(outcome.identifier())
        &&& outcome.backend() == backend
        &&& outcome.cookie_config() == cookie_config
    }

    /// Whether `outcome` is what building a session from the stored
    /// payload `stored` comes to.
    ///
    /// A payload that decodes gives the client's session back, clean. A
    /// payload that does not decode is an error, never a fresh start.
    /// Without a payload the session is made from nothing, and the
    /// client's identifier is not taken over.
    pub open spec fn is_constructed(
        outcome: Result<Self, SessionError>,
        backend: B,
        cookie_config: SessionCookieConfig,
        identifier: Seq<char>,
        stored: Option<Seq<u8>>,
    ) -> bool {
        match stored {
            Some(bytes) => match outcome {
                Ok(session) => {
                    &&& T::decodes_to(bytes, Some(session.value()))
                    &&& session.cookie_state() == SessionCookieState::Existing
                    &&& session.data_state() == SessionDataState::Clean
                    &&& session.identifier() == identifier
                    &&& session.backend() == backend
                    &&& session.cookie_config() == cookie_config
                },
                Err(e) => e is Deserialize && T::decodes_to(bytes, None),
            },
            None => outcome matches Ok(session) && Self::is_fresh(session, backend, cookie_config),
        }
    }

    /// A session made from nothing.
    pub fn new(backend: B, cookie_config: Arc<SessionCookieConfig>) -> (r: Self)
        ensures
            Self::is_fresh(r, backend, *cookie_config),
    {
        let identifier = backend.random_identifier();
        SessionData {
            value: T::initial(),
            lifecycle: Lifecycle::New,
            identifier,
            backend,
            cookie_config,
        }
    }

    /// The session that belongs to `identifier`, given what the backend
    /// holds for it.
    pub fn construct(
        backend: B,
        cookie_config: Arc<SessionCookieConfig>,
        identifier: SessionIdentifier,
        val: Option<Vec<u8>>,
    ) -> (r: Result<Self, SessionError>)
        ensures
            Self::is_constructed(
                r,
                backend,
                *cookie_config,
                identifier@,
                payload(val),
            ),
    {
        match val {
            Some(bytes) => match T::decode(bytes.as_slice()) {
                Some(value) => Ok(
                    SessionData {
                        value,
                        lifecycle: Lifecycle::ExistingClean,
                        identifier,
                        backend,
                        cookie_config,
                    },
                ),
                None => Err(SessionError::Deserialize),
            },
            None => Ok(SessionData::new(backend, cookie_config)),
        }
    }

    /// Whether the identifier was made during this request.
    pub fn is_new(&self) -> (r: bool)
        ensures
            r == (self.cookie_state() == SessionCookieState::New),
    {
        match self.lifecycle {
            Lifecycle::New => true,
            Lifecycle::ExistingClean | Lifecycle::ExistingDirty => false,
        }
    }

    /// Whether the value has to be written back.
    pub fn is_dirty(&self) -> (r: bool)
        ensures
            r == (self.data_state() == SessionDataState::Dirty),
    {
        match self.lifecycle {
            Lifecycle::ExistingClean => false,
            Lifecycle::New | Lifecycle::ExistingDirty => true,
        }
    }

    /// A new session is dirty: whatever was handed to the client is also
    /// written to the backend.
    pub proof fn lemma_new_is_dirty(self)
        ensures
            self.cookie_state() == SessionCookieState::New ==> self.data_state()
                == SessionDataState::Dirty,
    {
    }

    /// The session's identifier.
    pub fn session_identifier(&self) -> (r: &SessionIdentifier)
        ensures
            r@ == self.identifier(),
    {
        &self.identifier
    }

    /// The cookie configuration.
    pub fn config(&self) -> (r: &SessionCookieConfig)
        ensures
            *r == self.cookie_config(),
    {
        &self.cookie_config
    }

    /// Takes the session apart into its value, its identifier and its
    /// backend handle.
    pub fn into_parts(self) -> (r: (T, SessionIdentifier, B))
        ensures
            r.0 == self.value(),
            r.1@ == self.identifier(),
            r.2 == self.backend(),
    {
        (self.value, self.identifier, self.backend)
    }
}

impl<B: Backend, T: SessionValue> core::ops::Deref for SessionData<B, T> {
    type Target = T;

    /// The value, for reading.
    fn deref(&self) -> (r: &T)
        ensures
            *r == self.value(),
    {
        &self.value
    }
}

impl<B: Backend, T: SessionValue> core::ops::DerefMut for SessionData<B, T> {
    /// The value, for writing. The session is dirty from here on.
    fn deref_mut(&mut self) -> (r: &mut T)
        ensures
            *r == old(self).value(),
            final(self).value() == *final(r),
            final(self).data_state() == SessionDataState::Dirty,
            final(self).cookie_state() == old(self).cookie_state(),
            final(self).identifier() == old(self).identifier(),
            final(self).backend() == old(self).backend(),
            final(self).cookie_config() == old(self).cookie_config(),
    {
        match self.lifecycle {
            Lifecycle::ExistingClean => {
                self.lifecycle = Lifecycle::ExistingDirty;
            },
            Lifecycle::New | Lifecycle::ExistingDirty => {},
        }
        &mut self.value
    }
}

} // verus!
