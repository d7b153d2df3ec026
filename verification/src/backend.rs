//! The storage provider behind the sessions, as the session layer sees it.

use crate::error::SessionError;
use crate::identifier::SessionIdentifier;
use vstd::prelude::*;

verus! {

/// Why a backend could not be set up.
#[derive(Debug)]
pub struct ConfigError {
    /// The factory's own account of the failure.
    pub reason: String,
}

/// Storage of session payloads by identifier.
///
/// A backend describes its own behaviour through three relations, `mints`,
/// `reads` and `persists`. They promise nothing by themselves: a backend
/// that does not state them, as one whose outcomes depend on the outside
/// world, lets them hold of every outcome. The session layer hands them on
/// in its own contracts, so that what is known of a particular backend is
/// known of a request served with it.
pub trait Backend: Sized {
    /// Whether this backend's generator may hand out `identifier`.
    open spec fn mints(&self, identifier: Seq<char>) -> bool {
        true
    }

    /// Whether reading `identifier` from this backend may end in `outcome`.
    open spec fn reads(
        &self,
        identifier: Seq<char>,
        outcome: Result<Option<Vec<u8>>, SessionError>,
    ) -> bool {
        true
    }

    /// Whether asking this backend to store `content` under `identifier`
    /// may leave it as `after`, reporting success where `stored` holds.
    open spec fn persists(
        &self,
        identifier: Seq<char>,
        content: Seq<u8>,
        after: Self,
        stored: bool,
    ) -> bool {
        true
    }

    /// A new identifier, unlikely ever to have been handed out before.
    fn random_identifier(&self) -> (r: SessionIdentifier)
        ensures
            self.mints(r@),
    ;

    /// The payload stored under `identifier`. `Ok(None)` says that there is
    /// no record; `Err` says that the storage failed.
    fn read_session(&self, identifier: SessionIdentifier) -> (r: Result<
        Option<Vec<u8>>,
        SessionError,
    >)
        ensures
            self.reads(identifier@, r),
    ;

    /// Stores `content` under `identifier`, replacing whatever was there.
    fn persist_session(&mut self, identifier: SessionIdentifier, content: &[u8]) -> (r: Result<
        (),
        SessionError,
    >)
        ensures
            old(self).persists(identifier@, content@, *final(self), r is Ok),
    ;
}

/// Maker of backends: one per worker or connection.
pub trait NewBackend {
    /// The backend that this factory makes.
    type Instance: Backend;

    /// Whether making a backend may end in `outcome`.
    open spec fn makes(&self, outcome: Result<Self::Instance, ConfigError>) -> bool {
        true
    }

    /// Makes a backend.
    fn new_backend(&self) -> (r: Result<Self::Instance, ConfigError>)
        ensures
            self.makes(r),
    ;
}

} // verus!
