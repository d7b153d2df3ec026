//! Failures that the session layer reports.

use vstd::prelude::*;

verus! {

/// Why a session could not be loaded.
#[derive(Debug)]
pub enum SessionError {
    /// The storage provider failed; the text is its own account of why.
    Backend(String),
    /// Stored bytes were found but do not decode into the session type.
    Deserialize,
}

} // verus!
