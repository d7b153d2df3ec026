//! Telling a socket that is not ready from a socket that failed.
//!
//! A non-blocking socket that has nothing to offer reports so through an
//! operating-system error. An event loop has to see that as "would block",
//! not as a failure of the connection.

use vstd::prelude::*;

verus! {

/// The operating-system error code with which a socket reports that it has
/// nothing ready.
pub const SOCKET_NOT_READY: i32 = 35;

/// The account that goes with a socket that is not ready.
pub const WOULD_BLOCK_MESSAGE: &'static str = "test socket would block";

/// Kind of an I/O failure, as far as an event loop tells kinds apart.
#[derive(Debug, Clone, Copy, PartialEq, Eq, Structural)]
pub enum IoFailureKind {
    /// The operation has to be tried again when the socket is ready.
    WouldBlock,
    /// Anything else.
    Other,
}

/// An I/O failure as plain values.
#[derive(Debug)]
pub struct IoFailure {
    /// The operating-system error code behind the failure, if there is one.
    pub os_code: Option<i32>,
    /// The kind of the failure.
    pub kind: IoFailureKind,
    /// An account of the failure.
    pub message: String,
}

/// What `io_error_to_async_io_error` makes of a failure: the failure of a
/// socket that is not ready where the code says so, the failure itself
/// otherwise.
pub open spec fn is_async_failure(failure: IoFailure, out: IoFailure) -> bool {
    if failure.os_code == Some(SOCKET_NOT_READY) {
        &&& out.os_code is None
        &&& out.kind == IoFailureKind::WouldBlock
        &&& out.message@ == WOULD_BLOCK_MESSAGE@
    } else {
        out == failure
    }
}

/// Lets a success through, and turns the failure of a socket that is not
/// ready into a "would block". Every other failure passes unchanged.
pub fn io_error_to_async_io_error<T>(r: Result<T, IoFailure>) -> (out: Result<T, IoFailure>)
    ensures
        match r {
            Ok(value) => out == Ok::<T, IoFailure>(value),
            Err(failure) => out matches Err(e) && is_async_failure(failure, e),
        },
{
    match r {
        Ok(value) => Ok(value),
        Err(failure) => match failure.os_code {
            Some(code) if code == SOCKET_NOT_READY => Err(
                IoFailure {
                    os_code: None,
                    kind: IoFailureKind::WouldBlock,
                    message: WOULD_BLOCK_MESSAGE.to_owned(),
                },
            ),
            _ => Err(failure),
        },
    }
}

} // verus!
