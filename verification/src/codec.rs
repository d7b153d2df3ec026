//! What a type must offer to be kept in a session: a starting value and a
//! compact binary form.

use serde::{Deserialize, Serialize};
use vstd::prelude::*;

verus! {

/// A stored payload as plain bytes.
pub open spec fn payload(stored: Option<Vec<u8>>) -> Option<Seq<u8>> {
    match stored {
        Some(bytes) => Some(bytes@),
        None => None,
    }
}

/// A value that can live in a session.
///
/// A type describes its own codec through three relations. They promise
/// nothing by themselves: a type that does not state them lets them hold
/// of every outcome. The session layer hands them on in its own contracts,
/// so that what is known of a type's codec is known of its sessions.
pub trait SessionValue: Sized {
    /// Whether a new session may start with `value`.
    open spec fn starts_as(value: Self) -> bool {
        true
    }

    /// Whether encoding this value may end in `outcome`, where `None`
    /// stands for a value that cannot be encoded.
    open spec fn encodes_to(&self, outcome: Option<Seq<u8>>) -> bool {
        true
    }

    /// Whether decoding `bytes` may end in `outcome`, where `None` stands
    /// for bytes that do not decode.
    open spec fn decodes_to(bytes: Seq<u8>, outcome: Option<Self>) -> bool {
        true
    }

    /// Builds the starting value.
    fn initial() -> (r: Self)
        ensures
            Self::starts_as(r),
    ;

    /// Encodes the value; `None` reports that it cannot be encoded.
    fn encode(&self) -> (r: Option<Vec<u8>>)
        ensures
            self.encodes_to(payload(r)),
    ;

    /// Decodes a value; `None` reports that `bytes` do not decode.
    fn decode(bytes: &[u8]) -> (r: Option<Self>)
        ensures
            Self::decodes_to(bytes@, r),
    ;
}

/// Whether the codec of `T` loses nothing: whatever a value encodes to
/// decodes to that value and to nothing else.
pub open spec fn is_faithful<T: SessionValue>() -> bool {
    forall|value: T, bytes: Seq<u8>, outcome: Option<T>|
        #[trigger] value.encodes_to(Some(bytes)) && #[trigger] T::decodes_to(bytes, outcome)
            ==> outcome == Some(value)
}

/// The single byte that MessagePack uses for nil.
pub const NIL_MARKER: u8 = 0xc0;

/// Whether `bytes` stand for the unit value: they start with the nil
/// marker.
pub open spec fn is_unit(bytes: Seq<u8>) -> bool {
    bytes.len() >= 1 && bytes[0] == NIL_MARKER
}

/// Serialises `()` with `rmp_serde::Serializer` into a fresh vector. The
/// serialiser writes the unit value as the nil marker and nothing else, and
/// writing into a vector does not fail.
#[verifier::external_body]
fn encode_unit() -> (r: Option<Vec<u8>>)
    ensures
        r.is_some(),
        r matches Some(b) ==> b@ == seq![NIL_MARKER],
{
    let mut bytes = Vec::new();
    match ().serialize(&mut rmp_serde::Serializer::new(&mut bytes)) {
        Ok(()) => Some(bytes),
        Err(_) => None,
    }
}

/// Deserialises `()` with `rmp_serde::Deserializer` from `bytes` and says
/// whether that succeeded. The deserialiser reads one marker byte and
/// accepts it as the unit value exactly when it is the nil marker; what
/// follows the marker is not read.
#[verifier::external_body]
fn decode_unit(bytes: &[u8]) -> (r: bool)
    ensures
        r == is_unit(bytes@),
{
    <()>::deserialize(&mut rmp_serde::Deserializer::new(bytes)).is_ok()
}

/// The session that carries nothing: the session type of a middleware
/// until another one is chosen.
impl SessionValue for () {
    open spec fn starts_as(value: ()) -> bool {
        true
    }

    /// The unit value always encodes, to the nil marker alone.
    open spec fn encodes_to(&self, outcome: Option<Seq<u8>>) -> bool {
        outcome == Some(seq![NIL_MARKER])
    }

    /// Bytes decode to the unit value exactly when they stand for it.
    open spec fn decodes_to(bytes: Seq<u8>, outcome: Option<()>) -> bool {
        outcome.is_some() == is_unit(bytes)
    }

    fn initial() -> (r: ()) {
        ()
    }

    fn encode(&self) -> (r: Option<Vec<u8>>) {
        encode_unit()
    }

    fn decode(bytes: &[u8]) -> (r: Option<()>) {
        if decode_unit(bytes) {
            Some(())
        } else {
            None
        }
    }
}

/// The codec of the unit value loses nothing.
pub proof fn lemma_unit_is_faithful()
    ensures
        is_faithful::<()>(),
{
    assert forall|value: (), bytes: Seq<u8>, outcome: Option<()>|
        #[trigger] value.encodes_to(Some(bytes)) && #[trigger] <() as SessionValue>::decodes_to(
            bytes,
            outcome,
        ) implies outcome == Some(value) by {
        assert(bytes[0] == NIL_MARKER);
        assert(is_unit(bytes));
    }
}

} // verus!
