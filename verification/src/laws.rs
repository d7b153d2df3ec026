//! What holds of every request, stated over the relations that the
//! contracts of the middleware use.

use crate::backend::Backend;
use crate::codec::{is_faithful, SessionValue};
use crate::cookie::{cookie_text, SessionCookieConfig};
use crate::error::SessionError;
use crate::http::{Request, Response, ResponseView, INTERNAL_SERVER_ERROR};
use crate::memory::MemoryStore;
use crate::middleware::{
    announced, is_finished, is_post_processed, is_stored, is_written, requested_identifier,
    RequestError, SessionMiddleware,
};
use crate::session::{SessionCookieState, SessionData, SessionDataState};
use crate::state::State;
use vstd::prelude::*;

verus! {

/// A value that was encoded, stored in memory under an identifier and read
/// back under the same identifier decodes to itself, provided its codec
/// loses nothing.
pub proof fn law_round_trip<T: SessionValue>(
    before: MemoryStore,
    after: MemoryStore,
    identifier: Seq<char>,
    value: T,
    bytes: Seq<u8>,
    stored: bool,
    read: Result<Option<Vec<u8>>, SessionError>,
    decoded: Option<T>,
)
    requires
        is_faithful::<T>(),
        value.encodes_to(Some(bytes)),
        before.persists(identifier, bytes, after, stored),
        after.reads(identifier, read),
        read matches Ok(Some(found)) ==> T::decodes_to(found@, decoded),
    ensures
        stored,
        read matches Ok(Some(found)) && found@ == bytes,
        decoded == Some(value),
{
}

/// A write in memory is the last word on its identifier and touches no
/// other: a later write under the same identifier replaces it, and a write
/// under another identifier leaves it readable.
pub proof fn law_last_write_wins(
    first: MemoryStore,
    second: MemoryStore,
    third: MemoryStore,
    identifier: Seq<char>,
    other: Seq<char>,
    earlier: Seq<u8>,
    later: Seq<u8>,
)
    requires
        first.persists(identifier, earlier, second, true),
        second.persists(other, later, third, true),
    ensures
        third@.contains_key(identifier),
        third@[identifier] == if other == identifier {
            later
        } else {
            earlier
        },
{
}

/// A session that was made during the request is announced by exactly one
/// `Set-Cookie` line, whatever the handlers did to its value, provided the
/// value encodes and the backend does not refuse it. The line replaces any
/// that the handlers set, and the rest of the response is theirs.
pub proof fn law_new_session_sets_one_cookie<B: Backend, T: SessionValue>(
    session: SessionData<B, T>,
    handled: (State<B, T>, Response),
    done: (State<B, T>, Response, Option<B>),
)
    requires
        handled.0.session() == Some(session),
        session.cookie_state() == SessionCookieState::New,
        !session.value().encodes_to(None),
        forall|bytes: Seq<u8>, after: B|
            !#[trigger] session.backend().persists(session.identifier(), bytes, after, false),
        is_finished(handled, done),
    ensures
        done.1@.set_cookie.len() == 1,
        done.1@.set_cookie[0] == cookie_text(
            session.cookie_config().spec_name(),
            session.cookie_config().spec_secure(),
            session.identifier(),
        ),
        done.1@.status == handled.1@.status,
        done.1@.headers == handled.1@.headers,
        done.1@.body == handled.1@.body,
{
    session.lemma_new_is_dirty();
}

/// A store in memory refuses no write, so a new session whose value encodes
/// is always announced by exactly one `Set-Cookie` line, and is stored, as
/// the bytes that it encodes to, under the identifier that the line
/// carries.
pub proof fn law_new_session_in_memory<T: SessionValue>(
    session: SessionData<MemoryStore, T>,
    handled: (State<MemoryStore, T>, Response),
    done: (State<MemoryStore, T>, Response, Option<MemoryStore>),
)
    requires
        handled.0.session() == Some(session),
        session.cookie_state() == SessionCookieState::New,
        !session.value().encodes_to(None),
        is_finished(handled, done),
    ensures
        done.1@.set_cookie.len() == 1,
        done.1@ == announced(session, handled.1@),
        done.2 matches Some(backend) && exists|bytes: Seq<u8>|
            #[trigger] session.value().encodes_to(Some(bytes)) && backend@
                == session.backend()@.insert(session.identifier(), bytes),
{
    session.lemma_new_is_dirty();
    let backend = done.2->0;
    assert(is_written(session, announced(session, handled.1@), done.1@, backend));
    let bytes = choose|bytes: Seq<u8>|
        #[trigger] session.value().encodes_to(Some(bytes)) && is_stored(
            session,
            bytes,
            announced(session, handled.1@),
            done.1@,
            backend,
        );
    assert(session.value().encodes_to(Some(bytes)) && backend@ == session.backend()@.insert(
        session.identifier(),
        bytes,
    ));
}

/// A session that the client already had and that no handler wrote to
/// costs nothing: the backend is released as it was, without having been
/// asked to store anything, and the response passes as the handlers left
/// it, without a cookie added.
pub proof fn law_clean_session_is_left_alone<B: Backend, T: SessionValue>(
    session: SessionData<B, T>,
    handled: (State<B, T>, Response),
    done: (State<B, T>, Response, Option<B>),
)
    requires
        handled.0.session() == Some(session),
        session.data_state() == SessionDataState::Clean,
        is_finished(handled, done),
    ensures
        session.cookie_state() == SessionCookieState::Existing,
        done.1@ == handled.1@,
        done.2 == Some(session.backend()),
        done.0.session() is None,
{
    session.lemma_new_is_dirty();
}

/// Whether the backend was asked once to store `bytes` for `session`, with
/// the response decided by its answer `stored`.
pub open spec fn is_written_once<B: Backend, T: SessionValue>(
    session: SessionData<B, T>,
    bytes: Seq<u8>,
    stored: bool,
    response: ResponseView,
    out: ResponseView,
    backend: B,
) -> bool {
    &&& session.value().encodes_to(Some(bytes))
    &&& session.backend().persists(session.identifier(), bytes, backend, stored)
    &&& out == if stored {
        response
    } else {
        ResponseView::empty(INTERNAL_SERVER_ERROR)
    }
}

/// A session that the client already had and that a handler wrote to is
/// handed to the backend once, under its identifier and as the bytes that
/// the value encodes to as the handlers left it. No cookie is added: the
/// response is the handlers' response if the backend stored the value, and
/// the generic failure if it did not.
pub proof fn law_dirty_session_is_written_once<B: Backend, T: SessionValue>(
    session: SessionData<B, T>,
    handled: (State<B, T>, Response),
    done: (State<B, T>, Response, Option<B>),
)
    requires
        handled.0.session() == Some(session),
        session.cookie_state() == SessionCookieState::Existing,
        session.data_state() == SessionDataState::Dirty,
        !session.value().encodes_to(None),
        is_finished(handled, done),
    ensures
        done.2 matches Some(backend) && exists|bytes: Seq<u8>, stored: bool| #[trigger]
            is_written_once(session, bytes, stored, handled.1@, done.1@, backend),
{
    let backend = done.2->0;
    assert(is_post_processed(session, handled.1@, done.1@, backend));
    assert(is_written(session, handled.1@, done.1@, backend));
    let bytes = choose|bytes: Seq<u8>|
        #[trigger] session.value().encodes_to(Some(bytes)) && is_stored(
            session,
            bytes,
            handled.1@,
            done.1@,
            backend,
        );
    if session.backend().persists(session.identifier(), bytes, backend, true) && done.1@
        == handled.1@ {
        assert(is_written_once(session, bytes, true, handled.1@, done.1@, backend));
    } else {
        assert(is_written_once(session, bytes, false, handled.1@, done.1@, backend));
    }
}

/// A value that does not encode is never handed to the backend, and the
/// client gets the generic failure.
pub proof fn law_unencodable_value_fails_response<B: Backend, T: SessionValue>(
    session: SessionData<B, T>,
    handled: (State<B, T>, Response),
    done: (State<B, T>, Response, Option<B>),
)
    requires
        handled.0.session() == Some(session),
        session.data_state() == SessionDataState::Dirty,
        forall|bytes: Seq<u8>| !#[trigger] session.value().encodes_to(Some(bytes)),
        is_finished(handled, done),
    ensures
        done.1@ == ResponseView::empty(INTERNAL_SERVER_ERROR),
        done.2 == Some(session.backend()),
{
}

/// What a request wrote to memory, the next request finds: after a dirty
/// session whose value encodes has been post-processed, the released
/// backend holds a record under the session's identifier, and with a codec
/// that loses nothing that record decodes to the session's value.
pub proof fn law_written_session_is_found_again<T: SessionValue>(
    session: SessionData<MemoryStore, T>,
    handled: (State<MemoryStore, T>, Response),
    done: (State<MemoryStore, T>, Response, Option<MemoryStore>),
    read: Result<Option<Vec<u8>>, SessionError>,
    decoded: Option<T>,
)
    requires
        is_faithful::<T>(),
        handled.0.session() == Some(session),
        session.data_state() == SessionDataState::Dirty,
        !session.value().encodes_to(None),
        is_finished(handled, done),
        done.2 matches Some(backend) && backend.reads(session.identifier(), read),
        read matches Ok(Some(found)) ==> T::decodes_to(found@, decoded),
    ensures
        read matches Ok(Some(found)) && session.value().encodes_to(Some(found@)),
        decoded == Some(session.value()),
{
    let backend = done.2->0;
    let response = announced(session, handled.1@);
    assert(is_written(session, response, done.1@, backend));
    let bytes = choose|bytes: Seq<u8>|
        #[trigger] session.value().encodes_to(Some(bytes)) && is_stored(
            session,
            bytes,
            response,
            done.1@,
            backend,
        );
    assert(backend@[session.identifier()] == bytes);
}

/// An identifier without a record behind it counts for nothing: the
/// request goes on as one without a cookie does, with a session made from
/// nothing under an identifier from the backend's generator, holding a
/// starting value, new and therefore announced and written back.
pub proof fn law_missing_record_starts_afresh<B: Backend, T: SessionValue>(
    middleware: SessionMiddleware<B, T>,
    state: State<B, T>,
    identifier: Seq<char>,
    outcome: Result<State<B, T>, (State<B, T>, SessionError)>,
)
    requires
        middleware.is_loaded(state, identifier, Ok(None), outcome),
    ensures
        outcome matches Ok(started) && middleware.is_new_session(started),
        outcome matches Ok(started) && started.session() matches Some(session) && T::starts_as(
            session.value(),
        ) && session.cookie_state() == SessionCookieState::New && session.data_state()
            == SessionDataState::Dirty && middleware.backend().mints(session.identifier()),
{
}

/// A record that does not decode fails the request before any handler
/// runs: the outcome is the decoding error with the state as it came in,
/// whatever the handlers would have done.
pub proof fn law_undecodable_record_fails_request<B: Backend, T: SessionValue, E, Chain>(
    middleware: SessionMiddleware<B, T>,
    state: State<B, T>,
    request: Request,
    chain: Chain,
    identifier: Seq<char>,
    bytes: Vec<u8>,
    started: Result<State<B, T>, (State<B, T>, SessionError)>,
    r: Result<(State<B, T>, Response, Option<B>), (State<B, T>, RequestError<E>)>,
) where Chain: FnOnce(State<B, T>, Request) -> Result<(State<B, T>, Response), (State<B, T>, E)>
    requires
        forall|value: T| !#[trigger] T::decodes_to(bytes@, Some(value)),
        middleware.is_loaded(state, identifier, Ok(Some(bytes)), started),
        SessionMiddleware::<B, T>::is_continued(started, request, chain, r),
    ensures
        started == Err::<State<B, T>, (State<B, T>, SessionError)>(
            (state, SessionError::Deserialize),
        ),
        r == Err::<(State<B, T>, Response, Option<B>), (State<B, T>, RequestError<E>)>(
            (state, RequestError::Session(SessionError::Deserialize)),
        ),
{
}

/// A failed read fails the request before any handler runs, with the
/// backend's error.
pub proof fn law_failed_read_fails_request<B: Backend, T: SessionValue, E, Chain>(
    middleware: SessionMiddleware<B, T>,
    state: State<B, T>,
    request: Request,
    chain: Chain,
    identifier: Seq<char>,
    error: SessionError,
    started: Result<State<B, T>, (State<B, T>, SessionError)>,
    r: Result<(State<B, T>, Response, Option<B>), (State<B, T>, RequestError<E>)>,
) where Chain: FnOnce(State<B, T>, Request) -> Result<(State<B, T>, Response), (State<B, T>, E)>
    requires
        middleware.is_loaded(state, identifier, Err(error), started),
        SessionMiddleware::<B, T>::is_continued(started, request, chain, r),
    ensures
        r == Err::<(State<B, T>, Response, Option<B>), (State<B, T>, RequestError<E>)>(
            (state, RequestError::Session(error)),
        ),
{
}

/// Whether `after` is the session `before` as handlers leave it that only
/// read and write its value: it keeps its identifier, its origin, its
/// backend and its configuration, and it is clean only if it was clean and
/// holds the value that it held.
pub open spec fn is_same_session<B: Backend, T: SessionValue>(
    before: SessionData<B, T>,
    after: SessionData<B, T>,
) -> bool {
    &&& after.cookie_state() == before.cookie_state()
    &&& after.identifier() == before.identifier()
    &&& after.backend() == before.backend()
    &&& after.cookie_config() == before.cookie_config()
    &&& after.data_state() == SessionDataState::Clean ==> before.data_state()
        == SessionDataState::Clean && after.value() == before.value()
}

/// A request that carries no identifier, because it has no `Cookie` header
/// or because the header holds no cookie of the configured name, comes to a
/// response with exactly one `Set-Cookie` line, which carries the identifier of the session that was
/// made for it, whether or not the handlers wrote to the session, provided
/// the value encodes and the backend does not refuse it.
pub proof fn law_request_without_cookie<B: Backend, T: SessionValue, E>(
    middleware: SessionMiddleware<B, T>,
    state: State<B, T>,
    request: Request,
    entered: State<B, T>,
    before: SessionData<B, T>,
    left: State<B, T>,
    after: SessionData<B, T>,
    response: Response,
    r: Result<(State<B, T>, Response, Option<B>), (State<B, T>, RequestError<E>)>,
)
    requires
        requested_identifier(middleware.cookie_config(), request) is None,
        middleware.is_started(state, request, Ok(entered)),
        entered.session() == Some(before),
        left.session() == Some(after),
        is_same_session(before, after),
        !after.value().encodes_to(None),
        forall|bytes: Seq<u8>, backend: B|
            !#[trigger] middleware.backend().persists(before.identifier(), bytes, backend, false),
        SessionMiddleware::<B, T>::is_concluded::<E>(Ok((left, response)), r),
    ensures
        T::starts_as(before.value()),
        middleware.backend().mints(before.identifier()),
        r matches Ok(done) && done.1@ == response@.with_cookie(
            cookie_text(
                middleware.cookie_config().spec_name(),
                middleware.cookie_config().spec_secure(),
                before.identifier(),
            ),
        ),
        r matches Ok(done) && done.1@.set_cookie.len() == 1,
{
    let done = r->Ok_0;
    law_new_session_sets_one_cookie(after, (left, response), done);
    after.lemma_new_is_dirty();
}

/// A request with the cookie of a stored session whose handlers leave the
/// session as it was loaded asks nothing more of the backend and gets the
/// handlers' response, with no cookie added.
pub proof fn law_request_with_untouched_session<B: Backend, T: SessionValue, E>(
    middleware: SessionMiddleware<B, T>,
    state: State<B, T>,
    identifier: Seq<char>,
    bytes: Vec<u8>,
    entered: State<B, T>,
    session: SessionData<B, T>,
    left: State<B, T>,
    response: Response,
    r: Result<(State<B, T>, Response, Option<B>), (State<B, T>, RequestError<E>)>,
)
    requires
        middleware.is_loaded(state, identifier, Ok(Some(bytes)), Ok(entered)),
        entered.session() == Some(session),
        left.session() == Some(session),
        SessionMiddleware::<B, T>::is_concluded::<E>(Ok((left, response)), r),
    ensures
        T::decodes_to(bytes@, Some(session.value())),
        session.identifier() == identifier,
        r matches Ok(done) && done.1@ == response@ && done.2 == Some(middleware.backend()),
{
    let done = r->Ok_0;
    law_clean_session_is_left_alone(session, (left, response), done);
}

/// A request with the cookie of a stored session whose handlers write to
/// the session hands the session to the backend once, under the identifier
/// that the client sent and as the bytes that the value encodes to as the
/// handlers left it. No cookie is added.
pub proof fn law_request_with_written_session<B: Backend, T: SessionValue, E>(
    middleware: SessionMiddleware<B, T>,
    state: State<B, T>,
    identifier: Seq<char>,
    bytes: Vec<u8>,
    entered: State<B, T>,
    before: SessionData<B, T>,
    left: State<B, T>,
    after: SessionData<B, T>,
    response: Response,
    r: Result<(State<B, T>, Response, Option<B>), (State<B, T>, RequestError<E>)>,
)
    requires
        middleware.is_loaded(state, identifier, Ok(Some(bytes)), Ok(entered)),
        entered.session() == Some(before),
        left.session() == Some(after),
        is_same_session(before, after),
        after.data_state() == SessionDataState::Dirty,
        !after.value().encodes_to(None),
        SessionMiddleware::<B, T>::is_concluded::<E>(Ok((left, response)), r),
    ensures
        after.identifier() == identifier,
        after.backend() == middleware.backend(),
        r matches Ok(done) && done.2 matches Some(backend) && exists|
            written: Seq<u8>,
            stored: bool,
        | #[trigger]
            is_written_once(after, written, stored, response@, done.1@, backend),
{
    let done = r->Ok_0;
    law_dirty_session_is_written_once(after, (left, response), done);
}

/// With a codec that loses nothing, building a session from the bytes that
/// a value encodes to gives that value back, as the client's own session:
/// existing, clean, under the identifier that the client sent.
pub proof fn law_construct_gives_the_value_back<B: Backend, T: SessionValue>(
    value: T,
    bytes: Seq<u8>,
    backend: B,
    cookie_config: SessionCookieConfig,
    identifier: Seq<char>,
    outcome: Result<SessionData<B, T>, SessionError>,
)
    requires
        is_faithful::<T>(),
        value.encodes_to(Some(bytes)),
        SessionData::is_constructed(outcome, backend, cookie_config, identifier, Some(bytes)),
    ensures
        outcome matches Ok(session) && session.value() == value && session.cookie_state()
            == SessionCookieState::Existing && session.data_state() == SessionDataState::Clean
            && session.identifier() == identifier && session.backend() == backend
            && session.cookie_config() == cookie_config,
{
}

/// With a codec that loses nothing, loading the record that a value was
/// written as puts into the state the session with that value, existing
/// and clean, under the identifier that was asked for and with the
/// middleware's backend and configuration, in place of whatever session
/// the state held.
pub proof fn law_load_gives_the_value_back<B: Backend, T: SessionValue>(
    middleware: SessionMiddleware<B, T>,
    state: State<B, T>,
    identifier: Seq<char>,
    value: T,
    stored: Vec<u8>,
    outcome: Result<State<B, T>, (State<B, T>, SessionError)>,
)
    requires
        is_faithful::<T>(),
        value.encodes_to(Some(stored@)),
        middleware.is_loaded(state, identifier, Ok(Some(stored)), outcome),
    ensures
        outcome matches Ok(loaded) && loaded.session() matches Some(session) && session.value()
            == value && session.cookie_state() == SessionCookieState::Existing
            && session.data_state() == SessionDataState::Clean && session.identifier()
            == identifier && session.backend() == middleware.backend()
            && session.cookie_config() == middleware.cookie_config(),
{
}

/// With a codec that loses nothing, the bytes that a write hands to the
/// backend stand for the session's value and for nothing else: no flag and
/// no identifier is part of them, and whatever they decode to is the
/// value.
pub proof fn law_written_bytes_are_the_value<B: Backend, T: SessionValue>(
    session: SessionData<B, T>,
    bytes: Seq<u8>,
    stored: bool,
    response: ResponseView,
    out: ResponseView,
    backend: B,
    decoded: Option<T>,
)
    requires
        is_faithful::<T>(),
        is_written_once(session, bytes, stored, response, out, backend),
        T::decodes_to(bytes, decoded),
    ensures
        decoded == Some(session.value()),
{
}

/// With a codec that loses nothing, a request that carries the identifier
/// of a record in a store shows its handlers the value that the record was
/// written as, on an existing and clean session under that identifier.
pub proof fn law_request_sees_the_stored_value<T: SessionValue>(
    middleware: SessionMiddleware<MemoryStore, T>,
    state: State<MemoryStore, T>,
    identifier: Seq<char>,
    value: T,
    outcome: Result<State<MemoryStore, T>, (State<MemoryStore, T>, SessionError)>,
)
    requires
        is_faithful::<T>(),
        middleware.backend()@.contains_key(identifier),
        value.encodes_to(Some(middleware.backend()@[identifier])),
        middleware.is_read(state, identifier, outcome),
    ensures
        outcome matches Ok(entered) && entered.session() matches Some(session) && session.value()
            == value && session.cookie_state() == SessionCookieState::Existing
            && session.data_state() == SessionDataState::Clean && session.identifier()
            == identifier,
{
    let result = choose|result: Result<Option<Vec<u8>>, SessionError>|
        #[trigger] middleware.backend().reads(identifier, result) && middleware.is_loaded(
            state,
            identifier,
            result,
            outcome,
        );
    law_load_gives_the_value_back(middleware, state, identifier, value, result->Ok_0->0, outcome);
}

/// With a codec that loses nothing, a request that carries the identifier
/// of a record in a store and whose handlers write to the session leaves
/// the store with a record, under the same identifier, that the value
/// encodes to as the handlers left it. The response is the handlers' own;
/// no cookie is added.
pub proof fn law_request_rewrites_the_stored_value<T: SessionValue, E>(
    middleware: SessionMiddleware<MemoryStore, T>,
    state: State<MemoryStore, T>,
    identifier: Seq<char>,
    value: T,
    entered: State<MemoryStore, T>,
    before: SessionData<MemoryStore, T>,
    left: State<MemoryStore, T>,
    after: SessionData<MemoryStore, T>,
    response: Response,
    r: Result<
        (State<MemoryStore, T>, Response, Option<MemoryStore>),
        (State<MemoryStore, T>, RequestError<E>),
    >,
)
    requires
        is_faithful::<T>(),
        middleware.backend()@.contains_key(identifier),
        value.encodes_to(Some(middleware.backend()@[identifier])),
        middleware.is_read(state, identifier, Ok(entered)),
        entered.session() == Some(before),
        left.session() == Some(after),
        is_same_session(before, after),
        after.data_state() == SessionDataState::Dirty,
        !after.value().encodes_to(None),
        SessionMiddleware::<MemoryStore, T>::is_concluded::<E>(Ok((left, response)), r),
    ensures
        before.value() == value,
        r matches Ok(done) && done.1@ == response@,
        r matches Ok(done) && done.2 matches Some(store) && store@.contains_key(identifier)
            && after.value().encodes_to(Some(store@[identifier])),
{
    law_request_sees_the_stored_value(middleware, state, identifier, value, Ok(entered));
    let done = r->Ok_0;
    law_dirty_session_is_written_once(after, (left, response), done);
    let store = done.2->0;
    let (bytes, stored) = choose|bytes: Seq<u8>, stored: bool| #[trigger]
        is_written_once(after, bytes, stored, response@, done.1@, store);
    assert(store@[identifier] == bytes);
}

/// Without a session in the state at the end of the request, the response
/// passes through as it is and nothing is asked of any backend.
pub proof fn law_no_session_passes_through<B: Backend, T: SessionValue>(
    handled: (State<B, T>, Response),
    done: (State<B, T>, Response, Option<B>),
)
    requires
        handled.0.session() is None,
        is_finished(handled, done),
    ensures
        done.0 == handled.0,
        done.1 == handled.1,
        done.2 is None,
{
}

} // verus!
