//! The session middleware: what happens around the handlers of a request.
//!
//! Before the handlers run, the session is looked up under the identifier
//! that the request's cookie carries, or made from nothing. After they have
//! run, a session that was made during the request is announced to the
//! client by a cookie, and a session that has to be written back is handed
//! to the backend. If that fails, the client gets a generic failure in
//! place of the handlers' response.

use crate::backend::{Backend, ConfigError, NewBackend};
use crate::codec::{payload, SessionValue};
use crate::cookie::{
    cookie_text, cookie_value, SecureCookie, SessionCookieConfig, DEFAULT_COOKIE_NAME,
};
use crate::error::SessionError;
use crate::handle::share;
use crate::http::{Request, Response, ResponseView, INTERNAL_SERVER_ERROR};
use crate::identifier::SessionIdentifier;
use crate::session::{SessionCookieState, SessionData, SessionDataState};
use crate::state::State;
use std::marker::PhantomData;
use std::sync::Arc;
use vstd::prelude::*;

verus! {

/// Why a request did not come to a response.
#[derive(Debug)]
pub enum RequestError<E> {
    /// The session could not be loaded; no handler ran.
    Session(SessionError),
    /// A handler failed; its error is passed on as it is.
    Handler(E),
}

/// The identifier that `request` carries under the cookie name of
/// `config`. A request without a `Cookie` header carries none, and so does
/// one whose header holds no cookie of that name.
pub open spec fn requested_identifier(config: SessionCookieConfig, request: Request) -> Option<
    Seq<char>,
> {
    match request.spec_cookie_header() {
        Some(header) => cookie_value(header, config.spec_name()),
        None => None,
    }
}

/// The response with the cookie that `session` calls for: a session made
/// during the request is announced, any other leaves the response alone.
pub open spec fn announced<B: Backend, T: SessionValue>(
    session: SessionData<B, T>,
    response: ResponseView,
) -> ResponseView {
    if session.cookie_state() == SessionCookieState::New {
        response.with_cookie(
            cookie_text(
                session.cookie_config().spec_name(),
                session.cookie_config().spec_secure(),
                session.identifier(),
            ),
        )
    } else {
        response
    }
}

/// Whether handing `bytes` to the backend of `session`, under the session's
/// identifier, may turn `response` into `out` and leave the backend as
/// `backend`. The response survives only if the backend reports success;
/// otherwise the generic failure takes its place.
pub open spec fn is_stored<B: Backend, T: SessionValue>(
    session: SessionData<B, T>,
    bytes: Seq<u8>,
    response: ResponseView,
    out: ResponseView,
    backend: B,
) -> bool {
    ||| session.backend().persists(session.identifier(), bytes, backend, true) && out == response
    ||| session.backend().persists(session.identifier(), bytes, backend, false) && out
        == ResponseView::empty(INTERNAL_SERVER_ERROR)
}

/// Whether writing `session` back may turn `response` into `out` and leave
/// the session's backend as `backend`.
///
/// A value that does not encode is not handed to the backend at all, and
/// the generic failure takes the place of the response. Any other is
/// handed to the backend once, as the bytes that it encodes to.
pub open spec fn is_written<B: Backend, T: SessionValue>(
    session: SessionData<B, T>,
    response: ResponseView,
    out: ResponseView,
    backend: B,
) -> bool {
    ||| session.value().encodes_to(None) && out == ResponseView::empty(INTERNAL_SERVER_ERROR)
        && backend == session.backend()
    ||| exists|bytes: Seq<u8>|
        #[trigger] session.value().encodes_to(Some(bytes)) && is_stored(
            session,
            bytes,
            response,
            out,
            backend,
        )
}

/// Whether post-processing `session` may turn `response` into `out` and
/// leave the session's backend as `backend`: first the cookie, then the
/// write, and no write for a clean session.
pub open spec fn is_post_processed<B: Backend, T: SessionValue>(
    session: SessionData<B, T>,
    response: ResponseView,
    out: ResponseView,
    backend: B,
) -> bool {
    if session.data_state() == SessionDataState::Dirty {
        is_written(session, announced(session, response), out, backend)
    } else {
        out == announced(session, response) && backend == session.backend()
    }
}

/// Whether `done` is what the end of a request may make of the handlers'
/// state and response. Without a session in the state the response passes
/// through. With one, the session leaves the state, is post-processed, and
/// its backend handle is released.
pub open spec fn is_finished<B: Backend, T: SessionValue>(
    handled: (State<B, T>, Response),
    done: (State<B, T>, Response, Option<B>),
) -> bool {
    match handled.0.session() {
        None => done.0 == handled.0 && done.1 == handled.1 && done.2 is None,
        Some(session) => {
            &&& done.0.session() is None
            &&& done.2 matches Some(backend)
            &&& is_post_processed(session, handled.1@, done.1@, backend)
        },
    }
}

/// Sets the cookie that announces `session_data` on `response`, in place of
/// whatever `Set-Cookie` lines it had.
pub fn send_cookie<B: Backend, T: SessionValue>(
    response: &mut Response,
    session_data: &SessionData<B, T>,
)
    ensures
        final(response)@ == old(response)@.with_cookie(
            cookie_text(
                session_data.cookie_config().spec_name(),
                session_data.cookie_config().spec_secure(),
                session_data.identifier(),
            ),
        ),
{
    let cookie_string = session_data.config().cookie_string(
        session_data.session_identifier().as_str(),
    );
    response.set_cookie(cookie_string);
}

/// What the end of a request did to the handlers' response.
#[derive(Debug, Clone, Copy, PartialEq, Eq, Structural)]
pub enum Ending {
    /// The response is the handlers' own, untouched.
    Passed,
    /// The response is the handlers' own with the session's cookie set.
    Announced,
    /// The generic failure took the place of the handlers' response.
    Failed,
}

/// Whether handing `session` over to its backend may end with the backend
/// as `backend`, having stored the value where `stored` holds.
///
/// A value that does not encode is not handed to the backend at all. Any
/// other is handed to it once, under the session's identifier, as the
/// bytes that it encodes to.
pub open spec fn is_handed_over<B: Backend, T: SessionValue>(
    session: SessionData<B, T>,
    stored: bool,
    backend: B,
) -> bool {
    ||| session.value().encodes_to(None) && !stored && backend == session.backend()
    ||| exists|bytes: Seq<u8>|
        #[trigger] session.value().encodes_to(Some(bytes)) && session.backend().persists(
            session.identifier(),
            bytes,
            backend,
            stored,
        )
}

/// A session that was handed over was written, whatever the response: the
/// response survives where the value was stored, and the generic failure
/// takes its place where it was not.
pub proof fn lemma_handed_over_is_written<B: Backend, T: SessionValue>(
    session: SessionData<B, T>,
    stored: bool,
    backend: B,
    response: ResponseView,
)
    requires
        is_handed_over(session, stored, backend),
    ensures
        is_written(
            session,
            response,
            if stored {
                response
            } else {
                ResponseView::empty(INTERNAL_SERVER_ERROR)
            },
            backend,
        ),
{
    let out = if stored {
        response
    } else {
        ResponseView::empty(INTERNAL_SERVER_ERROR)
    };
    if session.value().encodes_to(None) && !stored && backend == session.backend() {
    } else {
        let bytes = choose|bytes: Seq<u8>|
            #[trigger] session.value().encodes_to(Some(bytes)) && session.backend().persists(
                session.identifier(),
                bytes,
                backend,
                stored,
            );
        assert(session.value().encodes_to(Some(bytes)) && is_stored(
            session,
            bytes,
            response,
            out,
            backend,
        ));
    }
}

/// Encodes the session's value and hands it to the session's backend, then
/// releases the backend handle and says whether the value was stored.
pub fn hand_over<B: Backend, T: SessionValue>(session_data: SessionData<B, T>) -> (r: (bool, B))
    ensures
        is_handed_over(session_data, r.0, r.1),
{
    let (value, identifier, mut backend) = session_data.into_parts();
    match value.encode() {
        None => (false, backend),
        Some(bytes) => {
            let stored = backend.persist_session(identifier, bytes.as_slice()).is_ok();
            assert(session_data.value().encodes_to(Some(bytes@))
                && session_data.backend().persists(
                session_data.identifier(),
                bytes@,
                backend,
                stored,
            ));
            (stored, backend)
        },
    }
}

/// Writes the session back and decides the response by the outcome: the
/// response as it is where the value was stored, the generic failure where
/// it was not.
pub fn write_session<B: Backend, T: SessionValue>(
    state: State<B, T>,
    response: Response,
    session_data: SessionData<B, T>,
) -> (r: (State<B, T>, Response, B))
    ensures
        r.0 == state,
        is_written(session_data, response@, r.1@, r.2),
        r.1 == response || r.1@ == ResponseView::empty(INTERNAL_SERVER_ERROR),
{
    let (stored, backend) = hand_over(session_data);
    proof {
        lemma_handed_over_is_written(session_data, stored, backend, response@);
    }
    if stored {
        (state, response, backend)
    } else {
        (state, Response::internal_error(), backend)
    }
}

/// Whether `ending` tells truly what became of the handlers' response
/// `before` on its way to `after`.
pub open spec fn is_told<B: Backend, T: SessionValue>(
    session: Option<SessionData<B, T>>,
    before: Response,
    after: Response,
    ending: Ending,
) -> bool {
    match ending {
        Ending::Passed => after == before && (session matches Some(s) ==> s.cookie_state()
            == SessionCookieState::Existing),
        Ending::Announced => session matches Some(s) && s.cookie_state()
            == SessionCookieState::New && after@ == announced(s, before@),
        Ending::Failed => session matches Some(s) && s.data_state() == SessionDataState::Dirty
            && after@ == ResponseView::empty(INTERNAL_SERVER_ERROR),
    }
}

/// Ends a request and tells what became of the response: takes the session
/// out of the state, announces it if it is new, and writes it back if it
/// is dirty.
pub fn end_request<B: Backend, T: SessionValue>(handled: (State<B, T>, Response)) -> (r: (
    State<B, T>,
    Response,
    Option<B>,
    Ending,
))
    ensures
        is_finished(handled, (r.0, r.1, r.2)),
        is_told(handled.0.session(), handled.1, r.1, r.3),
{
    let (mut state, mut response) = handled;
    match state.take() {
        Some(session_data) => {
            proof {
                session_data.lemma_new_is_dirty();
            }
            let is_new = session_data.is_new();
            if is_new {
                send_cookie(&mut response, &session_data);
            }
            if session_data.is_dirty() {
                let (stored, backend) = hand_over(session_data);
                proof {
                    lemma_handed_over_is_written(session_data, stored, backend, response@);
                }
                if !stored {
                    (state, Response::internal_error(), Some(backend), Ending::Failed)
                } else if is_new {
                    (state, response, Some(backend), Ending::Announced)
                } else {
                    (state, response, Some(backend), Ending::Passed)
                }
            } else {
                let (_, _, backend) = session_data.into_parts();
                (state, response, Some(backend), Ending::Passed)
            }
        },
        None => (state, response, None, Ending::Passed),
    }
}

/// Ends a request: takes the session out of the state, announces it if it
/// is new, and writes it back if it is dirty.
pub fn persist_session<B: Backend, T: SessionValue>(handled: (State<B, T>, Response)) -> (r: (
    State<B, T>,
    Response,
    Option<B>,
))
    ensures
        is_finished(handled, r),
{
    let (state, response, backend, _) = end_request(handled);
    (state, response, backend)
}

/// Maker of session middleware: holds the backend factory and the cookie
/// configuration that every middleware it makes will share.
pub struct NewSessionMiddleware<B: NewBackend, T: SessionValue> {
    new_backend: B,
    cookie_config: Arc<SessionCookieConfig>,
    phantom: PhantomData<T>,
}

/// Session middleware for one worker or connection.
pub struct SessionMiddleware<B: Backend, T: SessionValue> {
    backend: B,
    cookie_config: Arc<SessionCookieConfig>,
    phantom: PhantomData<T>,
}

impl<B: NewBackend, T: SessionValue> NewSessionMiddleware<B, T> {
    /// The backend factory.
    pub closed spec fn factory(&self) -> B {
        self.new_backend
    }

    /// The cookie configuration.
    pub closed spec fn cookie_config(&self) -> SessionCookieConfig {
        *self.cookie_config
    }

    /// The same middleware with the session cookie under another name.
    pub fn with_cookie_name(self, name: String) -> (r: Self)
        ensures
            r.factory() == self.factory(),
            r.cookie_config().spec_name() == name@,
            r.cookie_config().spec_secure() == self.cookie_config().spec_secure(),
    {
        let secure = self.cookie_config.secure();
        NewSessionMiddleware {
            new_backend: self.new_backend,
            cookie_config: Arc::new(SessionCookieConfig::new(name, secure)),
            phantom: PhantomData,
        }
    }

    /// Makes the middleware for one worker or connection: a backend from
    /// the factory, and the shared cookie configuration. Fails exactly
    /// when the factory does.
    pub fn new_middleware(&self) -> (r: Result<SessionMiddleware<B::Instance, T>, ConfigError>)
        ensures
            match r {
                Ok(middleware) => self.factory().makes(Ok(middleware.backend()))
                    && middleware.cookie_config() == self.cookie_config(),
                Err(e) => self.factory().makes(Err(e)),
            },
    {
        match self.new_backend.new_backend() {
            Ok(backend) => Ok(
                SessionMiddleware {
                    backend,
                    cookie_config: share(&self.cookie_config),
                    phantom: PhantomData,
                },
            ),
            Err(e) => Err(e),
        }
    }
}

impl<B: NewBackend + Default, T: SessionValue> Default for NewSessionMiddleware<B, T> {
    /// Middleware over the factory's default, with the default cookie name,
    /// restricted to secure transports.
    fn default() -> (r: Self)
        ensures
            call_ensures(B::default, (), r.factory()),
            r.cookie_config().spec_name() == DEFAULT_COOKIE_NAME@,
            r.cookie_config().spec_secure() == SecureCookie::Secure,
    {
        NewSessionMiddleware::new(B::default()).with_session_type::<T>()
    }
}

impl<B: NewBackend> NewSessionMiddleware<B, ()> {
    /// Middleware over `b` whose cookie has the default name and is
    /// restricted to secure transports.
    pub fn new(b: B) -> (r: NewSessionMiddleware<B, ()>)
        ensures
            r.factory() == b,
            r.cookie_config().spec_name() == DEFAULT_COOKIE_NAME@,
            r.cookie_config().spec_secure() == SecureCookie::Secure,
    {
        NewSessionMiddleware {
            new_backend: b,
            cookie_config: Arc::new(
                SessionCookieConfig::new(DEFAULT_COOKIE_NAME.to_owned(), SecureCookie::Secure),
            ),
            phantom: PhantomData,
        }
    }

    /// Middleware over `b` whose cookie has the default name and may
    /// travel over any transport.
    pub fn insecure(b: B) -> (r: NewSessionMiddleware<B, ()>)
        ensures
            r.factory() == b,
            r.cookie_config().spec_name() == DEFAULT_COOKIE_NAME@,
            r.cookie_config().spec_secure() == SecureCookie::Insecure,
    {
        NewSessionMiddleware {
            new_backend: b,
            cookie_config: Arc::new(
                SessionCookieConfig::new(DEFAULT_COOKIE_NAME.to_owned(), SecureCookie::Insecure),
            ),
            phantom: PhantomData,
        }
    }

    /// The same middleware for sessions of type `T`.
    pub fn with_session_type<T: SessionValue>(self) -> (r: NewSessionMiddleware<B, T>)
        ensures
            r.factory() == self.factory(),
            r.cookie_config() == self.cookie_config(),
    {
        NewSessionMiddleware {
            new_backend: self.new_backend,
            cookie_config: self.cookie_config,
            phantom: PhantomData,
        }
    }
}

impl<B: Backend, T: SessionValue> SessionMiddleware<B, T> {
    /// The backend handle.
    pub closed spec fn backend(&self) -> B {
        self.backend
    }

    /// The cookie configuration.
    pub closed spec fn cookie_config(&self) -> SessionCookieConfig {
        *self.cookie_config
    }

    /// The backend handle, for reading.
    pub fn backend_ref(&self) -> (r: &B)
        ensures
            *r == self.backend(),
    {
        &self.backend
    }

    /// The backend handle, for writing.
    pub fn backend_mut(&mut self) -> (r: &mut B)
        ensures
            *r == old(self).backend(),
            final(self).backend() == *final(r),
            final(self).cookie_config() == old(self).cookie_config(),
    {
        &mut self.backend
    }

    /// Whether `outcome` is what loading the session of `identifier` comes
    /// to once the backend has answered with `result`.
    ///
    /// A failed read fails the request. A record that does not decode
    /// fails it too. Either way the state comes back as it was. Otherwise
    /// the state holds the session that the record stands for, or a fresh
    /// one where there was no record.
    pub open spec fn is_loaded(
        self,
        state: State<B, T>,
        identifier: Seq<char>,
        result: Result<Option<Vec<u8>>, SessionError>,
        outcome: Result<State<B, T>, (State<B, T>, SessionError)>,
    ) -> bool {
        match result {
            Err(e) => outcome == Err::<State<B, T>, (State<B, T>, SessionError)>((state, e)),
            Ok(stored) => match outcome {
                Ok(loaded) => {
                    &&& loaded.session() matches Some(session)
                    &&& SessionData::is_constructed(
                        Ok(session),
                        self.backend(),
                        self.cookie_config(),
                        identifier,
                        payload(stored),
                    )
                },
                Err((returned, e)) => {
                    &&& returned == state
                    &&& SessionData::<B, T>::is_constructed(
                        Err(e),
                        self.backend(),
                        self.cookie_config(),
                        identifier,
                        payload(stored),
                    )
                },
            },
        }
    }

    /// Whether `outcome` is a state that holds a session made from nothing
    /// by this middleware.
    pub open spec fn is_new_session(self, outcome: State<B, T>) -> bool {
        outcome.session() matches Some(session) && SessionData::is_fresh(
            session,
            self.backend(),
            self.cookie_config(),
        )
    }

    /// Whether `outcome` is what the part of a request before the handlers
    /// may come to: without an identifier in the request, a fresh session
    /// and no word with the backend; with one, whatever loading makes of
    /// the backend's answer.
    pub open spec fn is_started(
        self,
        state: State<B, T>,
        request: Request,
        outcome: Result<State<B, T>, (State<B, T>, SessionError)>,
    ) -> bool {
        match requested_identifier(self.cookie_config(), request) {
            Some(identifier) => self.is_read(state, identifier, outcome),
            None => outcome matches Ok(started) && self.is_new_session(started),
        }
    }

    /// Whether `outcome` is what loading the session of `identifier` may
    /// come to, whatever the backend answers.
    pub open spec fn is_read(
        self,
        state: State<B, T>,
        identifier: Seq<char>,
        outcome: Result<State<B, T>, (State<B, T>, SessionError)>,
    ) -> bool {
        exists|result: Result<Option<Vec<u8>>, SessionError>|
            #[trigger] self.backend().reads(identifier, result) && self.is_loaded(
                state,
                identifier,
                result,
                outcome,
            )
    }

    /// The identifier that `request` carries under the configured cookie
    /// name, if any.
    pub fn session_identifier(&self, request: &Request) -> (r: Option<SessionIdentifier>)
        ensures
            r.is_some() == requested_identifier(self.cookie_config(), *request).is_some(),
            r matches Some(identifier) ==> requested_identifier(self.cookie_config(), *request)
                == Some(identifier@),
    {
        match request.cookie_header() {
            Some(header) => match self.cookie_config.identifier_in(header) {
                Some(value) => Some(SessionIdentifier::new(value)),
                None => None,
            },
            None => None,
        }
    }

    /// Puts into the state the session that `identifier` stands for, given
    /// the backend's answer `result` to reading it.
    pub fn load_session(
        self,
        state: State<B, T>,
        identifier: SessionIdentifier,
        result: Result<Option<Vec<u8>>, SessionError>,
    ) -> (r: Result<State<B, T>, (State<B, T>, SessionError)>)
        ensures
            self.is_loaded(state, identifier@, result, r),
    {
        let mut state = state;
        match result {
            Ok(v) => {
                match SessionData::<B, T>::construct(
                    self.backend,
                    self.cookie_config,
                    identifier,
                    v,
                ) {
                    Ok(session_data) => {
                        state.put(session_data);
                        Ok(state)
                    },
                    Err(e) => Err((state, e)),
                }
            },
            Err(e) => Err((state, e)),
        }
    }

    /// Puts a session made from nothing into the state.
    pub fn new_session(self, state: State<B, T>) -> (r: State<B, T>)
        ensures
            self.is_new_session(r),
    {
        let mut state = state;
        let session_data = SessionData::<B, T>::new(self.backend, self.cookie_config);
        state.put(session_data);
        state
    }

    /// Whether `r` is what the rest of a request may come to once the part
    /// before the handlers has ended in `started`.
    ///
    /// Where the session could not be loaded, the request fails with that
    /// error and `chain` does not run. Otherwise `chain` runs on the state
    /// that holds the session. Its failure is the request's failure; its
    /// response is post-processed.
    pub open spec fn is_continued<E, Chain>(
        started: Result<State<B, T>, (State<B, T>, SessionError)>,
        request: Request,
        chain: Chain,
        r: Result<(State<B, T>, Response, Option<B>), (State<B, T>, RequestError<E>)>,
    ) -> bool where
        Chain: FnOnce(State<B, T>, Request) -> Result<(State<B, T>, Response), (State<B, T>, E)>,
     {
        match started {
            Err((returned, e)) => r == Err::<
                (State<B, T>, Response, Option<B>),
                (State<B, T>, RequestError<E>),
            >((returned, RequestError::Session(e))),
            Ok(entered) => exists|handled: Result<(State<B, T>, Response), (State<B, T>, E)>|
                #[trigger] chain.ensures((entered, request), handled) && Self::is_concluded(
                    handled,
                    r,
                ),
        }
    }

    /// Whether `r` is what the end of a request may make of what the
    /// handlers returned.
    pub open spec fn is_concluded<E>(
        handled: Result<(State<B, T>, Response), (State<B, T>, E)>,
        r: Result<(State<B, T>, Response, Option<B>), (State<B, T>, RequestError<E>)>,
    ) -> bool {
        match handled {
            Err((left, e)) => r == Err::<
                (State<B, T>, Response, Option<B>),
                (State<B, T>, RequestError<E>),
            >((left, RequestError::Handler(e))),
            Ok(answered) => r matches Ok(done) && is_finished(answered, done),
        }
    }

    /// Serves one request: finds or makes the session, runs `chain` on the
    /// state that holds it, and ends the request on what `chain` returned.
    ///
    /// `chain` stands for the handlers; it has to accept every state and
    /// request. It runs once, and only if the session could be loaded. Its
    /// failure is passed on untouched.
    pub fn call<E, Chain>(self, state: State<B, T>, request: Request, chain: Chain) -> (r: Result<
        (State<B, T>, Response, Option<B>),
        (State<B, T>, RequestError<E>),
    >) where Chain: FnOnce(State<B, T>, Request) -> Result<(State<B, T>, Response), (State<B, T>, E)>
        requires
            forall|s: State<B, T>, q: Request| chain.requires((s, q)),
        ensures
            exists|started: Result<State<B, T>, (State<B, T>, SessionError)>|
                #[trigger] self.is_started(state, request, started) && Self::is_continued(
                    started,
                    request,
                    chain,
                    r,
                ),
    {
        let started = match self.session_identifier(&request) {
            Some(id) => {
                let result = self.backend.read_session(id.clone());
                let ghost answer = result;
                let loaded = self.load_session(state, id, result);
                assert(self.backend().reads(id@, answer) && self.is_loaded(
                    state,
                    id@,
                    answer,
                    loaded,
                ));
                assert(self.is_read(state, id@, loaded));
                loaded
            },
            None => Ok(self.new_session(state)),
        };
        let ghost begun = started;
        let r = match started {
            Ok(entered) => {
                let handled = chain(entered, request);
                let ghost returned = handled;
                let r = match handled {
                    Ok(answered) => Ok(persist_session(answered)),
                    Err((left, e)) => Err((left, RequestError::Handler(e))),
                };
                assert(chain.ensures((entered, request), returned) && Self::is_concluded(
                    returned,
                    r,
                ));
                r
            },
            Err((returned, e)) => Err((returned, RequestError::Session(e))),
        };
        assert(self.is_started(state, request, begun) && Self::is_continued(
            begun,
            request,
            chain,
            r,
        ));
        r
    }
}

} // verus!
