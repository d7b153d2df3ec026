use std::cell::{Cell, RefCell};
use std::rc::Rc;
use std::sync::{Arc, Mutex};

use serde::de::Deserializer;
use serde::ser::{SerializeStruct, Serializer};
use serde::{Deserialize, Serialize};

use session_middleware::backend::{Backend, ConfigError, NewBackend};
use session_middleware::codec::SessionValue;
use session_middleware::cookie::{SecureCookie, SessionCookieConfig};
use session_middleware::error::SessionError;
use session_middleware::http::{Request, Response, INTERNAL_SERVER_ERROR};
use session_middleware::identifier::SessionIdentifier;
use session_middleware::memory::MemoryBackend;
use session_middleware::middleware::{
    end_request, hand_over, persist_session, send_cookie, write_session, Ending,
    NewSessionMiddleware, RequestError, SessionMiddleware,
};
use session_middleware::session::SessionData;
use session_middleware::state::State;

#[derive(Debug, Default, PartialEq)]
struct TestSession {
    val: u64,
}

impl Serialize for TestSession {
    fn serialize<S: Serializer>(&self, serializer: S) -> Result<S::Ok, S::Error> {
        let mut fields = serializer.serialize_struct("TestSession", 1)?;
        fields.serialize_field("val", &self.val)?;
        fields.end()
    }
}

impl<'de> Deserialize<'de> for TestSession {
    fn deserialize<D: Deserializer<'de>>(deserializer: D) -> Result<Self, D::Error> {
        let (val,): (u64,) = Deserialize::deserialize(deserializer)?;
        Ok(TestSession { val })
    }
}

impl SessionValue for TestSession {
    fn initial() -> Self {
        TestSession::default()
    }

    fn encode(&self) -> Option<Vec<u8>> {
        let mut bytes = Vec::new();
        match self.serialize(&mut rmp_serde::Serializer::new(&mut bytes)) {
            Ok(()) => Some(bytes),
            Err(_) => None,
        }
    }

    fn decode(bytes: &[u8]) -> Option<Self> {
        TestSession::deserialize(&mut rmp_serde::Deserializer::new(bytes)).ok()
    }
}

/// A value that refuses to be encoded.
#[derive(Debug, Default)]
struct Unencodable;

impl SessionValue for Unencodable {
    fn initial() -> Self {
        Unencodable
    }

    fn encode(&self) -> Option<Vec<u8>> {
        None
    }

    fn decode(_bytes: &[u8]) -> Option<Self> {
        Some(Unencodable)
    }
}

/// A memory backend that counts what is asked of it.
struct Counting {
    inner: MemoryBackend,
    reads: Rc<Cell<usize>>,
    writes: Rc<Cell<usize>>,
    last_write: Rc<RefCell<Option<(String, Vec<u8>)>>>,
}

impl Counting {
    fn over(inner: MemoryBackend) -> Counting {
        Counting {
            inner,
            reads: Rc::new(Cell::new(0)),
            writes: Rc::new(Cell::new(0)),
            last_write: Rc::new(RefCell::new(None)),
        }
    }
}

impl Backend for Counting {
    fn random_identifier(&self) -> SessionIdentifier {
        self.inner.random_identifier()
    }

    fn read_session(&self, identifier: SessionIdentifier) -> Result<Option<Vec<u8>>, SessionError> {
        self.reads.set(self.reads.get() + 1);
        self.inner.read_session(identifier)
    }

    fn persist_session(
        &mut self,
        identifier: SessionIdentifier,
        content: &[u8],
    ) -> Result<(), SessionError> {
        self.writes.set(self.writes.get() + 1);
        *self.last_write.borrow_mut() = Some((identifier.as_str().to_owned(), content.to_vec()));
        self.inner.persist_session(identifier, content)
    }
}

/// A backend whose storage is out of reach.
struct Failing {
    writes: Rc<Cell<usize>>,
}

impl Backend for Failing {
    fn random_identifier(&self) -> SessionIdentifier {
        SessionIdentifier::new("minted".to_owned())
    }

    fn read_session(&self, _identifier: SessionIdentifier) -> Result<Option<Vec<u8>>, SessionError> {
        Err(SessionError::Backend("storage unreachable".to_owned()))
    }

    fn persist_session(
        &mut self,
        _identifier: SessionIdentifier,
        _content: &[u8],
    ) -> Result<(), SessionError> {
        self.writes.set(self.writes.get() + 1);
        Err(SessionError::Backend("storage unreachable".to_owned()))
    }
}

/// A factory that hands out a prepared backend, or fails.
struct Prepared<B> {
    backend: RefCell<Option<B>>,
}

impl<B> Prepared<B> {
    fn with(backend: B) -> Prepared<B> {
        Prepared { backend: RefCell::new(Some(backend)) }
    }
}

impl<B: Backend> NewBackend for Prepared<B> {
    type Instance = B;

    fn new_backend(&self) -> Result<B, ConfigError> {
        match self.backend.borrow_mut().take() {
            Some(backend) => Ok(backend),
            None => Err(ConfigError { reason: "no backend left".to_owned() }),
        }
    }
}

type Handled<B, T> = Result<(State<B, T>, Response), (State<B, T>, String)>;

fn middleware_over<B: Backend>(backend: B, name: &str) -> SessionMiddleware<B, TestSession> {
    let made = NewSessionMiddleware::new(Prepared::with(backend))
        .with_cookie_name(name.to_owned())
        .with_session_type::<TestSession>()
        .new_middleware();
    match made {
        Ok(middleware) => middleware,
        Err(e) => panic!("no middleware: {:?}", e),
    }
}

fn request_with_cookie(name: &str, identifier: &str) -> Request {
    Request::with_cookie_header(format!("{}={}", name, identifier).into_bytes())
}

fn encoded(val: u64) -> Vec<u8> {
    match (TestSession { val }).encode() {
        Some(bytes) => bytes,
        None => panic!("test session does not encode"),
    }
}

fn store_with(identifier: &str, val: u64) -> MemoryBackend {
    let mut store = MemoryBackend::default();
    let stored = store.persist_session(SessionIdentifier::new(identifier.to_owned()), &encoded(val));
    assert!(stored.is_ok());
    store
}

#[test]
fn test_session_encoding_is_compact_messagepack() {
    assert_eq!(encoded(0), vec![0x91, 0x00]);
    assert_eq!(encoded(1), vec![0x91, 0x01]);
    assert_eq!(encoded(300), vec![0x91, 0xcd, 0x01, 0x2c]);
    assert_eq!(TestSession::decode(&[0x91, 0x2a]), Some(TestSession { val: 42 }));
}

#[test]
fn existing_session() {
    let nm: NewSessionMiddleware<MemoryBackend, TestSession> = NewSessionMiddleware::default();
    let mut m = match nm.new_middleware() {
        Ok(m) => m,
        Err(e) => panic!("no middleware: {:?}", e),
    };

    let identifier = m.backend_ref().random_identifier();

    let session = TestSession { val: rand::random() };
    let mut bytes = Vec::new();
    session
        .serialize(&mut rmp_serde::Serializer::new(&mut bytes))
        .unwrap();

    m.backend_mut()
        .persist_session(identifier.clone(), &bytes)
        .unwrap();

    let req = request_with_cookie("_gotham_session", identifier.as_str());

    let received: Arc<Mutex<Option<u64>>> = Arc::new(Mutex::new(None));
    let r = received.clone();

    let handler = move |mut state: State<MemoryBackend, TestSession>,
                        _req: Request|
          -> Handled<MemoryBackend, TestSession> {
        {
            let session_data = state.borrow_mut().expect("no session data??");

            *r.lock().unwrap() = Some(session_data.val);
            session_data.val += 1;
        }

        Ok((state, Response::new(202)))
    };

    match m.call(State::new(), req, handler) {
        Ok(_) => {
            let guard = received.lock().unwrap();
            if let Some(value) = *guard {
                assert_eq!(value, session.val);
            } else {
                panic!("no session data");
            }
        }
        Err((_, e)) => panic!("{:?}", e),
    }

    let m = match nm.new_middleware() {
        Ok(m) => m,
        Err(e) => panic!("no middleware: {:?}", e),
    };
    let bytes = m.backend_ref().read_session(identifier).unwrap().unwrap();
    let updated = TestSession::deserialize(&mut rmp_serde::Deserializer::new(&bytes[..])).unwrap();

    assert_eq!(updated.val, session.val + 1);
}

#[test]
fn end_to_end_counter_scenario() {
    let maker = NewSessionMiddleware::new(MemoryBackend::default())
        .with_cookie_name("_sess".to_owned())
        .with_session_type::<TestSession>();
    let serve = |request: Request, seen: Rc<Cell<Option<u64>>>, increment: bool| {
        let middleware = match maker.new_middleware() {
            Ok(m) => m,
            Err(e) => panic!("no middleware: {:?}", e),
        };
        let handler = move |mut state: State<MemoryBackend, TestSession>,
                            _req: Request|
              -> Handled<MemoryBackend, TestSession> {
            {
                let session = state.borrow_mut().expect("no session");
                seen.set(Some(session.val));
                if increment {
                    session.val += 1;
                }
            }
            Ok((state, Response::new(200)))
        };
        match middleware.call(State::new(), request, handler) {
            Ok((_, response, _)) => response,
            Err((_, e)) => panic!("{:?}", e),
        }
    };

    // Request 1: no cookie.
    let seen = Rc::new(Cell::new(None));
    let response = serve(Request::new(), seen.clone(), false);
    assert_eq!(seen.get(), Some(0));
    assert_eq!(response.status, 200);
    assert_eq!(response.set_cookie.len(), 1);
    let line = response.set_cookie[0].clone();
    assert!(line.starts_with("_sess="));
    assert!(line.ends_with("; secure; HttpOnly"));
    let token = line["_sess=".len()..line.len() - "; secure; HttpOnly".len()].to_owned();
    assert_eq!(token.len(), 64);
    assert_eq!(line, format!("_sess={}; secure; HttpOnly", token));

    // Request 2: sends the cookie, the handler increments the counter.
    let seen = Rc::new(Cell::new(None));
    let response = serve(request_with_cookie("_sess", &token), seen.clone(), true);
    assert_eq!(seen.get(), Some(0));
    assert_eq!(response.set_cookie.len(), 0);

    // Request 3: sends the same cookie and observes the counter.
    let seen = Rc::new(Cell::new(None));
    let response = serve(request_with_cookie("_sess", &token), seen.clone(), false);
    assert_eq!(seen.get(), Some(1));
    assert_eq!(response.set_cookie.len(), 0);
}

#[test]
fn failed_request_leaves_the_store_as_it_was() {
    let maker = NewSessionMiddleware::new(MemoryBackend::default())
        .with_cookie_name("_sess".to_owned())
        .with_session_type::<TestSession>();
    let mut first = match maker.new_middleware() {
        Ok(m) => m,
        Err(e) => panic!("no middleware: {:?}", e),
    };
    let garbage = SessionIdentifier::new("garbage".to_owned());
    let sound = SessionIdentifier::new("sound".to_owned());
    first.backend_mut().persist_session(garbage.clone(), &[0xa3, 0x66, 0x6f, 0x6f]).unwrap();
    first.backend_mut().persist_session(sound.clone(), &encoded(7)).unwrap();
    let handler = |state: State<MemoryBackend, TestSession>,
                   _req: Request|
     -> Handled<MemoryBackend, TestSession> { Ok((state, Response::new(200))) };
    match first.call(State::new(), request_with_cookie("_sess", "garbage"), handler) {
        Ok(_) => panic!("request went through"),
        Err((_, e)) => assert!(matches!(e, RequestError::Session(SessionError::Deserialize))),
    }
    let second = match maker.new_middleware() {
        Ok(m) => m,
        Err(e) => panic!("no middleware: {:?}", e),
    };
    assert_eq!(second.backend_ref().read_session(sound).unwrap(), Some(encoded(7)));
    assert_eq!(
        second.backend_ref().read_session(garbage).unwrap(),
        Some(vec![0xa3, 0x66, 0x6f, 0x6f])
    );
}

#[test]
fn end_request_tells_what_became_of_the_response() {
    let config = Arc::new(SessionCookieConfig::new("_sess".to_owned(), SecureCookie::Insecure));

    // Without a session the response passes.
    let state: State<MemoryBackend, TestSession> = State::new();
    let (_, response, released, ending) = end_request((state, Response::new(204)));
    assert_eq!(ending, Ending::Passed);
    assert_eq!(response.status, 204);
    assert!(released.is_none());

    // A new session is announced.
    let mut state: State<MemoryBackend, TestSession> = State::new();
    state.put(SessionData::new(MemoryBackend::default(), config.clone()));
    let (_, response, released, ending) = end_request((state, Response::new(200)));
    assert_eq!(ending, Ending::Announced);
    assert_eq!(response.set_cookie.len(), 1);
    assert!(released.is_some());

    // A clean session passes.
    let made = SessionData::<MemoryBackend, TestSession>::construct(
        MemoryBackend::default(),
        config.clone(),
        SessionIdentifier::new("known".to_owned()),
        Some(encoded(3)),
    );
    let mut state: State<MemoryBackend, TestSession> = State::new();
    match made {
        Ok(session) => state.put(session),
        Err(e) => panic!("{:?}", e),
    }
    let (_, response, _, ending) = end_request((state, Response::new(200)));
    assert_eq!(ending, Ending::Passed);
    assert_eq!(response.set_cookie.len(), 0);

    // A session that cannot be stored fails the response.
    let mut state: State<Failing, TestSession> = State::new();
    state.put(SessionData::new(Failing { writes: Rc::new(Cell::new(0)) }, config));
    let mut response = Response::new(200);
    response.body = vec![1];
    let (_, response, _, ending) = end_request((state, response));
    assert_eq!(ending, Ending::Failed);
    assert_eq!(response.status, 500);
    assert_eq!(response.set_cookie.len(), 0);
    assert_eq!(response.body.len(), 0);
}

#[test]
fn hand_over_says_whether_the_value_was_stored() {
    let config = Arc::new(SessionCookieConfig::new("_sess".to_owned(), SecureCookie::Secure));
    let made = SessionData::<MemoryBackend, TestSession>::construct(
        MemoryBackend::default(),
        config.clone(),
        SessionIdentifier::new("known".to_owned()),
        Some(encoded(5)),
    );
    let session = match made {
        Ok(session) => session,
        Err(e) => panic!("{:?}", e),
    };
    let (stored, backend) = hand_over(session);
    assert!(stored);
    assert_eq!(
        backend.read_session(SessionIdentifier::new("known".to_owned())).unwrap(),
        Some(encoded(5))
    );

    let writes = Rc::new(Cell::new(0));
    let refused =
        SessionData::<Failing, TestSession>::new(Failing { writes: writes.clone() }, config.clone());
    let (stored, _) = hand_over(refused);
    assert!(!stored);
    assert_eq!(writes.get(), 1);

    let counting = Counting::over(MemoryBackend::default());
    let writes = counting.writes.clone();
    let unencodable = SessionData::<Counting, Unencodable>::new(counting, config);
    let (stored, _) = hand_over(unencodable);
    assert!(!stored);
    assert_eq!(writes.get(), 0);
}

#[test]
fn request_without_cookie_sets_exactly_one_cookie() {
    for mutate in [false, true] {
        let backend = Counting::over(MemoryBackend::default());
        let reads = backend.reads.clone();
        let writes = backend.writes.clone();
        let last_write = backend.last_write.clone();
        let middleware = middleware_over(backend, "_sess");
        let handler = move |mut state: State<Counting, TestSession>,
                            _req: Request|
              -> Handled<Counting, TestSession> {
            if mutate {
                state.borrow_mut().expect("no session").val = 9;
            }
            let mut response = Response::new(200);
            response.set_cookie.push("theme=dark".to_owned());
            response.set_cookie.push("lang=en".to_owned());
            response.headers.push(("X-Kept".to_owned(), "yes".to_owned()));
            response.body = vec![1, 2, 3];
            Ok((state, response))
        };
        match middleware.call(State::new(), Request::new(), handler) {
            Ok((state, response, _)) => {
                assert!(!state.has());
                assert_eq!(response.status, 200);
                assert_eq!(response.set_cookie.len(), 1);
                let (identifier, content) = last_write.borrow().clone().expect("nothing written");
                assert_eq!(
                    response.set_cookie[0],
                    format!("_sess={}; secure; HttpOnly", identifier)
                );
                assert_eq!(content, encoded(if mutate { 9 } else { 0 }));
                assert_eq!(response.headers, vec![("X-Kept".to_owned(), "yes".to_owned())]);
                assert_eq!(response.body, vec![1, 2, 3]);
            }
            Err((_, e)) => panic!("{:?}", e),
        }
        assert_eq!(reads.get(), 0);
        assert_eq!(writes.get(), 1);
    }
}

#[test]
fn unmutated_existing_session_is_not_persisted() {
    let backend = Counting::over(store_with("known", 5));
    let reads = backend.reads.clone();
    let writes = backend.writes.clone();
    let middleware = middleware_over(backend, "_sess");
    let seen = Rc::new(Cell::new(None));
    let s = seen.clone();
    let handler = move |state: State<Counting, TestSession>,
                        _req: Request|
          -> Handled<Counting, TestSession> {
        s.set(Some(state.borrow().expect("no session").val));
        Ok((state, Response::new(204)))
    };
    match middleware.call(State::new(), request_with_cookie("_sess", "known"), handler) {
        Ok((_, response, released)) => {
            assert_eq!(response.status, 204);
            assert_eq!(response.set_cookie.len(), 0);
            assert!(released.is_some());
        }
        Err((_, e)) => panic!("{:?}", e),
    }
    assert_eq!(seen.get(), Some(5));
    assert_eq!(reads.get(), 1);
    assert_eq!(writes.get(), 0);
}

#[test]
fn mutated_existing_session_is_persisted_once() {
    let backend = Counting::over(store_with("known", 5));
    let writes = backend.writes.clone();
    let last_write = backend.last_write.clone();
    let middleware = middleware_over(backend, "_sess");
    let handler = |mut state: State<Counting, TestSession>,
                   _req: Request|
     -> Handled<Counting, TestSession> {
        state.borrow_mut().expect("no session").val += 37;
        Ok((state, Response::new(200)))
    };
    match middleware.call(State::new(), request_with_cookie("_sess", "known"), handler) {
        Ok((_, response, released)) => {
            assert_eq!(response.status, 200);
            assert_eq!(response.set_cookie.len(), 0);
            let backend = released.expect("no backend released");
            assert_eq!(
                backend.inner.read_session(SessionIdentifier::new("known".to_owned())).unwrap(),
                Some(encoded(42))
            );
        }
        Err((_, e)) => panic!("{:?}", e),
    }
    assert_eq!(writes.get(), 1);
    assert_eq!(*last_write.borrow(), Some(("known".to_owned(), encoded(42))));
}

#[test]
fn cookie_without_record_behaves_like_no_cookie() {
    let backend = Counting::over(store_with("other", 5));
    let reads = backend.reads.clone();
    let writes = backend.writes.clone();
    let last_write = backend.last_write.clone();
    let middleware = middleware_over(backend, "_sess");
    let seen = Rc::new(Cell::new(None));
    let s = seen.clone();
    let handler = move |state: State<Counting, TestSession>,
                        _req: Request|
          -> Handled<Counting, TestSession> {
        s.set(Some(state.borrow().expect("no session").val));
        Ok((state, Response::new(200)))
    };
    match middleware.call(State::new(), request_with_cookie("_sess", "forgotten"), handler) {
        Ok((_, response, _)) => {
            assert_eq!(response.set_cookie.len(), 1);
            let (identifier, content) = last_write.borrow().clone().expect("nothing written");
            assert_ne!(identifier, "forgotten");
            assert_eq!(identifier.len(), 64);
            assert_eq!(response.set_cookie[0], format!("_sess={}; secure; HttpOnly", identifier));
            assert_eq!(content, encoded(0));
        }
        Err((_, e)) => panic!("{:?}", e),
    }
    assert_eq!(seen.get(), Some(0));
    assert_eq!(reads.get(), 1);
    assert_eq!(writes.get(), 1);
}

#[test]
fn corrupted_record_fails_before_handler() {
    let mut store = MemoryBackend::default();
    store
        .persist_session(SessionIdentifier::new("known".to_owned()), &[0xa3, 0x66, 0x6f, 0x6f])
        .unwrap();
    let backend = Counting::over(store);
    let writes = backend.writes.clone();
    let middleware = middleware_over(backend, "_sess");
    let invoked = Rc::new(Cell::new(false));
    let i = invoked.clone();
    let handler = move |state: State<Counting, TestSession>,
                        _req: Request|
          -> Handled<Counting, TestSession> {
        i.set(true);
        Ok((state, Response::new(200)))
    };
    match middleware.call(State::new(), request_with_cookie("_sess", "known"), handler) {
        Ok(_) => panic!("request went through"),
        Err((state, e)) => {
            assert!(!state.has());
            assert!(matches!(e, RequestError::Session(SessionError::Deserialize)));
        }
    }
    assert!(!invoked.get());
    assert_eq!(writes.get(), 0);
}

#[test]
fn truncated_record_fails_before_handler() {
    let mut store = MemoryBackend::default();
    store.persist_session(SessionIdentifier::new("known".to_owned()), &[]).unwrap();
    let middleware = middleware_over(store, "_sess");
    let invoked = Rc::new(Cell::new(false));
    let i = invoked.clone();
    let handler = move |state: State<MemoryBackend, TestSession>,
                        _req: Request|
          -> Handled<MemoryBackend, TestSession> {
        i.set(true);
        Ok((state, Response::new(200)))
    };
    match middleware.call(State::new(), request_with_cookie("_sess", "known"), handler) {
        Ok(_) => panic!("request went through"),
        Err((_, e)) => assert!(matches!(e, RequestError::Session(SessionError::Deserialize))),
    }
    assert!(!invoked.get());
}

#[test]
fn backend_read_failure_fails_request() {
    let writes = Rc::new(Cell::new(0));
    let middleware = middleware_over(Failing { writes: writes.clone() }, "_sess");
    let invoked = Rc::new(Cell::new(false));
    let i = invoked.clone();
    let handler = move |state: State<Failing, TestSession>,
                        _req: Request|
          -> Handled<Failing, TestSession> {
        i.set(true);
        Ok((state, Response::new(200)))
    };
    match middleware.call(State::new(), request_with_cookie("_sess", "known"), handler) {
        Ok(_) => panic!("request went through"),
        Err((_, RequestError::Session(SessionError::Backend(reason)))) => {
            assert_eq!(reason, "storage unreachable")
        }
        Err((_, e)) => panic!("{:?}", e),
    }
    assert!(!invoked.get());
    assert_eq!(writes.get(), 0);
}

#[test]
fn handler_error_propagates() {
    let backend = Counting::over(MemoryBackend::default());
    let writes = backend.writes.clone();
    let middleware = middleware_over(backend, "_sess");
    let handler = |mut state: State<Counting, TestSession>,
                   _req: Request|
     -> Handled<Counting, TestSession> {
        state.borrow_mut().expect("no session").val = 3;
        Err((state, "handler gave up".to_owned()))
    };
    match middleware.call(State::new(), Request::new(), handler) {
        Ok(_) => panic!("request went through"),
        Err((state, RequestError::Handler(e))) => {
            assert_eq!(e, "handler gave up");
            assert!(state.has());
        }
        Err((_, e)) => panic!("{:?}", e),
    }
    assert_eq!(writes.get(), 0);
}

#[test]
fn persist_failure_replaces_response() {
    let writes = Rc::new(Cell::new(0));
    let middleware = middleware_over(Failing { writes: writes.clone() }, "_sess");
    let handler = |state: State<Failing, TestSession>,
                   _req: Request|
     -> Handled<Failing, TestSession> {
        let mut response = Response::new(200);
        response.body = vec![1, 2, 3];
        response.headers.push(("X-Lost".to_owned(), "yes".to_owned()));
        Ok((state, response))
    };
    match middleware.call(State::new(), Request::new(), handler) {
        Ok((_, response, released)) => {
            assert_eq!(response.status, 500);
            assert_eq!(response.status, INTERNAL_SERVER_ERROR);
            assert_eq!(response.set_cookie.len(), 0);
            assert_eq!(response.headers.len(), 0);
            assert_eq!(response.body.len(), 0);
            assert!(released.is_some());
        }
        Err((_, e)) => panic!("{:?}", e),
    }
    assert_eq!(writes.get(), 1);
}

#[test]
fn encode_failure_replaces_response() {
    let backend = Counting::over(MemoryBackend::default());
    let writes = backend.writes.clone();
    let made = NewSessionMiddleware::new(Prepared::with(backend))
        .with_session_type::<Unencodable>()
        .new_middleware();
    let middleware = match made {
        Ok(m) => m,
        Err(e) => panic!("no middleware: {:?}", e),
    };
    let handler = |state: State<Counting, Unencodable>,
                   _req: Request|
     -> Result<(State<Counting, Unencodable>, Response), (State<Counting, Unencodable>, String)> {
        Ok((state, Response::new(200)))
    };
    match middleware.call(State::new(), Request::new(), handler) {
        Ok((_, response, _)) => {
            assert_eq!(response.status, 500);
            assert_eq!(response.set_cookie.len(), 0);
        }
        Err((_, e)) => panic!("{:?}", e),
    }
    assert_eq!(writes.get(), 0);
}

#[test]
fn response_passes_when_handler_takes_session() {
    let backend = Counting::over(MemoryBackend::default());
    let writes = backend.writes.clone();
    let middleware = middleware_over(backend, "_sess");
    let handler = |mut state: State<Counting, TestSession>,
                   _req: Request|
     -> Handled<Counting, TestSession> {
        assert!(state.take().is_some());
        let mut response = Response::new(201);
        response.set_cookie.push("own=1".to_owned());
        Ok((state, response))
    };
    match middleware.call(State::new(), Request::new(), handler) {
        Ok((state, response, released)) => {
            assert!(!state.has());
            assert_eq!(response.status, 201);
            assert_eq!(response.set_cookie, vec!["own=1".to_owned()]);
            assert!(released.is_none());
        }
        Err((_, e)) => panic!("{:?}", e),
    }
    assert_eq!(writes.get(), 0);
}

#[test]
fn default_middleware_uses_secure_default_cookie() {
    let made = NewSessionMiddleware::new(MemoryBackend::default()).new_middleware();
    let middleware = match made {
        Ok(m) => m,
        Err(e) => panic!("no middleware: {:?}", e),
    };
    let handler = |state: State<MemoryBackend, ()>,
                   _req: Request|
     -> Result<(State<MemoryBackend, ()>, Response), (State<MemoryBackend, ()>, String)> {
        Ok((state, Response::new(200)))
    };
    match middleware.call(State::new(), Request::new(), handler) {
        Ok((_, response, released)) => {
            assert_eq!(response.set_cookie.len(), 1);
            let line = &response.set_cookie[0];
            assert!(line.starts_with("_gotham_session="));
            assert!(line.ends_with("; secure; HttpOnly"));
            let token = &line["_gotham_session=".len()..line.len() - "; secure; HttpOnly".len()];
            let backend = released.expect("no backend released");
            assert_eq!(
                backend.read_session(SessionIdentifier::new(token.to_owned())).unwrap(),
                Some(vec![0xc0])
            );
        }
        Err((_, e)) => panic!("{:?}", e),
    }
}

#[test]
fn insecure_middleware_omits_secure_attribute() {
    let made = NewSessionMiddleware::insecure(MemoryBackend::default())
        .with_session_type::<TestSession>()
        .new_middleware();
    let middleware = match made {
        Ok(m) => m,
        Err(e) => panic!("no middleware: {:?}", e),
    };
    let handler = |state: State<MemoryBackend, TestSession>,
                   _req: Request|
     -> Handled<MemoryBackend, TestSession> { Ok((state, Response::new(200))) };
    match middleware.call(State::new(), Request::new(), handler) {
        Ok((_, response, _)) => {
            assert_eq!(response.set_cookie.len(), 1);
            let line = &response.set_cookie[0];
            assert!(line.starts_with("_gotham_session="));
            assert!(line.ends_with("; HttpOnly"));
            assert!(!line.contains("secure"));
            assert_eq!(line.len(), "_gotham_session=".len() + 64 + "; HttpOnly".len());
        }
        Err((_, e)) => panic!("{:?}", e),
    }
}

#[test]
fn cookie_under_another_name_is_ignored() {
    let backend = Counting::over(store_with("known", 5));
    let reads = backend.reads.clone();
    let middleware = middleware_over(backend, "_sess");
    let seen = Rc::new(Cell::new(None));
    let s = seen.clone();
    let handler = move |state: State<Counting, TestSession>,
                        _req: Request|
          -> Handled<Counting, TestSession> {
        s.set(Some(state.borrow().expect("no session").val));
        Ok((state, Response::new(200)))
    };
    match middleware.call(State::new(), request_with_cookie("_other", "known"), handler) {
        Ok((_, response, _)) => assert_eq!(response.set_cookie.len(), 1),
        Err((_, e)) => panic!("{:?}", e),
    }
    assert_eq!(seen.get(), Some(0));
    assert_eq!(reads.get(), 0);
}

#[test]
fn session_identifier_is_read_from_the_request() {
    let middleware = middleware_over(MemoryBackend::default(), "_sess");
    let found = middleware.session_identifier(&request_with_cookie("_sess", "abc"));
    assert_eq!(found.map(|id| id.into_string()), Some("abc".to_owned()));
    assert!(middleware.session_identifier(&Request::new()).is_none());
    assert!(middleware
        .session_identifier(&Request::with_cookie_header(b"x=1; y=2".to_vec()))
        .is_none());
}

#[test]
fn new_middleware_fails_when_the_factory_fails() {
    let factory: Prepared<MemoryBackend> = Prepared { backend: RefCell::new(None) };
    let made = NewSessionMiddleware::new(factory).with_session_type::<TestSession>().new_middleware();
    match made {
        Ok(_) => panic!("middleware without a backend"),
        Err(e) => assert_eq!(e.reason, "no backend left"),
    }
}

#[test]
fn middlewares_of_one_maker_share_the_cookie_configuration() {
    let maker = NewSessionMiddleware::new(MemoryBackend::default())
        .with_cookie_name("shared".to_owned())
        .with_session_type::<TestSession>();
    for _ in 0..2 {
        let middleware = match maker.new_middleware() {
            Ok(m) => m,
            Err(e) => panic!("no middleware: {:?}", e),
        };
        let handler = |state: State<MemoryBackend, TestSession>,
                       _req: Request|
         -> Handled<MemoryBackend, TestSession> { Ok((state, Response::new(200))) };
        match middleware.call(State::new(), Request::new(), handler) {
            Ok((_, response, _)) => assert!(response.set_cookie[0].starts_with("shared=")),
            Err((_, e)) => panic!("{:?}", e),
        }
    }
}

#[test]
fn construct_from_a_record_gives_a_clean_existing_session() {
    let config = Arc::new(SessionCookieConfig::new("_sess".to_owned(), SecureCookie::Secure));
    let made = SessionData::<MemoryBackend, TestSession>::construct(
        MemoryBackend::default(),
        config,
        SessionIdentifier::new("known".to_owned()),
        Some(encoded(11)),
    );
    match made {
        Ok(session) => {
            assert_eq!(session.val, 11);
            assert!(!session.is_new());
            assert!(!session.is_dirty());
            assert_eq!(session.session_identifier().as_str(), "known");
            assert_eq!(session.config().name(), "_sess");
        }
        Err(e) => panic!("{:?}", e),
    }
}

#[test]
fn construct_from_garbage_is_a_deserialize_error() {
    let config = Arc::new(SessionCookieConfig::new("_sess".to_owned(), SecureCookie::Secure));
    let made = SessionData::<MemoryBackend, TestSession>::construct(
        MemoryBackend::default(),
        config,
        SessionIdentifier::new("known".to_owned()),
        Some(vec![0xc1]),
    );
    assert!(matches!(made, Err(SessionError::Deserialize)));
}

#[test]
fn construct_without_a_record_gives_a_new_dirty_session() {
    let config = Arc::new(SessionCookieConfig::new("_sess".to_owned(), SecureCookie::Secure));
    let made = SessionData::<MemoryBackend, TestSession>::construct(
        MemoryBackend::default(),
        config,
        SessionIdentifier::new("known".to_owned()),
        None,
    );
    match made {
        Ok(session) => {
            assert_eq!(session.val, 0);
            assert!(session.is_new());
            assert!(session.is_dirty());
            assert_ne!(session.session_identifier().as_str(), "known");
        }
        Err(e) => panic!("{:?}", e),
    }
}

#[test]
fn writing_through_a_session_marks_it_dirty_for_good() {
    let config = Arc::new(SessionCookieConfig::new("_sess".to_owned(), SecureCookie::Secure));
    let made = SessionData::<MemoryBackend, TestSession>::construct(
        MemoryBackend::default(),
        config,
        SessionIdentifier::new("known".to_owned()),
        Some(encoded(1)),
    );
    let mut session = match made {
        Ok(session) => session,
        Err(e) => panic!("{:?}", e),
    };
    assert_eq!(session.val, 1);
    assert!(!session.is_dirty());
    session.val = 1;
    assert!(session.is_dirty());
    assert!(!session.is_new());
    assert_eq!(session.val, 1);
    assert!(session.is_dirty());
    assert_eq!(session.session_identifier().as_str(), "known");
}

#[test]
fn new_session_is_new_and_dirty() {
    let config = Arc::new(SessionCookieConfig::new("_sess".to_owned(), SecureCookie::Insecure));
    let session = SessionData::<MemoryBackend, TestSession>::new(MemoryBackend::default(), config);
    assert!(session.is_new());
    assert!(session.is_dirty());
    assert_eq!(*session, TestSession { val: 0 });
    assert_eq!(session.session_identifier().as_str().len(), 64);
    let (value, identifier, _) = session.into_parts();
    assert_eq!(value, TestSession { val: 0 });
    assert_eq!(identifier.as_str().len(), 64);
}

#[test]
fn send_cookie_replaces_the_set_cookie_lines() {
    let config = Arc::new(SessionCookieConfig::new("_sess".to_owned(), SecureCookie::Insecure));
    let session = SessionData::<Failing, TestSession>::new(
        Failing { writes: Rc::new(Cell::new(0)) },
        config,
    );
    let mut response = Response::new(200);
    response.set_cookie.push("a=1".to_owned());
    response.set_cookie.push("b=2".to_owned());
    response.body = vec![9];
    send_cookie(&mut response, &session);
    assert_eq!(response.set_cookie, vec!["_sess=minted; HttpOnly".to_owned()]);
    assert_eq!(response.status, 200);
    assert_eq!(response.body, vec![9]);
}

#[test]
fn write_session_stores_the_encoded_value() {
    let config = Arc::new(SessionCookieConfig::new("_sess".to_owned(), SecureCookie::Secure));
    let made = SessionData::<MemoryBackend, TestSession>::construct(
        MemoryBackend::default(),
        config,
        SessionIdentifier::new("known".to_owned()),
        Some(encoded(77)),
    );
    let session = match made {
        Ok(session) => session,
        Err(e) => panic!("{:?}", e),
    };
    let (state, response, backend) = write_session(State::new(), Response::new(200), session);
    assert!(!state.has());
    assert_eq!(response.status, 200);
    assert_eq!(
        backend.read_session(SessionIdentifier::new("known".to_owned())).unwrap(),
        Some(encoded(77))
    );
}

#[test]
fn persist_session_without_a_session_changes_nothing() {
    let state: State<MemoryBackend, TestSession> = State::new();
    let mut response = Response::new(418);
    response.set_cookie.push("kept=1".to_owned());
    let (state, response, released) = persist_session((state, response));
    assert!(!state.has());
    assert_eq!(response.status, 418);
    assert_eq!(response.set_cookie, vec!["kept=1".to_owned()]);
    assert!(released.is_none());
}

#[test]
fn state_holds_one_session_at_a_time() {
    let config = Arc::new(SessionCookieConfig::new("_sess".to_owned(), SecureCookie::Secure));
    let first = SessionData::<MemoryBackend, TestSession>::construct(
        MemoryBackend::default(),
        config.clone(),
        SessionIdentifier::new("first".to_owned()),
        Some(encoded(1)),
    );
    let second = SessionData::<MemoryBackend, TestSession>::construct(
        MemoryBackend::default(),
        config,
        SessionIdentifier::new("second".to_owned()),
        Some(encoded(2)),
    );
    let mut state: State<MemoryBackend, TestSession> = State::new();
    assert!(!state.has());
    assert!(state.borrow().is_none());
    assert!(state.borrow_mut().is_none());
    match (first, second) {
        (Ok(first), Ok(second)) => {
            state.put(first);
            assert_eq!(state.borrow().expect("empty").val, 1);
            state.put(second);
            assert_eq!(state.borrow().expect("empty").val, 2);
        }
        _ => panic!("sessions do not construct"),
    }
    assert!(state.has());
    let taken = state.take().expect("empty");
    assert_eq!(taken.session_identifier().as_str(), "second");
    assert!(!state.has());
    assert!(state.take().is_none());
}

#[test]
fn load_session_passes_a_backend_error_on() {
    let middleware = middleware_over(MemoryBackend::default(), "_sess");
    let loaded = middleware.load_session(
        State::new(),
        SessionIdentifier::new("known".to_owned()),
        Err(SessionError::Backend("timeout".to_owned())),
    );
    match loaded {
        Ok(_) => panic!("session loaded"),
        Err((state, SessionError::Backend(reason))) => {
            assert!(!state.has());
            assert_eq!(reason, "timeout");
        }
        Err((_, e)) => panic!("{:?}", e),
    }
}

#[test]
fn new_session_fills_the_state() {
    let middleware = middleware_over(MemoryBackend::default(), "_sess");
    let state = middleware.new_session(State::new());
    let session = state.borrow().expect("no session");
    assert!(session.is_new());
    assert!(session.is_dirty());
    assert_eq!(session.val, 0);
    assert_eq!(session.config().name(), "_sess");
}
