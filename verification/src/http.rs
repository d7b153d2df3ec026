//! The parts of a request and of a response that the session layer reads
//! and writes, as plain values.

use vstd::prelude::*;

verus! {

/// Status of the response that replaces a handler's response when the
/// session could not be written back.
pub const INTERNAL_SERVER_ERROR: u16 = 500;

/// An incoming request, reduced to what the session layer reads of it: the
/// raw value of its `Cookie` header.
#[derive(Debug)]
pub struct Request {
    cookie_header: Option<Vec<u8>>,
}

impl Request {
    /// The raw `Cookie` header of the request, if it has one.
    pub closed spec fn spec_cookie_header(&self) -> Option<Seq<u8>> {
        match self.cookie_header {
            Some(h) => Some(h@),
            None => None,
        }
    }

    /// A request without a `Cookie` header.
    pub fn new() -> (r: Self)
        ensures
            r.spec_cookie_header() is None,
    {
        Request { cookie_header: None }
    }

    /// A request whose `Cookie` header has the raw value `header`.
    pub fn with_cookie_header(header: Vec<u8>) -> (r: Self)
        ensures
            r.spec_cookie_header() == Some(header@),
    {
        Request { cookie_header: Some(header) }
    }

    /// The raw `Cookie` header, if the request has one.
    pub fn cookie_header(&self) -> (r: Option<&[u8]>)
        ensures
            r.is_some() == self.spec_cookie_header().is_some(),
            r matches Some(h) ==> self.spec_cookie_header() == Some(h@),
    {
        match &self.cookie_header {
            Some(h) => Some(h.as_slice()),
            None => None,
        }
    }
}

/// A response as the session layer sees it. The session layer decides the
/// `Set-Cookie` lines and may replace the whole response; the other headers
/// and the body pass through it untouched.
#[derive(Debug)]
pub struct Response {
    /// Status code.
    pub status: u16,
    /// The values of the `Set-Cookie` header, one per line.
    pub set_cookie: Vec<String>,
    /// Every other header, as name and value.
    pub headers: Vec<(String, String)>,
    /// The body.
    pub body: Vec<u8>,
}

/// Mathematical value of a [`Response`].
pub struct ResponseView {
    pub status: u16,
    pub set_cookie: Seq<Seq<char>>,
    pub headers: Seq<(Seq<char>, Seq<char>)>,
    pub body: Seq<u8>,
}

impl View for Response {
    type V = ResponseView;

    open spec fn view(&self) -> ResponseView {
        ResponseView {
            status: self.status,
            set_cookie: self.set_cookie.deep_view(),
            headers: self.headers.deep_view(),
            body: self.body@,
        }
    }
}

impl ResponseView {
    /// The empty response with the given status: no header, no body.
    pub open spec fn empty(status: u16) -> ResponseView {
        ResponseView { status, set_cookie: seq![], headers: seq![], body: seq![] }
    }

    /// This response with its `Set-Cookie` header replaced by the single
    /// line `cookie`.
    pub open spec fn with_cookie(self, cookie: Seq<char>) -> ResponseView {
        ResponseView { set_cookie: seq![cookie], ..self }
    }
}

impl Response {
    /// An empty response with the given status.
    pub fn new(status: u16) -> (r: Self)
        ensures
            r@ == ResponseView::empty(status),
    {
        let r = Response {
            status,
            set_cookie: Vec::new(),
            headers: Vec::new(),
            body: Vec::new(),
        };
        assert(r.set_cookie.deep_view() =~= seq![]);
        assert(r.headers.deep_view() =~= seq![]);
        r
    }

    /// The generic response that stands in for a handler's response when
    /// the session could not be written back.
    pub fn internal_error() -> (r: Self)
        ensures
            r@ == ResponseView::empty(INTERNAL_SERVER_ERROR),
    {
        Response::new(INTERNAL_SERVER_ERROR)
    }

    /// Replaces whatever `Set-Cookie` lines the response has by the single
    /// line `cookie`.
    pub fn set_cookie(&mut self, cookie: String)
        ensures
            final(self)@ == old(self)@.with_cookie(cookie@),
    {
        let mut lines: Vec<String> = Vec::new();
        lines.push(cookie);
        assert(lines.deep_view() =~= seq![cookie@]);
        self.set_cookie = lines;
    }
}

} // verus!
