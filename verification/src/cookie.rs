//! The session cookie: its configuration, the text that announces a new
//! session to the client, and the lookup of the identifier that a client
//! sends back.

use hyper::header::{Cookie, Header, Raw};
use vstd::prelude::*;
use vstd::string::StringExecFns;

verus! {

/// Name of the session cookie where none is configured.
pub const DEFAULT_COOKIE_NAME: &'static str = "_gotham_session";

/// Whether the cookie is restricted to secure transports.
#[derive(Debug, Clone, Copy, PartialEq, Eq, Structural)]
pub enum SecureCookie {
    /// The cookie may travel over any transport.
    Insecure,
    /// The cookie carries the `secure` attribute.
    Secure,
}

/// Name and transport policy of the session cookie. Built once and then
/// only read by every session that a middleware spawns.
#[derive(Debug)]
pub struct SessionCookieConfig {
    name: String,
    secure: SecureCookie,
}

/// The value of the response header that hands `identifier` to the client:
/// `name=identifier`, then the `secure` attribute where configured, then
/// `HttpOnly`, always.
pub open spec fn cookie_text(name: Seq<char>, secure: SecureCookie, identifier: Seq<char>) -> Seq<
    char,
> {
    name + "="@ + identifier + match secure {
        SecureCookie::Insecure => "; HttpOnly"@,
        SecureCookie::Secure => "; secure; HttpOnly"@,
    }
}

impl SessionCookieConfig {
    /// The configured cookie name.
    pub closed spec fn spec_name(&self) -> Seq<char> {
        self.name@
    }

    /// The configured transport policy.
    pub closed spec fn spec_secure(&self) -> SecureCookie {
        self.secure
    }

    /// A configuration with the given name and policy.
    pub fn new(name: String, secure: SecureCookie) -> (r: Self)
        ensures
            r.spec_name() == name@,
            r.spec_secure() == secure,
    {
        SessionCookieConfig { name, secure }
    }

    /// The cookie's name.
    pub fn name(&self) -> (r: &str)
        ensures
            r@ == self.spec_name(),
    {
        self.name.as_str()
    }

    /// The cookie's transport policy.
    pub fn secure(&self) -> (r: SecureCookie)
        ensures
            r == self.spec_secure(),
    {
        self.secure
    }

    /// The header value that announces `identifier` under this
    /// configuration.
    pub fn cookie_string(&self, identifier: &str) -> (r: String)
        ensures
            r@ == cookie_text(self.spec_name(), self.spec_secure(), identifier@),
    {
        let mut text = self.name.clone();
        text.append("=");
        text.append(identifier);
        match self.secure {
            SecureCookie::Insecure => text.append("; HttpOnly"),
            SecureCookie::Secure => text.append("; secure; HttpOnly"),
        }
        text
    }

    /// The identifier that a request's `Cookie` header carries under the
    /// configured name, if any.
    pub fn identifier_in(&self, header: &[u8]) -> (r: Option<String>)
        ensures
            r.is_some() == cookie_value(header@, self.spec_name()).is_some(),
            r matches Some(v) ==> cookie_value(header@, self.spec_name()) == Some(v@),
    {
        header_cookie(header, self.name.as_str())
    }
}

/// What hyper's `Cookie` header yields for `name` when it is parsed from the
/// raw header value `header`: the value stored under that name, or `None`
/// where the header does not parse or holds no such cookie.
pub uninterp spec fn cookie_value(header: Seq<u8>, name: Seq<char>) -> Option<Seq<char>>;

/// Parses `header` as hyper does a request's `Cookie` header
/// (`Cookie::parse_header` on the raw value) and looks `name` up in the
/// outcome (`Cookie::get`). A header that does not parse counts as holding
/// no cookie, as it does when hyper's typed header lookup is used.
#[verifier::external_body]
fn header_cookie(header: &[u8], name: &str) -> (r: Option<String>)
    ensures
        r.is_some() == cookie_value(header@, name@).is_some(),
        r matches Some(v) ==> cookie_value(header@, name@) == Some(v@),
{
    match Cookie::parse_header(&Raw::from(header)) {
        Ok(cookie) => cookie.get(name).map(str::to_owned),
        Err(_) => None,
    }
}

} // verus!
