//! Session identifiers: the token that is both the cookie's value and the
//! key under which a backend stores the session.
//!
//! A generated identifier is the lowercase hexadecimal text of random bytes.
//! The text uses only characters that may stand unquoted in a cookie value,
//! and distinct byte strings always give distinct texts.

use vstd::prelude::*;
use vstd::string::StringExecFns;

verus! {

/// Number of random bytes behind a generated identifier (256 bits).
pub const IDENTIFIER_BYTES: usize = 32;

/// The hexadecimal digit for a value below sixteen.
pub open spec fn hex_digit(n: int) -> char {
    if n == 0 {
        '0'
    } else if n == 1 {
        '1'
    } else if n == 2 {
        '2'
    } else if n == 3 {
        '3'
    } else if n == 4 {
        '4'
    } else if n == 5 {
        '5'
    } else if n == 6 {
        '6'
    } else if n == 7 {
        '7'
    } else if n == 8 {
        '8'
    } else if n == 9 {
        '9'
    } else if n == 10 {
        'a'
    } else if n == 11 {
        'b'
    } else if n == 12 {
        'c'
    } else if n == 13 {
        'd'
    } else if n == 14 {
        'e'
    } else {
        'f'
    }
}

/// Whether `c` is one of the sixteen lowercase hexadecimal digits.
pub open spec fn is_hex_digit(c: char) -> bool {
    exists|n: int| 0 <= n < 16 && c == #[trigger] hex_digit(n)
}

/// The text of `bytes`: two digits per byte, the high half first.
pub open spec fn hex_text(bytes: Seq<u8>) -> Seq<char> {
    Seq::new(
        2 * bytes.len(),
        |i: int|
            if i % 2 == 0 {
                hex_digit(bytes[i / 2] as int / 16)
            } else {
                hex_digit(bytes[i / 2] as int % 16)
            },
    )
}

/// Opaque token that names one session.
///
/// Two identifiers are equal exactly when their texts are equal.
#[derive(Debug, PartialOrd, Ord)]
pub struct SessionIdentifier {
    value: String,
}

impl View for SessionIdentifier {
    type V = Seq<char>;

    closed spec fn view(&self) -> Seq<char> {
        self.value@
    }
}

impl Clone for SessionIdentifier {
    fn clone(&self) -> (r: Self)
        ensures
            r@ == self@,
    {
        SessionIdentifier { value: self.value.clone() }
    }
}

impl PartialEq for SessionIdentifier {
    fn eq(&self, other: &Self) -> (r: bool) {
        self.value == other.value
    }
}

impl Eq for SessionIdentifier {

}

impl vstd::std_specs::cmp::PartialEqSpecImpl for SessionIdentifier {
    open spec fn obeys_eq_spec() -> bool {
        true
    }

    open spec fn eq_spec(&self, other: &Self) -> bool {
        self@ == other@
    }
}

impl SessionIdentifier {
    /// The identifier whose text is `value`, as a client sent it or a
    /// backend generated it.
    pub fn new(value: String) -> (r: Self)
        ensures
            r@ == value@,
    {
        SessionIdentifier { value }
    }

    /// The identifier's text.
    pub fn as_str(&self) -> (r: &str)
        ensures
            r@ == self@,
    {
        self.value.as_str()
    }

    /// The identifier's text, as the owned string that holds it.
    pub fn as_string(&self) -> (r: &String)
        ensures
            r@ == self@,
    {
        &self.value
    }

    /// Gives up the identifier for its text.
    pub fn into_string(self) -> (r: String)
        ensures
            r@ == self@,
    {
        self.value
    }

    /// The identifier that stands for `bytes`: their hexadecimal text.
    pub fn from_bytes(bytes: &[u8]) -> (r: Self)
        ensures
            r@ == hex_text(bytes@),
    {
        let mut text = String::new();
        let mut i: usize = 0;
        while i < bytes.len()
            invariant
                i <= bytes.len(),
                text@ == hex_text(bytes@.take(i as int)),
            decreases bytes.len() - i,
        {
            let b: u8 = bytes[i];
            text.append(hex_str(b / 16));
            text.append(hex_str(b % 16));
            assert(text@ =~= hex_text(bytes@.take(i + 1)));
            i += 1;
        }
        assert(bytes@.take(i as int) =~= bytes@);
        SessionIdentifier { value: text }
    }
}

/// The one-character text of a hexadecimal digit.
fn hex_str(n: u8) -> (s: &'static str)
    requires
        n < 16,
    ensures
        s@ == seq![hex_digit(n as int)],
{
    proof {
        reveal_strlit("0");
        reveal_strlit("1");
        reveal_strlit("2");
        reveal_strlit("3");
        reveal_strlit("4");
        reveal_strlit("5");
        reveal_strlit("6");
        reveal_strlit("7");
        reveal_strlit("8");
        reveal_strlit("9");
        reveal_strlit("a");
        reveal_strlit("b");
        reveal_strlit("c");
        reveal_strlit("d");
        reveal_strlit("e");
        reveal_strlit("f");
    }
    let s = match n {
        0 => "0",
        1 => "1",
        2 => "2",
        3 => "3",
        4 => "4",
        5 => "5",
        6 => "6",
        7 => "7",
        8 => "8",
        9 => "9",
        10 => "a",
        11 => "b",
        12 => "c",
        13 => "d",
        14 => "e",
        _ => "f",
    };
    assert(s@ =~= seq![hex_digit(n as int)]);
    s
}

/// One byte from the thread-local generator of the `rand` crate
/// (`rand::random::<u8>()`). Nothing is claimed of its value.
#[verifier::external_body]
fn random_byte() -> u8 {
    rand::random::<u8>()
}

/// A fresh identifier: the text of `IDENTIFIER_BYTES` random bytes.
///
/// Which bytes are drawn is left to the random source; whatever they are,
/// the identifier is their hexadecimal text, so two draws collide only if
/// the source repeats itself.
pub fn random_identifier() -> (id: SessionIdentifier)
    ensures
        exists|bytes: Seq<u8>| #[trigger] bytes.len() == IDENTIFIER_BYTES && id@ == hex_text(bytes),
        id@.len() == 2 * IDENTIFIER_BYTES,
        forall|i: int| 0 <= i < id@.len() ==> is_hex_digit(#[trigger] id@[i]),
{
    let mut bytes: Vec<u8> = Vec::new();
    let mut i: usize = 0;
    while i < IDENTIFIER_BYTES
        invariant
            i <= IDENTIFIER_BYTES,
            bytes@.len() == i,
        decreases IDENTIFIER_BYTES - i,
    {
        bytes.push(random_byte());
        i += 1;
    }
    let id = SessionIdentifier::from_bytes(bytes.as_slice());
    proof {
        lemma_hex_text_is_cookie_safe(bytes@);
    }
    id
}

/// Every character of a hexadecimal text is a hexadecimal digit, and the
/// text is twice as long as the bytes.
pub proof fn lemma_hex_text_is_cookie_safe(bytes: Seq<u8>)
    ensures
        hex_text(bytes).len() == 2 * bytes.len(),
        forall|i: int| 0 <= i < hex_text(bytes).len() ==> is_hex_digit(#[trigger] hex_text(bytes)[i]),
{
    assert forall|i: int| 0 <= i < hex_text(bytes).len() implies is_hex_digit(
        #[trigger] hex_text(bytes)[i],
    ) by {
        let b = bytes[i / 2] as int;
        if i % 2 == 0 {
            assert(hex_text(bytes)[i] == hex_digit(b / 16));
            assert(0 <= b / 16 < 16);
        } else {
            assert(hex_text(bytes)[i] == hex_digit(b % 16));
            assert(0 <= b % 16 < 16);
        }
    }
}

/// Distinct values below sixteen have distinct digits.
pub proof fn lemma_hex_digit_injective(m: int, n: int)
    requires
        0 <= m < 16,
        0 <= n < 16,
        hex_digit(m) == hex_digit(n),
    ensures
        m == n,
{
}

/// Identifiers made from different bytes differ: the hexadecimal text
/// determines the bytes.
pub proof fn lemma_hex_text_injective(a: Seq<u8>, b: Seq<u8>)
    requires
        hex_text(a) == hex_text(b),
    ensures
        a == b,
{
    assert(hex_text(a).len() == 2 * a.len());
    assert(hex_text(b).len() == 2 * b.len());
    assert(a.len() == b.len());
    assert forall|k: int| 0 <= k < a.len() implies a[k] == b[k] by {
        let x = a[k] as int;
        let y = b[k] as int;
        assert(hex_text(a)[2 * k] == hex_digit(x / 16));
        assert(hex_text(b)[2 * k] == hex_digit(y / 16));
        assert(hex_text(a)[2 * k + 1] == hex_digit(x % 16));
        assert(hex_text(b)[2 * k + 1] == hex_digit(y % 16));
        lemma_hex_digit_injective(x / 16, y / 16);
        lemma_hex_digit_injective(x % 16, y % 16);
    }
    assert(a =~= b);
}

} // verus!
