use vstd::prelude::*;

verus! {

/// Per-connection authentication state.
#[derive(Debug, Clone, PartialEq, Eq)]
pub enum AuthState {
    /// Waiting for a proof that answers this challenge.
    Challenge(String),
    /// Authenticated with this public key (hex).
    Pubkey(String),
}

impl AuthState {
    /// The bound public key, if the connection is authenticated.
    pub open spec fn identity(&self) -> Option<Seq<char>> {
        match self {
            AuthState::Pubkey(p) => Some(p@),
            AuthState::Challenge(_) => None,
        }
    }

    pub fn authed(&self) -> (r: bool)
        ensures
            r == (self is Pubkey),
    {
        matches!(self, Self::Pubkey(_))
    }

    pub fn pubkey(&self) -> (r: Option<&String>)
        ensures
            r matches Some(p) ==> self == AuthState::Pubkey(*p),
            r is None <==> self is Challenge,
    {
        match self {
            Self::Pubkey(p) => Some(p),
            Self::Challenge(_) => None,
        }
    }
}

/// The lowercase hexadecimal digit for `n < 16`.
pub open spec fn hex_digit(n: u8) -> char {
    if n < 10 {
        ((n + 48) as u8) as char
    } else {
        ((n + 87) as u8) as char
    }
}

/// Lowercase hexadecimal text of `b`: two digits per byte, high nibble first.
pub open spec fn hex_text(b: Seq<u8>) -> Seq<char>
    decreases b.len(),
{
    if b.len() == 0 {
        Seq::empty()
    } else {
        let last = b.last();
        hex_text(b.drop_last()) + seq![hex_digit(last / 16), hex_digit(last % 16)]
    }
}

/// Relies on `String::push`: appends one character.
#[verifier::external_body]
fn push_char(s: &mut String, c: char)
    ensures
        final(s)@ == old(s)@.push(c),
{
    s.push(c)
}

fn hex_char(n: u8) -> (c: char)
    requires
        n < 16,
    ensures
        c == hex_digit(n),
{
    if n < 10 {
        (n + 48) as char
    } else {
        (n + 87) as char
    }
}

/// Encodes bytes as lowercase hexadecimal text, the text form of event ids
/// and public keys.
pub fn hex_encode(b: &[u8]) -> (r: String)
    ensures
        r@ == hex_text(b@),
{
    let mut r = String::new();
    let mut i: usize = 0;
    while i < b.len()
        invariant
            i <= b.len(),
            r@ == hex_text(b@.subrange(0, i as int)),
        decreases b.len() - i,
    {
        let byte = b[i];
        push_char(&mut r, hex_char(byte / 16));
        push_char(&mut r, hex_char(byte % 16));
        proof {
            let next = b@.subrange(0, i + 1);
            assert(next.drop_last() =~= b@.subrange(0, i as int));
            assert(next.last() == byte);
        }
        i = i + 1;
    }
    assert(b@.subrange(0, b.len() as int) =~= b@);
    r
}

} // verus!
