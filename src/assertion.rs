use crate::state::{hex_encode, hex_text};
use vstd::prelude::*;

verus! {

/// The event kind reserved for client authentication.
pub const AUTH_KIND: u16 = 22242;

/// A signed event as it arrives from a client, with its fields as plain values.
#[derive(Debug, Clone, PartialEq, Eq)]
pub struct SignedEvent {
    pub id: [u8; 32],
    pub pubkey: [u8; 32],
    pub created_at: u64,
    pub kind: u16,
    pub tags: Vec<Vec<String>>,
    pub content: String,
    pub sig: [u8; 64],
}

/// Why a proof message was refused.
#[derive(Debug, Clone, PartialEq, Eq)]
pub enum AuthError {
    /// The connection has no outstanding challenge.
    NoChallenge,
    /// The event failed structural validation; the validator's message.
    Invalid(String),
    /// Wrong kind, or no tag answers the challenge.
    Mismatch,
}

/// The notice text for each refusal: the validator's message verbatim, a
/// generic `auth error` otherwise.
pub open spec fn auth_error_text(e: AuthError) -> Seq<char> {
    match e {
        AuthError::Invalid(m) => m@,
        _ => "auth error"@,
    }
}

impl AuthError {
    pub fn to_string(&self) -> (r: String)
        ensures
            r@ == auth_error_text(*self),
    {
        match self {
            AuthError::Invalid(m) => m.clone(),
            _ => String::from_str("auth error"),
        }
    }
}

/// The tag is `["challenge", challenge, ...]`.
pub open spec fn answers(tag: Seq<String>, challenge: Seq<char>) -> bool {
    tag.len() > 1 && tag[0]@ == "challenge"@ && tag[1]@ == challenge
}

/// Some tag of `tags` answers the challenge.
pub open spec fn has_answer(tags: Seq<Vec<String>>, challenge: Seq<char>) -> bool {
    exists|i: int| 0 <= i < tags.len() && answers((#[trigger] tags[i])@, challenge)
}

/// The outcome of a proof message against an outstanding challenge, given
/// the validator's verdict on the event: the public key (hex) that the
/// connection becomes bound to, or the refusal.
pub open spec fn proof_outcome(
    challenge: Seq<char>,
    ev: SignedEvent,
    verdict: Result<(), String>,
) -> Result<Seq<char>, AuthError> {
    match verdict {
        Err(m) => Err(AuthError::Invalid(m)),
        Ok(_) => if ev.kind == AUTH_KIND && has_answer(ev.tags@, challenge) {
            Ok(hex_text(ev.pubkey@))
        } else {
            Err(AuthError::Mismatch)
        },
    }
}

/// Whether some tag answers `challenge`; the tags are scanned in order.
fn find_answer(tags: &Vec<Vec<String>>, challenge: &String) -> (r: bool)
    ensures
        r == has_answer(tags@, challenge@),
{
    let key = String::from_str("challenge");
    let mut i: usize = 0;
    while i < tags.len()
        invariant
            i <= tags.len(),
            key@ == "challenge"@,
            forall|j: int| 0 <= j < i ==> !answers((#[trigger] tags@[j])@, challenge@),
        decreases tags.len() - i,
    {
        let tag = &tags[i];
        if tag.len() > 1 && tag[0] == key && tag[1] == *challenge {
            return true;
        }
        i = i + 1;
    }
    false
}

/// Checks a proof message against the outstanding `challenge`, given the
/// validator's verdict on the event. On success returns the event's public
/// key as hex text.
pub fn check_proof(challenge: &String, ev: &SignedEvent, verdict: Result<(), String>) -> (r: Result<
    String,
    AuthError,
>)
    ensures
        r matches Ok(p) ==> proof_outcome(challenge@, *ev, verdict) == Ok::<Seq<char>, AuthError>(
            p@,
        ),
        r matches Err(e) ==> proof_outcome(challenge@, *ev, verdict) == Err::<Seq<char>, AuthError>(
            e,
        ),
{
    match verdict {
        Err(m) => Err(AuthError::Invalid(m)),
        Ok(()) => {
            if ev.kind == AUTH_KIND && find_answer(&ev.tags, challenge) {
                Ok(hex_encode(ev.pubkey.as_slice()))
            } else {
                Err(AuthError::Mismatch)
            }
        },
    }
}

} // verus!
