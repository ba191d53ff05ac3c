use crate::assertion::SignedEvent;
use vstd::prelude::*;

verus! {

/// The event store's verdict on an event, checked at time `now` with the
/// window `older`/`newer` (0 leaves that side unbounded): `None` when the event
/// passes (not expired, inside the window, id hash, Schnorr signature and
/// delegation all correct), else the text of the error. It depends on its
/// arguments alone.
pub uninterp spec fn store_verdict(ev: SignedEvent, now: u64, older: u64, newer: u64) -> Option<
    Seq<char>,
>;

/// The hyphenated lowercase text of the UUID with this 128-bit value.
pub uninterp spec fn uuid_text(u: u128) -> Seq<char>;

/// Relies on `nostr_db::now`: the current time in seconds; any value may come
/// back.
pub assume_specification[ nostr_db::now ]() -> u64;

/// Relies on `nostr_db::Event::new` and `nostr_db::Event::validate`: builds the
/// store's event from the same fields (a malformed `expiration`, `delegation`,
/// `e` or `p` tag is an error) and validates it; on failure, the error's text.
/// `validate` computes `now - older` and `now + newer` for a non-zero bound,
/// so those must not overflow.
#[verifier::external_body]
pub(crate) fn validate_at(ev: &SignedEvent, now: u64, older: u64, newer: u64) -> (r: Result<
    (),
    String,
>)
    requires
        older == 0 || older <= now,
        newer == 0 || now as int + newer as int <= u64::MAX,
    ensures
        r is Ok <==> store_verdict(*ev, now, older, newer) is None,
        r matches Err(m) ==> store_verdict(*ev, now, older, newer) == Some(m@),
{
    let tags = ev.tags.clone();
    match nostr_db::Event::new(ev.id, ev.pubkey, ev.created_at, ev.kind, tags, ev.content.clone(), ev.sig) {
        Ok(event) => match event.validate(now, older, newer) {
            Ok(()) => Ok(()),
            Err(e) => Err(e.to_string()),
        },
        Err(e) => Err(e.to_string()),
    }
}

/// Relies on `uuid::Uuid::new_v4`: a random version-4 UUID, as its 128-bit
/// value. Nothing is promised of the value; it panics only where the
/// operating system's random source fails.
#[verifier::external_body]
pub(crate) fn draw_uuid() -> u128 {
    uuid::Uuid::new_v4().as_u128()
}

/// Relies on `uuid::Uuid::from_u128` and its `Display`: the hyphenated
/// lowercase form, 36 characters.
#[verifier::external_body]
pub(crate) fn uuid_string(u: u128) -> (r: String)
    ensures
        r@ == uuid_text(u),
        r@.len() == 36,
{
    uuid::Uuid::from_u128(u).to_string()
}

} // verus!
