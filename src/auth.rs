use crate::assertion::{
    auth_error_text, check_proof, has_answer, proof_outcome, AuthError, SignedEvent, AUTH_KIND,
};
use crate::outside::{draw_uuid, store_verdict, uuid_string, uuid_text, validate_at};
use crate::permission::{
    list_contains, opt_view, permission_decision, permission_error_text, permission_outcome,
    AuthSetting, Permission, PermissionError,
};
use crate::state::{hex_encode, hex_text, AuthState};
use vstd::prelude::*;

verus! {

/// The protocol capability (NIP) that this extension adds when enabled.
pub const AUTH_NIP: u16 = 42;

/// An inbound client message, by class.
#[derive(Debug, Clone, PartialEq, Eq)]
pub enum Inbound {
    /// A proof of identity (`AUTH`).
    Auth(SignedEvent),
    /// A write (`EVENT`).
    Event(SignedEvent),
    /// A read (`REQ`).
    Req,
    /// Any other message.
    Other,
}

/// An outbound frame.
#[derive(Debug, Clone, PartialEq, Eq)]
pub enum Outgoing {
    /// `["AUTH", <challenge>]`
    Auth(String),
    /// `["NOTICE", <text>]`
    Notice(String),
    /// `["OK", <event id>, <accepted>, <reason>]`
    Ack(String, bool, String),
}

/// What becomes of an inbound message.
#[derive(Debug, Clone, PartialEq, Eq)]
pub enum Handled {
    /// It goes on, unchanged, to the rest of the pipeline.
    Continue,
    /// It stops here, with this reply.
    Reply(Outgoing),
}

/// The reply is a notice with this text.
pub open spec fn notice_is(r: Handled, text: Seq<char>) -> bool {
    r matches Handled::Reply(Outgoing::Notice(n)) && n@ == text
}

/// The public key bound to a connection, if any.
pub open spec fn bound_identity(s: Option<AuthState>) -> Option<Seq<char>> {
    match s {
        Some(a) => a.identity(),
        None => None,
    }
}

/// The decision for an optional permission set held by value.
pub open spec fn rules_outcome(
    rules: Option<Permission>,
    pubkey: Option<Seq<char>>,
    ip: Seq<char>,
) -> Result<(), PermissionError> {
    match rules {
        Some(p) => permission_decision(p, pubkey, ip),
        None => Ok(()),
    }
}

/// How a proof message moves the connection's state, given the validator's
/// verdict, and what is sent back. Only a pending challenge can be met; a
/// refusal keeps the state.
pub open spec fn auth_step(
    before: Option<AuthState>,
    ev: SignedEvent,
    verdict: Result<(), String>,
    after: Option<AuthState>,
    r: Handled,
) -> bool {
    match before {
        Some(AuthState::Challenge(c)) => match proof_outcome(c@, ev, verdict) {
            Ok(p) => after matches Some(AuthState::Pubkey(q)) && q@ == p && notice_is(
                r,
                "auth success"@,
            ),
            Err(e) => after == before && notice_is(r, auth_error_text(e)),
        },
        _ => after == before && notice_is(r, auth_error_text(AuthError::NoChallenge)),
    }
}

/// The reply to a write, given the decision of the write rules.
pub open spec fn write_reply(decision: Result<(), PermissionError>, ev: SignedEvent, r: Handled) -> bool {
    match decision {
        Ok(_) => r is Continue,
        Err(e) => r matches Handled::Reply(Outgoing::Ack(id, accepted, reason)) && id@ == hex_text(
            ev.id@,
        ) && !accepted && reason@ == permission_error_text(e),
    }
}

/// The reply to a read, given the decision of the read rules.
pub open spec fn read_reply(decision: Result<(), PermissionError>, r: Handled) -> bool {
    match decision {
        Ok(_) => r is Continue,
        Err(e) => notice_is(r, permission_error_text(e)),
    }
}

/// The validator's answer `v` is the store's verdict `o`.
pub open spec fn verdict_is(o: Option<Seq<char>>, v: Result<(), String>) -> bool {
    match v {
        Ok(_) => o is None,
        Err(m) => o == Some(m@),
    }
}

/// A proof message handled at time `t`: against a pending challenge the
/// verdict `v` is the event store's, at `t` with the window `(0, 0)`; the
/// state and the reply then follow `auth_step`.
pub open spec fn proof_step(
    before: Option<AuthState>,
    ev: SignedEvent,
    t: u64,
    v: Result<(), String>,
    after: Option<AuthState>,
    r: Handled,
) -> bool {
    &&& before matches Some(AuthState::Challenge(_)) ==> verdict_is(store_verdict(ev, t, 0, 0), v)
    &&& auth_step(before, ev, v, after, r)
}

/// The challenge issued from the UUID `u`: its text, stored as the pending
/// challenge and announced.
pub open spec fn challenge_issued(u: u128, state: Option<AuthState>, r: Option<Outgoing>) -> bool {
    &&& state matches Some(AuthState::Challenge(c)) && c@ == uuid_text(u) && c@.len() == 36
    &&& r matches Some(Outgoing::Auth(t)) && t@ == uuid_text(u)
}

/// The public key bound to the connection, if any.
fn bound_pubkey(state: &Option<AuthState>) -> (r: Option<&String>)
    ensures
        opt_view(r) == bound_identity(*state),
{
    match state {
        Some(s) => s.pubkey(),
        None => None,
    }
}

/// Applies a proof message to the connection's state, given the validator's
/// verdict on the event: a pending challenge that the event meets gives way to
/// the event's key; anything else is refused and the state kept.
pub fn apply_proof(ev: &SignedEvent, verdict: Result<(), String>, state: &mut Option<AuthState>) -> (r:
    Handled)
    ensures
        auth_step(*old(state), *ev, verdict, *final(state), r),
{
    let challenge = match &*state {
        Some(AuthState::Challenge(c)) => c.clone(),
        _ => {
            return Handled::Reply(Outgoing::Notice(AuthError::NoChallenge.to_string()));
        },
    };
    match check_proof(&challenge, ev, verdict) {
        Ok(p) => {
            *state = Some(AuthState::Pubkey(p));
            Handled::Reply(Outgoing::Notice(String::from_str("auth success")))
        },
        Err(e) => Handled::Reply(Outgoing::Notice(e.to_string())),
    }
}

/// Handles a proof message. Against a pending challenge, the event store
/// validates the event at the current time with the window `(0, 0)`, as the
/// relay always has (this validator reads 0 as no bound on that side); its
/// verdict is then applied.
fn handle_proof(ev: &SignedEvent, state: &mut Option<AuthState>) -> (r: Handled)
    ensures
        exists|t: u64, v: Result<(), String>|
            #[trigger] proof_step(*old(state), *ev, t, v, *final(state), r),
{
    let (t, verdict) = match &*state {
        Some(AuthState::Challenge(_)) => {
            let t = nostr_db::now();
            (t, validate_at(ev, t, 0, 0))
        },
        _ => (0, Ok(())),
    };
    let ghost v = verdict;
    let r = apply_proof(ev, verdict, state);
    assert(proof_step(*old(state), *ev, t, v, *final(state), r));
    r
}

/// The authentication extension: a challenge per connection and the
/// read/write access rules.
#[derive(Debug)]
pub struct Auth {
    setting: AuthSetting,
}

impl Auth {
    /// A disabled extension with no access rules.
    pub fn new() -> (r: Self)
        ensures
            !r.config().enabled,
            r.config().read is None,
            r.config().write is None,
    {
        Auth { setting: AuthSetting { enabled: false, read: None, write: None } }
    }

    /// The configuration in force.
    pub closed spec fn config(&self) -> AuthSetting {
        self.setting
    }

    /// Checks one permission set against the connection's bound public key
    /// (if any) and its address. The rules run in a fixed order and the first
    /// that fails is reported.
    pub fn verify_permission(
        permission: Option<&Permission>,
        pubkey: Option<&String>,
        ip: &String,
    ) -> (r: Result<(), PermissionError>)
        ensures
            r == permission_outcome(permission, opt_view(pubkey), ip@),
    {
        if let Some(permission) = permission {
            if let Some(list) = &permission.ip_whitelist {
                if !list_contains(list, ip) {
                    return Err(PermissionError::IpNotInWhitelist);
                }
            }
            if let Some(list) = &permission.ip_blacklist {
                if list_contains(list, ip) {
                    return Err(PermissionError::IpInBlacklist);
                }
            }
            if let Some(list) = &permission.pubkey_whitelist {
                if let Some(pubkey) = pubkey {
                    if !list_contains(list, pubkey) {
                        return Err(PermissionError::PubkeyNotInWhitelist);
                    }
                } else {
                    return Err(PermissionError::AuthRequired);
                }
            }
            if let Some(list) = &permission.pubkey_blacklist {
                if let Some(pubkey) = pubkey {
                    if list_contains(list, pubkey) {
                        return Err(PermissionError::PubkeyInBlacklist);
                    }
                } else {
                    return Err(PermissionError::AuthRequired);
                }
            }
        }
        Ok(())
    }
    /// The extension's name, under which its configuration is found.
    pub fn name(&self) -> (r: &'static str)
        ensures
            r@ == "auth"@,
    {
        "auth"
    }

    /// Installs a configuration. Returns the capability to advertise: the
    /// authentication NIP when enabled, nothing otherwise.
    pub fn setting(&mut self, setting: AuthSetting) -> (nip: Option<u16>)
        ensures
            final(self).config() == setting,
            nip == (if setting.enabled { Some(AUTH_NIP) } else { None::<u16> }),
    {
        let nip = if setting.enabled { Some(AUTH_NIP) } else { None };
        self.setting = setting;
        nip
    }

    /// Issues the challenge made from the UUID `u`: when enabled, stores its
    /// text as the connection's pending challenge and returns the frame that
    /// announces it.
    pub fn challenge_from(&self, u: u128, state: &mut Option<AuthState>) -> (r: Option<Outgoing>)
        ensures
            self.config().enabled ==> challenge_issued(u, *final(state), r),
            !self.config().enabled ==> r is None && *final(state) == *old(state),
    {
        if self.setting.enabled {
            let token = uuid_string(u);
            *state = Some(AuthState::Challenge(token.clone()));
            Some(Outgoing::Auth(token))
        } else {
            None
        }
    }

    /// A connection opened. When enabled, issues its one challenge from a
    /// fresh random UUID.
    pub fn connected(&self, state: &mut Option<AuthState>) -> (r: Option<Outgoing>)
        ensures
            self.config().enabled ==> exists|u: u128| #[trigger]
                challenge_issued(u, *final(state), r),
            !self.config().enabled ==> r is None && *final(state) == *old(state),
    {
        if self.setting.enabled {
            let u = draw_uuid();
            let r = self.challenge_from(u, state);
            assert(challenge_issued(u, *final(state), r));
            r
        } else {
            None
        }
    }

    /// An inbound message on a connection with this state and address. When
    /// disabled, every message goes on. When enabled, a proof message is
    /// answered here, and a write or read goes on only if its rules allow it.
    /// Only a successful proof changes the state, and never sends a challenge.
    pub fn message(&self, msg: &Inbound, state: &mut Option<AuthState>, ip: &String) -> (r: Handled)
        ensures
            !(r matches Handled::Reply(Outgoing::Auth(_))),
            !self.config().enabled ==> r is Continue && *final(state) == *old(state),
            self.config().enabled ==> match msg {
                Inbound::Auth(ev) => exists|t: u64, v: Result<(), String>|
                    #[trigger] proof_step(*old(state), *ev, t, v, *final(state), r),
                Inbound::Event(ev) => *final(state) == *old(state) && write_reply(
                    rules_outcome(self.config().write, bound_identity(*old(state)), ip@),
                    *ev,
                    r,
                ),
                Inbound::Req => *final(state) == *old(state) && read_reply(
                    rules_outcome(self.config().read, bound_identity(*old(state)), ip@),
                    r,
                ),
                Inbound::Other => *final(state) == *old(state) && r is Continue,
            },
    {
        if !self.setting.enabled {
            return Handled::Continue;
        }
        match msg {
            Inbound::Auth(ev) => handle_proof(ev, state),
            Inbound::Event(ev) => {
                match Self::verify_permission(self.setting.write.as_ref(), bound_pubkey(state), ip) {
                    Ok(()) => Handled::Continue,
                    Err(e) => Handled::Reply(
                        Outgoing::Ack(hex_encode(ev.id.as_slice()), false, e.to_string()),
                    ),
                }
            },
            Inbound::Req => {
                match Self::verify_permission(self.setting.read.as_ref(), bound_pubkey(state), ip) {
                    Ok(()) => Handled::Continue,
                    Err(e) => Handled::Reply(Outgoing::Notice(e.to_string())),
                }
            },
            Inbound::Other => Handled::Continue,
        }
    }
}

impl Default for Auth {
    fn default() -> (r: Self)
        ensures
            !r.config().enabled,
            r.config().read is None,
            r.config().write is None,
    {
        Auth::new()
    }
}

/// A correct proof (the reserved kind, a tag that answers the challenge)
/// that the event store accepts binds the connection to the event's key and
/// is answered with success.
pub proof fn lemma_correct_proof_authenticates(
    c: String,
    ev: SignedEvent,
    t: u64,
    v: Result<(), String>,
    after: Option<AuthState>,
    r: Handled,
)
    requires
        ev.kind == AUTH_KIND,
        has_answer(ev.tags@, c@),
        store_verdict(ev, t, 0, 0) is None,
        proof_step(Some(AuthState::Challenge(c)), ev, t, v, after, r),
    ensures
        after matches Some(AuthState::Pubkey(q)) && q@ == hex_text(ev.pubkey@),
        notice_is(r, "auth success"@),
{
}

/// A proof whose tags do not answer the challenge keeps the challenge and,
/// when the event store accepts the event, is refused with `auth error`; a
/// correct proof that follows still succeeds.
pub proof fn lemma_wrong_answer_keeps_challenge(
    c: String,
    bad: SignedEvent,
    t1: u64,
    v1: Result<(), String>,
    mid: Option<AuthState>,
    r1: Handled,
    good: SignedEvent,
    t2: u64,
    v2: Result<(), String>,
    after: Option<AuthState>,
    r2: Handled,
)
    requires
        !has_answer(bad.tags@, c@),
        proof_step(Some(AuthState::Challenge(c)), bad, t1, v1, mid, r1),
        good.kind == AUTH_KIND,
        has_answer(good.tags@, c@),
        store_verdict(good, t2, 0, 0) is None,
        proof_step(mid, good, t2, v2, after, r2),
    ensures
        mid == Some(AuthState::Challenge(c)),
        store_verdict(bad, t1, 0, 0) is None ==> notice_is(r1, "auth error"@),
        after matches Some(AuthState::Pubkey(q)) && q@ == hex_text(good.pubkey@),
        notice_is(r2, "auth success"@),
{
}

/// Once authenticated, a connection stays bound to its key: any further
/// proof message is refused with `auth error` and changes nothing.
pub proof fn lemma_authenticated_is_final(
    p: String,
    ev: SignedEvent,
    t: u64,
    v: Result<(), String>,
    after: Option<AuthState>,
    r: Handled,
)
    requires
        proof_step(Some(AuthState::Pubkey(p)), ev, t, v, after, r),
    ensures
        after == Some(AuthState::Pubkey(p)),
        notice_is(r, "auth error"@),
{
}

} // verus!
