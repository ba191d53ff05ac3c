use vstd::prelude::*;

verus! {

/// Access rules for one class of operations (read or write).
///
/// A list that is `None` is not enforced. Lists hold exact-match strings:
/// IP literals for the `ip_*` lists, public keys for the `pubkey_*` lists.
#[derive(Debug)]
pub struct Permission {
    pub ip_whitelist: Option<Vec<String>>,
    pub pubkey_whitelist: Option<Vec<String>>,
    pub ip_blacklist: Option<Vec<String>>,
    pub pubkey_blacklist: Option<Vec<String>>,
}

/// Configuration of the authentication extension.
#[derive(Debug)]
pub struct AuthSetting {
    pub enabled: bool,
    /// Rules for read requests (`REQ`).
    pub read: Option<Permission>,
    /// Rules for write requests (`EVENT`).
    pub write: Option<Permission>,
}

impl Default for Permission {
    /// No rule configured.
    fn default() -> (r: Self)
        ensures
            r.ip_whitelist is None,
            r.pubkey_whitelist is None,
            r.ip_blacklist is None,
            r.pubkey_blacklist is None,
    {
        Permission { ip_whitelist: None, pubkey_whitelist: None, ip_blacklist: None, pubkey_blacklist: None }
    }
}

impl Default for AuthSetting {
    /// Disabled, with no rules.
    fn default() -> (r: Self)
        ensures
            !r.enabled,
            r.read is None,
            r.write is None,
    {
        AuthSetting { enabled: false, read: None, write: None }
    }
}

/// Why a read or write was refused.
#[derive(Debug, Clone, Copy, PartialEq, Eq)]
pub enum PermissionError {
    IpNotInWhitelist,
    IpInBlacklist,
    AuthRequired,
    PubkeyNotInWhitelist,
    PubkeyInBlacklist,
}

/// `s` equals one of the strings of `list`.
pub open spec fn in_list(list: Seq<String>, s: Seq<char>) -> bool {
    exists|i: int| 0 <= i < list.len() && (#[trigger] list[i])@ == s
}

/// The list is configured and holds `s`.
pub open spec fn listed(list: Option<Vec<String>>, s: Seq<char>) -> bool {
    list is Some && in_list(list->0@, s)
}

/// The view of an optional string.
pub open spec fn opt_view(s: Option<&String>) -> Option<Seq<char>> {
    match s {
        Some(t) => Some(t@),
        None => None,
    }
}

/// The decision for one permission set: the first failing rule, in the
/// order IP whitelist, IP blacklist, pubkey whitelist, pubkey blacklist.
pub open spec fn permission_decision(
    p: Permission,
    pubkey: Option<Seq<char>>,
    ip: Seq<char>,
) -> Result<(), PermissionError> {
    if p.ip_whitelist is Some && !listed(p.ip_whitelist, ip) {
        Err(PermissionError::IpNotInWhitelist)
    } else if listed(p.ip_blacklist, ip) {
        Err(PermissionError::IpInBlacklist)
    } else if p.pubkey_whitelist is Some && pubkey is None {
        Err(PermissionError::AuthRequired)
    } else if p.pubkey_whitelist is Some && !listed(p.pubkey_whitelist, pubkey->0) {
        Err(PermissionError::PubkeyNotInWhitelist)
    } else if p.pubkey_blacklist is Some && pubkey is None {
        Err(PermissionError::AuthRequired)
    } else if p.pubkey_blacklist is Some && listed(p.pubkey_blacklist, pubkey->0) {
        Err(PermissionError::PubkeyInBlacklist)
    } else {
        Ok(())
    }
}

/// The decision for an optional permission set: no set, no restriction.
pub open spec fn permission_outcome(
    permission: Option<&Permission>,
    pubkey: Option<Seq<char>>,
    ip: Seq<char>,
) -> Result<(), PermissionError> {
    match permission {
        Some(p) => permission_decision(*p, pubkey, ip),
        None => Ok(()),
    }
}

/// The text of each refusal.
pub open spec fn permission_error_text(e: PermissionError) -> Seq<char> {
    match e {
        PermissionError::IpNotInWhitelist => "restricted: ip not in whitelist"@,
        PermissionError::IpInBlacklist => "restricted: ip in blacklist"@,
        PermissionError::AuthRequired => "restricted: NIP-42 auth required"@,
        PermissionError::PubkeyNotInWhitelist => "restricted: pubkey not in whitelist"@,
        PermissionError::PubkeyInBlacklist => "restricted: pubkey in blacklist"@,
    }
}

impl PermissionError {
    /// The human-readable reason, prefixed with `restricted:`.
    pub fn to_string(&self) -> (r: String)
        ensures
            r@ == permission_error_text(*self),
    {
        match self {
            PermissionError::IpNotInWhitelist => String::from_str("restricted: ip not in whitelist"),
            PermissionError::IpInBlacklist => String::from_str("restricted: ip in blacklist"),
            PermissionError::AuthRequired => String::from_str("restricted: NIP-42 auth required"),
            PermissionError::PubkeyNotInWhitelist => String::from_str(
                "restricted: pubkey not in whitelist",
            ),
            PermissionError::PubkeyInBlacklist => String::from_str("restricted: pubkey in blacklist"),
        }
    }
}

/// Whether `list` holds a string equal to `s`.
pub fn list_contains(list: &Vec<String>, s: &String) -> (r: bool)
    ensures
        r == in_list(list@, s@),
{
    let mut i: usize = 0;
    while i < list.len()
        invariant
            i <= list.len(),
            forall|j: int| 0 <= j < i ==> (#[trigger] list@[j])@ != s@,
        decreases list.len() - i,
    {
        if list[i] == *s {
            return true;
        }
        i = i + 1;
    }
    false
}

/// With a pubkey whitelist as the only rule, listing `a` but not `b`: a
/// connection with no bound key is told to authenticate, `a` is let through
/// and `b` is refused as not whitelisted, whatever the address.
pub proof fn lemma_pubkey_whitelist_only(p: Permission, a: Seq<char>, b: Seq<char>, ip: Seq<char>)
    requires
        p.ip_whitelist is None,
        p.ip_blacklist is None,
        p.pubkey_blacklist is None,
        listed(p.pubkey_whitelist, a),
        !listed(p.pubkey_whitelist, b),
    ensures
        permission_decision(p, None, ip) == Err::<(), PermissionError>(PermissionError::AuthRequired),
        permission_decision(p, Some(a), ip) == Ok::<(), PermissionError>(()),
        permission_decision(p, Some(b), ip) == Err::<(), PermissionError>(
            PermissionError::PubkeyNotInWhitelist,
        ),
{
}

/// With an IP blacklist as the only rule: an address on it is refused
/// whatever key is bound, and any other address is let through.
pub proof fn lemma_ip_blacklist_only(p: Permission, pubkey: Option<Seq<char>>, ip: Seq<char>)
    requires
        p.ip_whitelist is None,
        p.pubkey_whitelist is None,
        p.pubkey_blacklist is None,
    ensures
        listed(p.ip_blacklist, ip) ==> permission_decision(p, pubkey, ip) == Err::<(), PermissionError>(
            PermissionError::IpInBlacklist,
        ),
        !listed(p.ip_blacklist, ip) ==> permission_decision(p, pubkey, ip) == Ok::<(), PermissionError>(()),
{
}

/// The address rules come first: an address on the IP blacklist is refused
/// for its address, never for its key, whatever the pubkey rules say; with no
/// IP whitelist the reason is the blacklist.
pub proof fn lemma_ip_rules_first(p: Permission, pubkey: Option<Seq<char>>, ip: Seq<char>)
    requires
        listed(p.ip_blacklist, ip),
    ensures
        permission_decision(p, pubkey, ip) == Err::<(), PermissionError>(PermissionError::IpInBlacklist)
            || permission_decision(p, pubkey, ip) == Err::<(), PermissionError>(
            PermissionError::IpNotInWhitelist,
        ),
        p.ip_whitelist is None ==> permission_decision(p, pubkey, ip) == Err::<(), PermissionError>(
            PermissionError::IpInBlacklist,
        ),
{
}

} // verus!
