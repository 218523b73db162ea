//! The authorization layer: credential issuance, validation of a presented
//! bearer token, and the role matrix of the gateway's operations.
use vstd::prelude::*;
use vstd::string::{StrSliceExecFns, StringExecFns};
use crate::trusted::{hs256_claims, read_claims};

verus! {

/// The seconds for which an issued credential stays valid.
pub const CREDENTIAL_LIFETIME_SECS: i64 = 3600;

/// The role a principal holds. `Other` is a role name that the gateway does
/// not know: such a principal is admitted nowhere.
#[derive(Clone, Copy, Debug, PartialEq, Eq, Structural)]
pub enum Role {
    Admin,
    Viewer,
    Other,
}

/// The operations the gateway exposes.
#[derive(Clone, Copy, Debug, PartialEq, Eq, Structural)]
pub enum Operation {
    IssueCredential,
    InventoryWrite,
    InventoryRead,
    ForecastRequest,
}

/// Why a request was refused.
#[derive(Clone, Copy, Debug, PartialEq, Eq, Structural)]
pub enum AuthError {
    /// The credential is missing, malformed, forged or expired.
    Unauthorized,
    /// The credential is valid but its role is not admitted.
    Forbidden,
}

/// An authenticated identity, rebuilt from the presented credential.
#[derive(Debug)]
pub struct Principal {
    pub subject: String,
    pub role: Role,
    pub expiry: u64,
}

/// One entry of the principal store.
#[derive(Debug)]
pub struct Account {
    pub username: String,
    pub password: String,
    pub role: Role,
}

/// The authorization configuration: the signing secret and the principal store.
pub struct AuthConfig {
    pub secret: Vec<u8>,
    pub accounts: Vec<Account>,
}

/// The role named by `s`.
pub open spec fn role_of(s: Seq<char>) -> Role {
    if s == "admin"@ {
        Role::Admin
    } else if s == "viewer"@ {
        Role::Viewer
    } else {
        Role::Other
    }
}

/// The name written into a credential for `r`.
pub open spec fn role_name(r: Role) -> Seq<char> {
    match r {
        Role::Admin => "admin"@,
        Role::Viewer => "viewer"@,
        Role::Other => "other"@,
    }
}

/// The role matrix: issuing a credential needs none, reading the inventory
/// admits admins and viewers, every other operation admits admins only.
pub open spec fn permits(role: Role, op: Operation) -> bool {
    match op {
        Operation::IssueCredential => true,
        Operation::InventoryRead => role == Role::Admin || role == Role::Viewer,
        Operation::InventoryWrite | Operation::ForecastRequest => role == Role::Admin,
    }
}

/// Whether store entry `a` holds exactly `user` and `pass`.
pub open spec fn account_matches(a: Account, user: Seq<char>, pass: Seq<char>) -> bool {
    a.username@ == user && a.password@ == pass
}

/// The role of the first entry of `accounts` that matches `user` and `pass`.
pub open spec fn store_role(accounts: Seq<Account>, user: Seq<char>, pass: Seq<char>) -> Option<Role>
    decreases accounts.len(),
{
    if accounts.len() == 0 {
        None
    } else if account_matches(accounts[0], user, pass) {
        Some(accounts[0].role)
    } else {
        store_role(accounts.skip(1), user, pass)
    }
}

/// The token that follows the bearer scheme in `header`, if it has one.
pub open spec fn bearer_part(header: Seq<char>) -> Option<Seq<char>> {
    if header.len() >= 7 && header.take(7) == "Bearer "@ {
        Some(header.skip(7))
    } else {
        None
    }
}

/// What validation yields for `header` at time `now` under `secret`.
pub open spec fn validation_of(header: Option<Seq<char>>, secret: Seq<u8>, now: i64) -> Option<(Seq<char>, Role, u64)> {
    match header {
        None => None,
        Some(h) => match bearer_part(h) {
            None => None,
            Some(token) => match hs256_claims(token, secret) {
                None => None,
                Some(c) => if (now as int) < (c.2 as int) {
                    Some((c.0, role_of(c.1), c.2))
                } else {
                    None
                },
            },
        },
    }
}

/// Whether `a` and `b` hold the same characters.
pub fn same_text(a: &str, b: &str) -> (r: bool)
    ensures
        r == (a@ == b@),
{
    let n = a.unicode_len();
    if n != b.unicode_len() {
        return false;
    }
    let mut i: usize = 0;
    while i < n
        invariant
            n == a@.len() == b@.len(),
            i <= n,
            forall|k: int| 0 <= k < i ==> a@[k] == b@[k],
        decreases n - i,
    {
        if a.get_char(i) != b.get_char(i) {
            return false;
        }
        i = i + 1;
    }
    assert(a@ =~= b@);
    true
}

/// The role named by `s`.
pub fn parse_role(s: &str) -> (r: Role)
    ensures
        r == role_of(s@),
{
    if same_text(s, "admin") {
        Role::Admin
    } else if same_text(s, "viewer") {
        Role::Viewer
    } else {
        Role::Other
    }
}

/// The name written into a credential for `r`.
pub fn name_of_role(r: Role) -> (s: &'static str)
    ensures
        s@ == role_name(r),
{
    match r {
        Role::Admin => "admin",
        Role::Viewer => "viewer",
        Role::Other => "other",
    }
}

/// Admit iff the role matrix lets `role` perform `op`.
pub fn authorize(role: Role, op: Operation) -> (r: bool)
    ensures
        r == permits(role, op),
{
    match op {
        Operation::IssueCredential => true,
        Operation::InventoryRead => role == Role::Admin || role == Role::Viewer,
        Operation::InventoryWrite | Operation::ForecastRequest => role == Role::Admin,
    }
}

/// The token that follows `Bearer ` in an Authorization header.
pub fn bearer_token(header: &str) -> (r: Option<&str>)
    ensures
        r matches Some(t) ==> bearer_part(header@) == Some(t@),
        r is None ==> bearer_part(header@) is None,
{
    let n = header.unicode_len();
    if n < 7 {
        return None;
    }
    let head = header.substring_char(0, 7);
    if !same_text(head, "Bearer ") {
        return None;
    }
    assert(head@ == header@.take(7));
    Some(header.substring_char(7, n))
}

/// The expiry of a credential issued at `now`, when it is a valid timestamp.
pub open spec fn expiry_spec(now: i64) -> Option<u64> {
    let e = now as int + CREDENTIAL_LIFETIME_SECS as int;
    if 0 <= e <= i64::MAX as int {
        Some(e as u64)
    } else {
        None
    }
}

/// The expiry of a credential issued at `now`: sixty minutes later.
pub fn credential_expiry(now: i64) -> (r: Option<u64>)
    ensures
        r == expiry_spec(now),
{
    if now > i64::MAX - CREDENTIAL_LIFETIME_SECS || now < -CREDENTIAL_LIFETIME_SECS {
        None
    } else {
        Some((now + CREDENTIAL_LIFETIME_SECS) as u64)
    }
}

/// The role of the first account that holds exactly `user` and `pass`.
pub fn find_role(accounts: &Vec<Account>, user: &str, pass: &str) -> (r: Option<Role>)
    ensures
        r == store_role(accounts@, user@, pass@),
{
    let mut i: usize = 0;
    assert(accounts@.skip(0) =~= accounts@);
    while i < accounts.len()
        invariant
            i <= accounts@.len(),
            store_role(accounts@, user@, pass@) == store_role(accounts@.skip(i as int), user@, pass@),
        decreases accounts.len() - i,
    {
        let a = &accounts[i];
        assert(accounts@.skip(i as int)[0] == accounts@[i as int]);
        assert(accounts@.skip(i as int).skip(1) =~= accounts@.skip(i + 1));
        if same_text(a.username.as_str(), user) && same_text(a.password.as_str(), pass) {
            return Some(a.role);
        }
        i = i + 1;
    }
    assert(accounts@.skip(i as int).len() == 0);
    None
}

/// Admits decoded claims `(sub, role, exp)` whose expiry lies after `now`;
/// anything else is refused as unauthorized.
pub fn admit_claims(claims: Option<(String, String, u64)>, now: i64) -> (r: Result<Principal, AuthError>)
    ensures
        match claims {
            None => r == Err::<Principal, AuthError>(AuthError::Unauthorized),
            Some(c) => if (now as int) < (c.2 as int) {
                r matches Ok(p) && p.subject@ == c.0@ && p.role == role_of(c.1@) && p.expiry == c.2
            } else {
                r == Err::<Principal, AuthError>(AuthError::Unauthorized)
            },
        },
{
    match claims {
        None => Err(AuthError::Unauthorized),
        Some((sub, role, exp)) => {
            if now >= 0 && (now as u64) >= exp {
                Err(AuthError::Unauthorized)
            } else {
                let role = parse_role(role.as_str());
                Ok(Principal { subject: sub, role, expiry: exp })
            }
        },
    }
}

/// Validates the Authorization header `header` at time `now`: it must hold a
/// bearer token signed with the configured secret whose expiry lies after
/// `now`. Every failure is the same opaque `Unauthorized`.
pub fn validate(cfg: &AuthConfig, header: Option<&str>, now: i64) -> (r: Result<Principal, AuthError>)
    ensures
        match validation_of(opt_view(header), cfg.secret@, now) {
            None => r == Err::<Principal, AuthError>(AuthError::Unauthorized),
            Some(v) => r matches Ok(p) && p.subject@ == v.0 && p.role == v.1 && p.expiry == v.2,
        },
{
    match header {
        None => Err(AuthError::Unauthorized),
        Some(h) => match bearer_token(h) {
            None => Err(AuthError::Unauthorized),
            Some(token) => {
                let claims = read_claims(token, cfg.secret.as_slice());
                admit_claims(claims, now)
            },
        },
    }
}

/// Validates `header` and then applies the role matrix for `op`.
pub fn check_access(cfg: &AuthConfig, header: Option<&str>, now: i64, op: Operation) -> (r: Result<Principal, AuthError>)
    ensures
        match validation_of(opt_view(header), cfg.secret@, now) {
            None => r == Err::<Principal, AuthError>(AuthError::Unauthorized),
            Some(v) => if permits(v.1, op) {
                r matches Ok(p) && p.subject@ == v.0 && p.role == v.1 && p.expiry == v.2
            } else {
                r == Err::<Principal, AuthError>(AuthError::Forbidden)
            },
        },
{
    let p = validate(cfg, header, now)?;
    if authorize(p.role, op) {
        Ok(p)
    } else {
        Err(AuthError::Forbidden)
    }
}

/// The characters of an optional header.
pub open spec fn opt_view(header: Option<&str>) -> Option<Seq<char>> {
    match header {
        Some(h) => Some(h@),
        None => None,
    }
}

} // verus!
