//! The session cookie: what it records about the visitor, and which role it grants.

use vstd::prelude::*;

use crate::errors::DisplexError;

verus! {

/// The name of the session cookie.
pub fn displex_cookie() -> (name: &'static str)
    ensures
        name@ == "displex"@,
{
    "displex"
}

/// The role of a visitor.
#[derive(Clone, Copy, Debug, PartialEq, Eq, Structural)]
pub enum Role {
    Admin,
    User,
    Anonymous,
}

impl Default for Role {
    fn default() -> (r: Self)
        ensures
            r == Role::Anonymous,
    {
        Role::Anonymous
    }
}

/// What the session cookie records: the OAuth state of a Discord login in progress,
/// the linked Discord and Plex users, and the role granted.
pub struct CookieData {
    pub discord_state: Option<String>,
    pub discord_user: Option<String>,
    pub plex_user: Option<i64>,
    pub role: Role,
}

impl Default for CookieData {
    fn default() -> (c: Self)
        ensures
            c.discord_state is None,
            c.discord_user is None,
            c.plex_user is None,
            c.role == Role::Anonymous,
    {
        CookieData { discord_state: None, discord_user: None, plex_user: None, role: Role::Anonymous }
    }
}

/// The cookie set when a Discord login starts: only the OAuth state to check on return.
pub fn login_cookie(discord_state: String) -> (c: CookieData)
    ensures
        c.discord_state == Some(discord_state),
        c.discord_user is None,
        c.plex_user is None,
        c.role == Role::Anonymous,
{
    CookieData { discord_state: Some(discord_state), discord_user: None, plex_user: None, role: Role::Anonymous }
}

/// The `SameSite` policy of a cookie (the policy that sends the cookie everywhere
/// is not used by the service).
#[derive(Clone, Copy, Debug, PartialEq, Eq, Structural)]
pub enum SameSite {
    Strict,
    Lax,
}

/// How the session cookie is set: its name, policy, path and expiry.
pub struct CookieAttributes {
    pub name: String,
    pub same_site: SameSite,
    pub http_only: bool,
    pub secure: bool,
    pub path: String,
    /// When the cookie expires, in nanoseconds since the epoch.
    pub expires: i64,
}

/// How long the session cookie lives: six 30-day months, in nanoseconds.
pub open spec fn cookie_lifetime() -> int {
    15_552_000_000_000_000int
}

/// The attributes of the session cookie set at `now` (nanoseconds since the epoch):
/// `displex`, `SameSite=Lax`, HTTP only, secure, on every path, expiring six 30-day
/// months after `now`.
pub fn cookie_attributes(now: i64) -> (a: CookieAttributes)
    requires
        now + cookie_lifetime() <= i64::MAX,
    ensures
        a.name@ == "displex"@,
        a.same_site == SameSite::Lax,
        a.http_only,
        a.secure,
        a.path@ == "/"@,
        a.expires == now + cookie_lifetime(),
{
    CookieAttributes {
        name: String::from_str(displex_cookie()),
        same_site: SameSite::Lax,
        http_only: true,
        secure: true,
        path: String::from_str("/"),
        expires: now + 15_552_000_000_000_000,
    }
}

/// The role a request carries: the cookie's, or `Anonymous` without a cookie.
pub open spec fn role_of(cookie: Option<&CookieData>) -> Role {
    match cookie {
        Some(c) => c.role,
        None => Role::Anonymous,
    }
}

/// Whether `role` is enough for an operation that expects `expected`: admins may do
/// what users may, and nothing is granted on an expectation of `Anonymous`.
pub open spec fn role_satisfies(role: Role, expected: Role) -> bool {
    match expected {
        Role::Admin => role == Role::Admin,
        Role::User => role == Role::Admin || role == Role::User,
        Role::Anonymous => false,
    }
}

/// Checks that the request's role meets `expected_role`; fails with `unauthorized`.
pub fn verify_role(cookie: Option<&CookieData>, expected_role: Role) -> (r: Result<(), DisplexError>)
    ensures
        r is Ok <==> role_satisfies(role_of(cookie), expected_role),
        r matches Err(e) ==> e.message@ == "unauthorized"@,
{
    let role = match cookie {
        Some(c) => c.role,
        None => Role::Anonymous,
    };
    let allowed = match expected_role {
        Role::Admin => role == Role::Admin,
        Role::User => role == Role::Admin || role == Role::User,
        Role::Anonymous => false,
    };
    if allowed {
        Ok(())
    } else {
        Err(DisplexError::msg("unauthorized"))
    }
}

/// Roles are ordered: whatever passes an admin check passes a user check, anonymous
/// visitors pass neither, and no role passes an `Anonymous` expectation.
pub proof fn lemma_role_order(role: Role)
    ensures
        role_satisfies(role, Role::Admin) ==> role_satisfies(role, Role::User),
        !role_satisfies(Role::Anonymous, role),
        !role_satisfies(role, Role::Anonymous),
        role_satisfies(Role::Admin, Role::Admin) && role_satisfies(Role::Admin, Role::User),
{
}

} // verus!
