//! The Discord login: its routes and the decisions of its handlers.

use vstd::prelude::*;

use super::{route, routes_view, Handler, Method, Route};
use crate::errors::DisplexError;
use crate::server::cookies::{CookieData, Role};
use crate::text::str_eq;

verus! {

/// The (path, method, handler) triples of these routes.
pub open spec fn routes_spec() -> Seq<(Seq<char>, Method, Handler)> {
    seq![("/auth/discord"@, Method::Get, Handler::DiscordAuth), ("/auth/discord/callback"@, Method::Get, Handler::DiscordCallback)]
}

/// The Discord login routes.
pub fn routes() -> (r: Vec<Route>)
    ensures
        routes_view(r@) == routes_spec(),
{
    let mut r: Vec<Route> = Vec::new();
    r.push(route("/auth/discord", Method::Get, Handler::DiscordAuth));
    r.push(route("/auth/discord/callback", Method::Get, Handler::DiscordCallback));
    assert(routes_view(r@) =~= routes_spec());
    r
}

/// The query string Discord redirects back with: the authorization code and the
/// OAuth state.
pub struct DiscordRedirectQueryParams {
    pub code: String,
    pub state: String,
}

/// Checks the OAuth state that came back against the one the session stored; fails
/// with `invalid state` when they differ.
pub fn verify_state(session_state: &str, query_string_state: &str) -> (r: Result<(), DisplexError>)
    ensures
        r is Ok <==> session_state@ == query_string_state@,
        r matches Err(e) ==> e.message@ == "invalid state"@,
{
    if !str_eq(session_state, query_string_state) {
        return Err(DisplexError::msg("invalid state"));
    }
    Ok(())
}

/// The query string that carries `next` on to the callback.
pub open spec fn next_query(next: Option<Seq<char>>) -> Seq<char> {
    match next {
        Some(n) => "?next="@ + n,
        None => Seq::empty(),
    }
}

/// The address Discord sends the visitor back to after authorizing.
pub open spec fn callback_url(hostname: Seq<char>, next: Option<Seq<char>>) -> Seq<char> {
    "https://"@ + hostname + "/auth/discord/callback"@ + next_query(next)
}

/// Builds the address Discord sends the visitor back to, carrying `next` along.
pub fn discord_redirect_url(hostname: &str, next: &Option<String>) -> (url: String)
    ensures
        url@ == callback_url(hostname@, match next { Some(n) => Some(n@), None => None }),
{
    let mut url = String::from_str("https://");
    url.append(hostname);
    url.append("/auth/discord/callback");
    if let Some(n) = next {
        url.append("?next=");
        url.append(n.as_str());
    }
    url
}

/// The scopes of a token written one after another, each followed by a comma.
pub open spec fn scopes_text(scopes: Seq<String>) -> Seq<char>
    decreases scopes.len(),
{
    if scopes.len() == 0 {
        Seq::empty()
    } else {
        scopes_text(scopes.drop_last()) + scopes.last()@ + ","@
    }
}

/// The scopes of a granted token as stored with it; empty when none were reported.
pub fn join_scopes(scopes: &Option<Vec<String>>) -> (s: String)
    ensures
        s@ == match scopes { Some(v) => scopes_text(v@), None => Seq::empty() },
{
    let mut s = String::new();
    if let Some(v) = scopes {
        let mut i: usize = 0;
        while i < v.len()
            invariant
                i <= v@.len(),
                s@ == scopes_text(v@.subrange(0, i as int)),
            decreases v.len() - i,
        {
            proof {
                let next = v@.subrange(0, i + 1);
                assert(next.drop_last() =~= v@.subrange(0, i as int));
            }
            s.append(v[i].as_str());
            s.append(",");
            i = i + 1;
        }
        assert(v@.subrange(0, v@.len() as int) =~= v@);
    }
    s
}

/// The lifetime assumed for a token that reports none: 1800 seconds.
pub open spec fn default_token_lifetime() -> nat {
    1800
}

/// When a token granted at `now` expires, in nanoseconds since the epoch: after the
/// lifetime it reports, or after 1800 seconds.
pub open spec fn expiry_of(now: i64, expires_in: Option<u64>) -> int {
    now + 1_000_000_000 * match expires_in { Some(s) => s as int, None => default_token_lifetime() as int }
}

/// Computes when a token granted at `now` expires.
pub fn token_expires_at(now: i64, expires_in: Option<u64>) -> (t: i64)
    requires
        i64::MIN <= expiry_of(now, expires_in) <= i64::MAX,
    ensures
        t == expiry_of(now, expires_in),
{
    let secs: u64 = match expires_in {
        Some(s) => s,
        None => 1800,
    };
    let t: i128 = (now as i128) + (secs as i128) * 1_000_000_000;
    t as i64
}

/// The role a Discord user gets at login: admin for the configured admin ids, user
/// for everyone else.
pub fn role_for_user(admin_discord_ids: &Vec<String>, discord_user_id: &str) -> (r: Role)
    ensures
        r == (if exists|i: int| 0 <= i < admin_discord_ids@.len() && admin_discord_ids@[i]@ == discord_user_id@ {
            Role::Admin
        } else {
            Role::User
        }),
{
    let mut i: usize = 0;
    while i < admin_discord_ids.len()
        invariant
            i <= admin_discord_ids@.len(),
            forall|j: int| 0 <= j < i ==> admin_discord_ids@[j]@ != discord_user_id@,
        decreases admin_discord_ids.len() - i,
    {
        if str_eq(admin_discord_ids[i].as_str(), discord_user_id) {
            return Role::Admin;
        }
        i = i + 1;
    }
    Role::User
}

} // verus!

verus! {

/// The session after a successful Discord login: the linked Discord user and the
/// role the login grants, with the rest of the session unchanged.
pub fn logged_in_cookie(cookie: CookieData, discord_user_id: &str, admin_discord_ids: &Vec<String>) -> (c: CookieData)
    ensures
        c.discord_state == cookie.discord_state,
        c.plex_user == cookie.plex_user,
        c.discord_user matches Some(u) && u@ == discord_user_id@,
        c.role == (if exists|i: int| 0 <= i < admin_discord_ids@.len() && admin_discord_ids@[i]@ == discord_user_id@ {
            Role::Admin
        } else {
            Role::User
        }),
{
    let role = role_for_user(admin_discord_ids, discord_user_id);
    CookieData {
        discord_state: cookie.discord_state,
        discord_user: Some(String::from_str(discord_user_id)),
        plex_user: cookie.plex_user,
        role,
    }
}

/// The authorization code to exchange and the redirect address it was issued for.
pub struct CodeExchange {
    pub code: String,
    pub redirect_uri: String,
}

/// The first decision of the Discord callback: the OAuth state that came back is
/// checked against the session's before anything else happens; only then is the
/// code handed out for exchange, with the callback address carrying `next`. Fails with
/// `invalid state` when the states differ. The session must hold a login state.
pub fn callback_exchange(
    cookie: &CookieData,
    hostname: &str,
    query: &DiscordRedirectQueryParams,
    next: &Option<String>,
) -> (r: Result<CodeExchange, DisplexError>)
    requires
        cookie.discord_state is Some,
    ensures
        r is Ok <==> cookie.discord_state->0@ == query.state@,
        r matches Err(e) ==> e.message@ == "invalid state"@,
        r matches Ok(x) ==> x.code@ == query.code@ && x.redirect_uri@ == callback_url(
            hostname@,
            match next { Some(n) => Some(n@), None => None },
        ),
{
    let session_state = match &cookie.discord_state {
        Some(s) => s,
        None => { return Err(DisplexError::msg("invalid state")); },
    };
    match verify_state(session_state.as_str(), query.state.as_str()) {
        Err(e) => Err(e),
        Ok(()) => Ok(CodeExchange {
            code: query.code.clone(),
            redirect_uri: discord_redirect_url(hostname, next),
        }),
    }
}

/// Where the Discord callback sends the visitor once the login is stored.
pub enum CallbackRedirect {
    /// To this address.
    To(String),
    /// To the Plex login of a newly requested pin.
    PlexLogin,
}

/// Decides where the Discord callback sends the visitor: the front page `/` when no
/// `next` was given, otherwise on to the Plex login of a new pin.
pub fn callback_redirect(next: &Option<String>) -> (r: CallbackRedirect)
    ensures
        next is None ==> (r matches CallbackRedirect::To(u) && u@ == "/"@),
        next is Some ==> r is PlexLogin,
{
    match next {
        None => CallbackRedirect::To(String::from_str("/")),
        Some(_) => CallbackRedirect::PlexLogin,
    }
}

} // verus!
