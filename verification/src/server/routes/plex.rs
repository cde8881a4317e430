//! The Plex login: its routes and the decisions of its callback.

use vstd::prelude::*;

use super::{route, routes_view, Handler, Method, Route};
use crate::text::str_eq;

verus! {

/// The (path, method, handler) triples of these routes.
pub open spec fn routes_spec() -> Seq<(Seq<char>, Method, Handler)> {
    seq![("/auth/plex"@, Method::Get, Handler::PlexAuth), ("/auth/plex/callback"@, Method::Get, Handler::PlexCallback)]
}

/// The Plex login routes.
pub fn routes() -> (r: Vec<Route>)
    ensures
        routes_view(r@) == routes_spec(),
{
    let mut r: Vec<Route> = Vec::new();
    r.push(route("/auth/plex", Method::Get, Handler::PlexAuth));
    r.push(route("/auth/plex/callback", Method::Get, Handler::PlexCallback));
    assert(routes_view(r@) =~= routes_spec());
    r
}

/// Whether a Plex user subscribes to the server: one of their devices is the server.
pub fn is_subscribed(device_client_identifiers: &Vec<String>, server_id: &str) -> (b: bool)
    ensures
        b == exists|i: int| 0 <= i < device_client_identifiers@.len() && device_client_identifiers@[i]@ == server_id@,
{
    let mut i: usize = 0;
    while i < device_client_identifiers.len()
        invariant
            i <= device_client_identifiers@.len(),
            forall|j: int| 0 <= j < i ==> device_client_identifiers@[j]@ != server_id@,
        decreases device_client_identifiers.len() - i,
    {
        if str_eq(device_client_identifiers[i].as_str(), server_id) {
            return true;
        }
        i = i + 1;
    }
    false
}

/// The `next` address passed on to the Plex login, empty when none was given.
pub fn plex_next(next: &Option<String>) -> (s: String)
    ensures
        s@ == match next { Some(n) => n@, None => Seq::empty() },
{
    match next {
        Some(n) => n.clone(),
        None => String::new(),
    }
}

/// Where the callback sends the visitor: `next`, or the front page.
pub fn redirect_target(next: &Option<String>) -> (url: String)
    ensures
        url@ == match next { Some(n) => n@, None => "/"@ },
{
    match next {
        Some(n) => n.clone(),
        None => String::from_str("/"),
    }
}

} // verus!
