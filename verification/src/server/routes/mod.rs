//! The route tables of the HTTP server.

use vstd::prelude::*;

use crate::config::ApiConfig;

pub mod discord;
pub mod graphql;
pub mod plex;

verus! {

/// The HTTP method a route answers.
#[derive(Clone, Copy, Debug, PartialEq, Eq, Structural)]
pub enum Method {
    Get,
    Post,
}

/// The handler a route dispatches to.
#[derive(Clone, Copy, Debug, PartialEq, Eq, Structural)]
pub enum Handler {
    DiscordAuth,
    DiscordCallback,
    PlexAuth,
    PlexCallback,
    GraphqlPlayground,
    GraphqlHandler,
}

/// One route: a path, a method, and the handler it dispatches to.
pub struct Route {
    pub path: String,
    pub method: Method,
    pub handler: Handler,
}

/// The view of a route table as (path, method, handler) triples.
pub open spec fn routes_view(routes: Seq<Route>) -> Seq<(Seq<char>, Method, Handler)> {
    routes.map_values(|r: Route| (r.path@, r.method, r.handler))
}

pub(crate) fn route(path: &str, method: Method, handler: Handler) -> (r: Route)
    ensures
        r.path@ == path@,
        r.method == method,
        r.handler == handler,
{
    Route { path: String::from_str(path), method, handler }
}

/// The server's routes: the Discord and Plex login routes, the GraphQL routes nested
/// under `nest_prefix` when the API is enabled, and the static files of `fallback_dir`
/// for every other path.
pub struct RouteTable {
    pub routes: Vec<Route>,
    pub nest_prefix: String,
    pub nested: Option<Vec<Route>>,
    pub fallback_dir: String,
}

/// Assembles the route table of the server.
pub fn configure(config: &ApiConfig) -> (t: RouteTable)
    ensures
        routes_view(t.routes@) == discord::routes_spec() + plex::routes_spec(),
        t.nest_prefix@ == "/gql"@,
        match t.nested {
            Some(n) => config.enabled && routes_view(n@) == graphql::routes_spec(),
            None => !config.enabled,
        },
        t.fallback_dir@ == "./dist"@,
{
    let mut routes = discord::routes();
    let mut more = plex::routes();
    let ghost a = routes_view(routes@);
    let ghost b = routes_view(more@);
    routes.append(&mut more);
    assert(routes_view(routes@) =~= a + b);
    let nested = if config.enabled { Some(graphql::routes()) } else { None };
    RouteTable {
        routes,
        nest_prefix: String::from_str("/gql"),
        nested,
        fallback_dir: String::from_str("./dist"),
    }
}

} // verus!
