//! The GraphQL endpoint: the playground and the query handler.

use vstd::prelude::*;

use super::{route, routes_view, Handler, Method, Route};

verus! {

/// The (path, method, handler) triples of these routes.
pub open spec fn routes_spec() -> Seq<(Seq<char>, Method, Handler)> {
    seq![("/"@, Method::Get, Handler::GraphqlPlayground), ("/"@, Method::Post, Handler::GraphqlHandler)]
}

/// The GraphQL routes: the playground on `GET /` and queries on `POST /`.
pub fn routes() -> (r: Vec<Route>)
    ensures
        routes_view(r@) == routes_spec(),
{
    let mut r: Vec<Route> = Vec::new();
    r.push(route("/", Method::Get, Handler::GraphqlPlayground));
    r.push(route("/", Method::Post, Handler::GraphqlHandler));
    assert(routes_view(r@) =~= routes_spec());
    r
}

/// What the playground page is pointed at: the query endpoint and the subscription
/// endpoint.
pub struct PlaygroundConfig {
    pub endpoint: String,
    pub subscription_endpoint: String,
}

/// The playground's configuration: queries go to `/`, subscriptions to `/ws`.
pub fn playground_config() -> (c: PlaygroundConfig)
    ensures
        c.endpoint@ == "/"@,
        c.subscription_endpoint@ == "/ws"@,
{
    PlaygroundConfig { endpoint: String::from_str("/"), subscription_endpoint: String::from_str("/ws") }
}

} // verus!
