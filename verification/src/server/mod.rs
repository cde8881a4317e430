//! The HTTP side of the service: which server runs, and its route tables.

use vstd::prelude::*;




pub mod cookies;
pub mod routes;

verus! {

/// Which HTTP server the service starts.
#[derive(Clone, Copy, Debug, PartialEq, Eq, Structural)]
pub enum Server {
    Axum,
    Disabled,
}

impl Default for Server {
    fn default() -> (s: Self)
        ensures
            s == Server::Axum,
    {
        Server::Axum
    }
}

impl Server {
    /// The name under which the server kind is displayed.
    pub fn to_string(&self) -> (s: String)
        ensures
            *self == Server::Axum ==> s@ == "Axum"@,
            *self == Server::Disabled ==> s@ == "Disabled"@,
    {
        match self {
            Server::Axum => String::from_str("Axum"),
            Server::Disabled => String::from_str("Disabled"),
        }
    }
}

} // verus!
