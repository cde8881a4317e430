//! The GraphQL schema's own values: identifiers, service details, and who the
//! caller is.

use vstd::prelude::*;

use crate::server::cookies::{CookieData, Role};

verus! {

/// The author of the service.
pub fn author() -> (s: &'static str)
    ensures
        s@ == "mchestr"@,
{
    "mchestr"
}

/// Where the service's source lives.
pub fn repository_link() -> (s: &'static str)
    ensures
        s@ == "https://github.com/mchestr/displex"@,
{
    "https://github.com/mchestr/displex"
}

/// A numeric identifier exposed as its own GraphQL scalar.
#[derive(Clone, Copy, Debug, PartialEq, Eq, Structural)]
pub struct Identifier(pub i32);

impl From<Identifier> for i32 {
    fn from(value: Identifier) -> (r: i32) {
        value.0
    }
}

impl vstd::std_specs::convert::FromSpecImpl<Identifier> for i32 {
    open spec fn obeys_from_spec() -> bool {
        true
    }

    open spec fn from_spec(v: Identifier) -> i32 {
        v.0
    }
}

impl From<i32> for Identifier {
    fn from(value: i32) -> (r: Identifier) {
        Identifier(value)
    }
}

impl vstd::std_specs::convert::FromSpecImpl<i32> for Identifier {
    open spec fn obeys_from_spec() -> bool {
        true
    }

    open spec fn from_spec(v: i32) -> Identifier {
        Identifier(v)
    }
}

/// An object that only carries an identifier.
pub struct IdObject {
    pub id: Identifier,
}

/// What the service says about itself.
pub struct CoreDetails {
    pub version: String,
    pub author_name: String,
    pub repository_link: String,
}

/// Who the caller is, as far as the session cookie tells.
pub struct UserDetails {
    pub discord_user_id: Option<String>,
    pub plex_user_id: Option<i64>,
    pub role: Role,
}

/// The core part of the GraphQL query root.
pub struct CoreQuery;

impl CoreQuery {
    /// The service details for a build of version `version`.
    pub fn core_details(&self, version: &str) -> (d: CoreDetails)
        ensures
            d.version@ == version@,
            d.author_name@ == "mchestr"@,
            d.repository_link@ == "https://github.com/mchestr/displex"@,
    {
        CoreDetails {
            version: String::from_str(version),
            author_name: String::from_str(author()),
            repository_link: String::from_str(repository_link()),
        }
    }

    /// The caller's identity: the users and role that the cookie records, or an
    /// anonymous caller without a cookie.
    pub fn whoami(&self, cookie: Option<&CookieData>) -> (d: UserDetails)
        ensures
            match cookie {
                Some(c) => d.discord_user_id == c.discord_user && d.plex_user_id == c.plex_user && d.role
                    == c.role,
                None => d.discord_user_id is None && d.plex_user_id is None && d.role == Role::Anonymous,
            },
    {
        match cookie {
            Some(c) => UserDetails {
                discord_user_id: c.discord_user.clone(),
                plex_user_id: c.plex_user,
                role: c.role,
            },
            None => UserDetails { discord_user_id: None, plex_user_id: None, role: Role::Anonymous },
        }
    }
}

/// Converting an identifier to a number and back gives it unchanged, and a number
/// survives the way through an identifier.
pub proof fn lemma_identifier_round_trip(id: Identifier, n: i32)
    ensures
        <Identifier as vstd::std_specs::convert::FromSpec<i32>>::from_spec(
            <i32 as vstd::std_specs::convert::FromSpec<Identifier>>::from_spec(id),
        ) == id,
        <i32 as vstd::std_specs::convert::FromSpec<Identifier>>::from_spec(
            <Identifier as vstd::std_specs::convert::FromSpec<i32>>::from_spec(n),
        ) == n,
{
}

} // verus!
