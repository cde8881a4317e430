//! A Discord OAuth token of a user.

use vstd::prelude::*;

verus! {

/// The state of a stored token; stored as the numbers 0 to 3.
#[derive(Clone, Copy, Debug, PartialEq, Eq, Structural)]
pub enum TokenStatus {
    Active,
    Revoked,
    Renewed,
    Expired,
}

impl Default for TokenStatus {
    fn default() -> (s: Self)
        ensures
            s == TokenStatus::Active,
    {
        TokenStatus::Active
    }
}

/// The number a status is stored as.
pub open spec fn status_value(s: TokenStatus) -> i32 {
    match s {
        TokenStatus::Active => 0,
        TokenStatus::Revoked => 1,
        TokenStatus::Renewed => 2,
        TokenStatus::Expired => 3,
    }
}

impl TokenStatus {
    /// The number the status is stored as.
    pub fn to_value(&self) -> (v: i32)
        ensures
            v == status_value(*self),
    {
        match self {
            TokenStatus::Active => 0,
            TokenStatus::Revoked => 1,
            TokenStatus::Renewed => 2,
            TokenStatus::Expired => 3,
        }
    }

    /// The status stored as `v`, if `v` is one.
    pub fn try_from_value(v: i32) -> (s: Option<TokenStatus>)
        ensures
            match s {
                Some(t) => status_value(t) == v,
                None => !(0 <= v <= 3),
            },
    {
        match v {
            0 => Some(TokenStatus::Active),
            1 => Some(TokenStatus::Revoked),
            2 => Some(TokenStatus::Renewed),
            3 => Some(TokenStatus::Expired),
            _ => None,
        }
    }
}

/// Storing a status and reading it back gives it unchanged, and distinct statuses
/// are stored as distinct numbers.
pub proof fn lemma_status_value_round_trip(a: TokenStatus, b: TokenStatus)
    ensures
        0 <= status_value(a) <= 3,
        status_value(a) == status_value(b) ==> a == b,
{
}

/// A stored Discord token.
pub struct Model {
    pub access_token: String,
    pub refresh_token: String,
    pub scopes: String,
    pub expires_at: i64,
    pub discord_user_id: String,
    pub created_at: i64,
    pub updated_at: i64,
    pub status: TokenStatus,
}

} // verus!
