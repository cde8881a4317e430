//! A Plex token of a user.

use vstd::prelude::*;

verus! {

/// A stored Plex token.
pub struct Model {
    pub access_token: String,
    pub plex_user_id: String,
    pub created_at: i64,
    pub updated_at: i64,
}

} // verus!
