//! A Plex account linked to a Discord user.

use vstd::prelude::*;

verus! {

/// A stored Plex user.
pub struct Model {
    pub id: String,
    pub username: String,
    pub discord_user_id: String,
    pub is_subscriber: bool,
    pub created_at: i64,
    pub updated_at: i64,
}

} // verus!
