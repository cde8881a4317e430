//! The rows the earlier storage layer reads and writes. Timestamps are nanoseconds
//! since the Unix epoch.

use vstd::prelude::*;

verus! {

/// A Discord token to store.
pub struct NewDiscordToken {
    pub access_token: String,
    pub refresh_token: String,
    pub scopes: String,
    pub expires_at: i64,
    pub discord_user_id: String,
}

/// A stored Discord token.
pub struct DiscordToken {
    pub access_token: String,
    pub refresh_token: String,
    pub scopes: String,
    pub expires_at: i64,
    pub created_at: i64,
    pub updated_at: i64,
    pub discord_user_id: String,
}

/// A stored Discord user.
pub struct DiscordUser {
    pub id: String,
    pub username: String,
    pub created_at: i64,
    pub updated_at: i64,
}

/// A Discord user to store.
pub struct NewDiscordUser {
    pub id: String,
    pub username: String,
}

/// A stored Plex token.
pub struct PlexToken {
    pub access_token: String,
    pub created_at: i64,
    pub updated_at: i64,
    pub plex_user_id: i64,
}

/// A Plex token to store.
pub struct NewPlexToken {
    pub access_token: String,
    pub plex_user_id: i64,
}

/// A stored Plex user.
pub struct PlexUser {
    pub id: i64,
    pub username: String,
    pub created_at: i64,
    pub updated_at: i64,
    pub discord_user_id: String,
    pub is_subscriber: bool,
}

/// A Plex user to store.
pub struct NewPlexUser {
    pub id: i64,
    pub username: String,
    pub discord_user_id: String,
    pub is_subscriber: bool,
}

} // verus!
