//! The rows the service stores. Timestamps are nanoseconds since the Unix epoch.

pub mod discord_token;
pub mod plex_token;
pub mod plex_user;
