//! The outside services the application talks to, and the logic around each.

use vstd::prelude::*;

pub mod discord;
pub mod discord_token;
pub mod overseerr;
pub mod plex_token;
pub mod plex_user;
pub mod tautulli;

verus! {

/// How an insert that does nothing on a key conflict went.
pub enum InsertOutcome {
    /// A row was written under this key.
    Inserted { last_insert_id: String },
    /// A row with the key already existed, so nothing was written.
    Conflict,
    /// The database failed.
    Failed,
}

/// How a lookup by key went.
pub enum FindOutcome<T> {
    Found(T),
    Missing,
    Failed,
}

/// How a delete by key went.
pub enum DeleteOutcome {
    Deleted { rows_affected: u64 },
    Failed,
}

/// How an update by key went.
pub enum UpdateOutcome<T> {
    Updated(T),
    /// No row has the key.
    NotUpdated,
    Failed,
}

} // verus!
