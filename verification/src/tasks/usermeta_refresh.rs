//! Refreshing the linked-role metadata of subscribers: when a token is renewed,
//! what the renewed token is, and what metadata a subscriber gets.

use vstd::prelude::*;

use crate::db::{DiscordToken, NewDiscordToken};
use crate::errors::DisplexError;
use crate::services::discord::{hours_of, subscriber_metadata, ApplicationMetadata, ApplicationMetadataUpdate};
use crate::services::tautulli::UserWatchStat;

verus! {

/// A day in nanoseconds.
pub open spec fn day() -> int {
    86_400_000_000_000
}

/// Whether a token that expires at `expires_at` is renewed at `now`: when it expired
/// more than a day before.
pub fn needs_refresh(expires_at: i64, now: i64) -> (b: bool)
    requires
        now >= i64::MIN + day(),
    ensures
        b == (expires_at < now - day()),
{
    expires_at < now - 86_400_000_000_000
}

/// The lifetime assumed for a renewed token that reports none: three days.
pub open spec fn default_refresh_lifetime() -> int {
    259_200
}

/// The expiry of a token renewed at `now` that reports `expires_in` seconds.
pub open spec fn refreshed_expiry(now: i64, expires_in: Option<u64>) -> int {
    now + 1_000_000_000 * match expires_in { Some(s) => s as int, None => default_refresh_lifetime() }
}

/// What renewing a token returned: the new access token, the new refresh token if
/// any, and the lifetime in seconds if reported.
pub struct TokenRenewal {
    pub access_token: String,
    pub refresh_token: Option<String>,
    pub expires_in: Option<u64>,
}

/// What to do with a subscriber's token.
pub enum RefreshAction {
    /// Keep the token as it is.
    Keep,
    /// Renew the token with this refresh token, then decide again with the renewal.
    Renew { refresh_token: String },
    /// Store this renewed token.
    Store(NewDiscordToken),
}

/// Decides what happens to the token `old` at `now`, given the renewal made so far
/// (`None` before one). A token that has not been expired for over a day is kept
/// unchanged, with no renewal. Otherwise it is renewed with its refresh token, and the
/// renewal gives the token to store: the new access and refresh tokens, the old scopes
/// and user, and the new expiry (three days when none is reported). Fails with
/// `No refresh token returned!` when the renewal gave no refresh token.
pub fn maybe_refresh_token(old: &DiscordToken, now: i64, renewal: Option<TokenRenewal>) -> (r: Result<
    RefreshAction,
    DisplexError,
>)
    requires
        now >= i64::MIN + day(),
        renewal matches Some(rn) ==> i64::MIN <= refreshed_expiry(now, rn.expires_in) <= i64::MAX,
    ensures
        !(old.expires_at < now - day()) ==> r matches Ok(RefreshAction::Keep),
        old.expires_at < now - day() ==> match renewal {
            None => r matches Ok(RefreshAction::Renew { refresh_token }) && refresh_token@ == old.refresh_token@,
            Some(rn) => match rn.refresh_token {
                None => r matches Err(e) && e.message@ == "No refresh token returned!"@,
                Some(rt) => r matches Ok(RefreshAction::Store(t)) && t.access_token@ == rn.access_token@
                    && t.refresh_token@ == rt@ && t.scopes@ == old.scopes@ && t.discord_user_id@
                    == old.discord_user_id@ && t.expires_at == refreshed_expiry(now, rn.expires_in),
            },
        },
{
    if !needs_refresh(old.expires_at, now) {
        return Ok(RefreshAction::Keep);
    }
    let renewal = match renewal {
        None => return Ok(RefreshAction::Renew { refresh_token: old.refresh_token.clone() }),
        Some(rn) => rn,
    };
    let refresh = match renewal.refresh_token {
        Some(rt) => rt,
        None => return Err(DisplexError::msg("No refresh token returned!")),
    };
    let secs: u64 = match renewal.expires_in {
        Some(s) => s,
        None => 3600 * 24 * 3,
    };
    let expires_at: i128 = (now as i128) + (secs as i128) * 1_000_000_000;
    Ok(RefreshAction::Store(NewDiscordToken {
        access_token: renewal.access_token,
        refresh_token: refresh,
        scopes: old.scopes.clone(),
        expires_at: expires_at as i64,
        discord_user_id: old.discord_user_id.clone(),
    }))
}

/// The metadata to report for a subscriber from their all-time statistics; fails
/// with `failed to fetch stats` when there are none.
pub fn refresh_user_stats(application_name: &str, watch_stats: &Vec<UserWatchStat>) -> (r: Result<
    ApplicationMetadataUpdate,
    DisplexError,
>)
    ensures
        match r {
            Err(e) => watch_stats@.len() == 0 && e.message@ == "failed to fetch stats"@,
            Ok(u) => watch_stats@.len() > 0 && u.platform_name@ == application_name@ && u.platform_username is None
                && u.metadata == (ApplicationMetadata {
                total_watches: watch_stats@[0].total_plays,
                hours_watched: hours_of(watch_stats@[0]) as i32,
                is_subscriber: true,
            }),
        },
{
    if watch_stats.len() == 0 {
        return Err(DisplexError::msg("failed to fetch stats"));
    }
    Ok(subscriber_metadata(application_name, &watch_stats[0]))
}

} // verus!
