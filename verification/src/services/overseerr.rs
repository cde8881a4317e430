//! Overseerr request quotas: which request tier a Plex user's watch time earns,
//! and which Overseerr account belongs to a Plex user.

use vstd::prelude::*;

use crate::config::{AppConfig, RequestLimitTier};
use crate::services::tautulli::{QueryDays, UserWatchStat, WatchStatsQuery};
use crate::text::{dec_int, i64_to_string, str_eq};

verus! {

/// An Overseerr user account, as far as the tier logic reads it.
pub struct User {
    pub id: i64,
    pub plex_id: i64,
    pub display_name: String,
}

/// The request quotas written to an Overseerr user's main settings; `None` leaves
/// the Overseerr default in force.
#[derive(Clone, Copy, Debug, PartialEq, Eq, Structural)]
pub struct UserRequestSettings {
    pub movie_quota_limit: Option<i64>,
    pub movie_quota_days: Option<i64>,
    pub tv_quota_limit: Option<i64>,
    pub tv_quota_days: Option<i64>,
}

/// A write of request quotas: the settings endpoint of the user and the quotas.
pub struct RequestSettingsUpdate {
    pub url: String,
    pub settings: UserRequestSettings,
}

/// Why no request tier could be decided.
#[derive(Clone, Copy, Debug, PartialEq, Eq, Structural)]
pub enum OverseerrError {
    /// Tautulli returned no watch statistics for the user.
    FailedToFetchStats,
}

/// Integer division truncating toward zero, as Rust's `/` on integers.
pub open spec fn trunc_div(a: int, b: int) -> int {
    if a >= 0 { a / b } else { -((-a) / b) }
}

/// The watch hours that a total watch time in seconds counts for.
pub open spec fn watch_hours_of(total_time: i32) -> int {
    trunc_div(total_time as int, 3600)
}

/// The index of the tier a user with `hours` watch hours belongs to: the last tier,
/// in configuration order, whose threshold lies strictly below `hours`.
pub open spec fn tier_index(tiers: Seq<RequestLimitTier>, hours: int) -> Option<int>
    decreases tiers.len(),
{
    if tiers.len() == 0 {
        None
    } else if tiers.last().watch_hours < hours {
        Some(tiers.len() - 1)
    } else {
        tier_index(tiers.drop_last(), hours)
    }
}

/// The settings that the tier at `idx` (or none) prescribes.
pub open spec fn settings_for(tiers: Seq<RequestLimitTier>, idx: Option<int>) -> UserRequestSettings {
    match idx {
        Some(i) => UserRequestSettings {
            movie_quota_limit: Some(tiers[i].movie.quota_limit),
            movie_quota_days: Some(tiers[i].movie.quota_days),
            tv_quota_limit: Some(tiers[i].tv.quota_limit),
            tv_quota_days: Some(tiers[i].tv.quota_days),
        },
        None => UserRequestSettings {
            movie_quota_limit: None,
            movie_quota_days: None,
            tv_quota_limit: None,
            tv_quota_days: None,
        },
    }
}

/// What `tier_index` picks: `Some(i)` names a tier below `hours` with no later tier
/// below it; `None` means no tier lies below `hours`.
pub proof fn lemma_tier_index_characterized(tiers: Seq<RequestLimitTier>, hours: int)
    ensures
        match tier_index(tiers, hours) {
            Some(i) => {
                &&& 0 <= i < tiers.len()
                &&& tiers[i].watch_hours < hours
                &&& forall|j: int| i < j < tiers.len() ==> tiers[j].watch_hours >= hours
            },
            None => forall|j: int| 0 <= j < tiers.len() ==> tiers[j].watch_hours >= hours,
        },
    decreases tiers.len(),
{
    if tiers.len() > 0 && !(tiers.last().watch_hours < hours) {
        lemma_tier_index_characterized(tiers.drop_last(), hours);
        assert forall|j: int| 0 <= j < tiers.len() - 1 implies tiers.drop_last()[j] == tiers[j] by {}
    }
}

/// More watch time never earns a lower tier: the tier index is monotone in the
/// watch hours (no tier counting below every tier).
pub proof fn lemma_tier_index_monotone(tiers: Seq<RequestLimitTier>, h1: int, h2: int)
    requires
        h1 <= h2,
    ensures
        tier_index(tiers, h1) matches Some(i1) ==> (tier_index(tiers, h2) matches Some(i2) && i1 <= i2),
    decreases tiers.len(),
{
    if tiers.len() > 0 {
        if tiers.last().watch_hours < h1 {
        } else if tiers.last().watch_hours < h2 {
            lemma_tier_index_characterized(tiers.drop_last(), h1);
        } else {
            lemma_tier_index_monotone(tiers.drop_last(), h1, h2);
        }
    }
}

/// With tiers listed by ascending threshold, as the default table lists them, a user
/// gets the tier with the highest threshold below their watch hours.
pub proof fn lemma_tier_index_highest_threshold(tiers: Seq<RequestLimitTier>, hours: int)
    requires
        forall|i: int, j: int| 0 <= i < j < tiers.len() ==> tiers[i].watch_hours < tiers[j].watch_hours,
    ensures
        tier_index(tiers, hours) matches Some(i) ==> forall|j: int|
            0 <= j < tiers.len() && tiers[j].watch_hours < hours ==> tiers[j].watch_hours <= tiers[i].watch_hours,
{
    lemma_tier_index_characterized(tiers, hours);
}

/// The settings of no tier: every quota left to Overseerr's default.
pub fn default_request_settings() -> (s: UserRequestSettings)
    ensures
        s == settings_for(Seq::<RequestLimitTier>::empty(), None),
{
    UserRequestSettings {
        movie_quota_limit: None,
        movie_quota_days: None,
        tv_quota_limit: None,
        tv_quota_days: None,
    }
}

/// The Overseerr service: its address, its key, and the tier table it applies.
pub struct OverseerrService {
    url: String,
    api_key: String,
    config: AppConfig,
}

impl OverseerrService {
    pub fn new(config: AppConfig, url: &str, api_key: &str) -> (s: Self)
        ensures
            s.url() == url@,
            s.api_key() == api_key@,
            s.tiers() == config.requests_config.tiers@,
    {
        OverseerrService { url: String::from_str(url), api_key: String::from_str(api_key), config }
    }

    pub closed spec fn url(&self) -> Seq<char> {
        self.url@
    }

    pub closed spec fn api_key(&self) -> Seq<char> {
        self.api_key@
    }

    /// The tier table, in configuration order.
    pub closed spec fn tiers(&self) -> Seq<RequestLimitTier> {
        self.config.requests_config.tiers@
    }

    /// The key sent in the `X-Api-Key` header.
    pub fn api_key_header(&self) -> (k: &str)
        ensures
            k@ == self.api_key(),
    {
        self.api_key.as_str()
    }

    /// The endpoint that lists Overseerr users.
    pub fn users_url(&self) -> (u: String)
        ensures
            u@ == self.url() + "/api/v1/user"@,
    {
        let mut u = self.url.clone();
        u.append("/api/v1/user");
        u
    }

    /// The query of the user listing: at most 100 users.
    pub fn users_query(&self) -> (q: (&'static str, &'static str))
        ensures
            q.0@ == "take"@,
            q.1@ == "100"@,
    {
        ("take", "100")
    }

    /// The endpoint of a user's main settings, where request quotas are written.
    pub fn user_settings_url(&self, user_id: &str) -> (u: String)
        ensures
            u@ == self.url() + "/api/v1/user/"@ + user_id@ + "/settings/main"@,
    {
        let mut u = self.url.clone();
        u.append("/api/v1/user/");
        u.append(user_id);
        u.append("/settings/main");
        u
    }

    /// The index of the tier that `hours` watch hours earn, if any.
    pub fn request_tier(&self, hours: i64) -> (r: Option<usize>)
        ensures
            r matches Some(i) ==> tier_index(self.tiers(), hours as int) == Some(i as int),
            r is None ==> tier_index(self.tiers(), hours as int) is None,
    {
        let tiers = &self.config.requests_config.tiers;
        let mut result: Option<usize> = None;
        let mut i: usize = 0;
        while i < tiers.len()
            invariant
                tiers@ == self.tiers(),
                i <= tiers.len(),
                result == (match tier_index(tiers@.subrange(0, i as int), hours as int) {
                    Some(k) => Some(k as usize),
                    None => None::<usize>,
                }),
                result matches Some(k) ==> k < i,
            decreases tiers.len() - i,
        {
            proof {
                let pre = tiers@.subrange(0, i as int);
                let next = tiers@.subrange(0, i + 1);
                assert(next.drop_last() =~= pre);
                assert(next.last() == tiers@[i as int]);
                lemma_tier_index_characterized(pre, hours as int);
            }
            if tiers[i].watch_hours < hours {
                result = Some(i);
            }
            i = i + 1;
        }
        assert(tiers@.subrange(0, tiers.len() as int) =~= tiers@);
        proof { lemma_tier_index_characterized(tiers@, hours as int); }
        result
    }

    /// The statistics a user's tier is decided from: the all-time watch time of their
    /// Plex account, grouped.
    pub fn tier_stats_query(&self, user: &User) -> (q: WatchStatsQuery)
        ensures
            q.user_id@ == dec_int(user.plex_id as int),
            q.grouping == Some(true),
            q.query_days == Some(QueryDays::Total),
    {
        WatchStatsQuery { user_id: i64_to_string(user.plex_id), grouping: Some(true), query_days: Some(QueryDays::Total) }
    }

    /// Decides the request quotas for `user` from their all-time watch statistics:
    /// the quotas of the tier that their watch hours earn, or the Overseerr defaults
    /// when they earn none, to be written to the user's settings endpoint. Fails when
    /// no statistics came back.
    pub fn set_request_tier(&self, user: &User, watch_stats: &Vec<UserWatchStat>) -> (r: Result<
        RequestSettingsUpdate,
        OverseerrError,
    >)
        ensures
            watch_stats@.len() == 0 <==> r is Err,
            r matches Err(e) ==> e == OverseerrError::FailedToFetchStats,
            r matches Ok(u) ==> {
                &&& u.url@ == self.url() + "/api/v1/user/"@ + dec_int(user.id as int) + "/settings/main"@
                &&& u.settings == settings_for(
                    self.tiers(),
                    tier_index(self.tiers(), watch_hours_of(watch_stats@[0].total_time)),
                )
            },
    {
        if watch_stats.len() == 0 {
            return Err(OverseerrError::FailedToFetchStats);
        }
        let latest_stat = &watch_stats[0];
        let watch_hours: i32 = latest_stat.total_time / 3600;
        assert(watch_hours as int == watch_hours_of(latest_stat.total_time));
        let settings = match self.request_tier(watch_hours as i64) {
            Some(i) => {
                proof { lemma_tier_index_characterized(self.tiers(), watch_hours as int); }
                let tier = &self.config.requests_config.tiers[i];
                UserRequestSettings {
                    movie_quota_limit: Some(tier.movie.quota_limit),
                    movie_quota_days: Some(tier.movie.quota_days),
                    tv_quota_limit: Some(tier.tv.quota_limit),
                    tv_quota_days: Some(tier.tv.quota_days),
                }
            },
            None => default_request_settings(),
        };
        let id = i64_to_string(user.id);
        let url = self.user_settings_url(id.as_str());
        Ok(RequestSettingsUpdate { url, settings })
    }

    /// The Overseerr account of a Plex user: the first user whose Plex id, written in
    /// decimal, is `plex_user_id`.
    pub fn verified_user(&self, users: &Vec<User>, plex_user_id: &str) -> (r: Option<usize>)
        ensures
            r matches Some(i) ==> i < users@.len() && dec_int(users@[i as int].plex_id as int) == plex_user_id@
                && forall|j: int| 0 <= j < i ==> dec_int(users@[j].plex_id as int) != plex_user_id@,
            r is None ==> forall|j: int| 0 <= j < users@.len() ==> dec_int(users@[j].plex_id as int) != plex_user_id@,
    {
        let mut i: usize = 0;
        while i < users.len()
            invariant
                i <= users@.len(),
                forall|j: int| 0 <= j < i ==> dec_int(users@[j].plex_id as int) != plex_user_id@,
            decreases users.len() - i,
        {
            let id = i64_to_string(users[i].plex_id);
            if str_eq(id.as_str(), plex_user_id) {
                return Some(i);
            }
            i = i + 1;
        }
        None
    }
}

} // verus!
