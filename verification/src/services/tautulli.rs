//! Tautulli: the API's models, the query parameters of each API command, and the
//! summaries (top media, leaderboard) that the GraphQL queries build from replies.

use vstd::prelude::*;

use crate::text::{dec_int, i64_to_string, str_eq};

verus! {

/// The span of a watch-time query.
#[derive(Clone, Copy, Debug, PartialEq, Eq, Structural)]
pub enum QueryDays {
    Day,
    Week,
    Month,
    Total,
}

/// The value Tautulli expects for a query span.
pub open spec fn query_days_text(q: QueryDays) -> Seq<char> {
    match q {
        QueryDays::Day => "1"@,
        QueryDays::Week => "7"@,
        QueryDays::Month => "30"@,
        QueryDays::Total => "0"@,
    }
}

impl QueryDays {
    pub fn to_string(&self) -> (s: String)
        ensures
            s@ == query_days_text(*self),
    {
        match self {
            QueryDays::Day => String::from_str("1"),
            QueryDays::Week => String::from_str("7"),
            QueryDays::Month => String::from_str("30"),
            QueryDays::Total => String::from_str("0"),
        }
    }
}

#[derive(Clone, Copy, Debug, PartialEq, Eq, Structural)]
pub enum MediaType {
    Movie,
    Episode,
    Track,
    Live,
    Collection,
    Playlist,
}

impl MediaType {
    pub fn to_string(&self) -> (s: String)
        ensures
            *self == MediaType::Movie ==> s@ == "movie"@,
            *self == MediaType::Episode ==> s@ == "episode"@,
            *self == MediaType::Track ==> s@ == "track"@,
            *self == MediaType::Live ==> s@ == "live"@,
            *self == MediaType::Collection ==> s@ == "collection"@,
            *self == MediaType::Playlist ==> s@ == "playlist"@,
    {
        match self {
            MediaType::Movie => String::from_str("movie"),
            MediaType::Episode => String::from_str("episode"),
            MediaType::Track => String::from_str("track"),
            MediaType::Live => String::from_str("live"),
            MediaType::Collection => String::from_str("collection"),
            MediaType::Playlist => String::from_str("playlist"),
        }
    }
}

#[derive(Clone, Copy, Debug, PartialEq, Eq, Structural)]
pub enum TranscodeDecision {
    DirectPlay,
    Copy,
    Transcode,
}

impl TranscodeDecision {
    pub fn to_string(&self) -> (s: String)
        ensures
            *self == TranscodeDecision::DirectPlay ==> s@ == "direct play"@,
            *self == TranscodeDecision::Copy ==> s@ == "copy"@,
            *self == TranscodeDecision::Transcode ==> s@ == "transcode"@,
    {
        match self {
            TranscodeDecision::DirectPlay => String::from_str("direct play"),
            TranscodeDecision::Copy => String::from_str("copy"),
            TranscodeDecision::Transcode => String::from_str("transcode"),
        }
    }
}

#[derive(Clone, Copy, Debug, PartialEq, Eq, Structural)]
pub enum OrderColumn {
    Date,
    FriendlyName,
    IpAddress,
    Platform,
    Player,
    FullTitle,
    Started,
    PausedCounter,
    Stopped,
    Duration,
}

impl OrderColumn {
    pub fn to_string(&self) -> (s: String)
        ensures
            *self == OrderColumn::Date ==> s@ == "date"@,
            *self == OrderColumn::FriendlyName ==> s@ == "friendly_name"@,
            *self == OrderColumn::IpAddress ==> s@ == "ip_address"@,
            *self == OrderColumn::Platform ==> s@ == "platform"@,
            *self == OrderColumn::Player ==> s@ == "player"@,
            *self == OrderColumn::FullTitle ==> s@ == "full_title"@,
            *self == OrderColumn::Started ==> s@ == "started"@,
            *self == OrderColumn::PausedCounter ==> s@ == "paused_counter"@,
            *self == OrderColumn::Stopped ==> s@ == "stopped"@,
            *self == OrderColumn::Duration ==> s@ == "duration"@,
    {
        match self {
            OrderColumn::Date => String::from_str("date"),
            OrderColumn::FriendlyName => String::from_str("friendly_name"),
            OrderColumn::IpAddress => String::from_str("ip_address"),
            OrderColumn::Platform => String::from_str("platform"),
            OrderColumn::Player => String::from_str("player"),
            OrderColumn::FullTitle => String::from_str("full_title"),
            OrderColumn::Started => String::from_str("started"),
            OrderColumn::PausedCounter => String::from_str("paused_counter"),
            OrderColumn::Stopped => String::from_str("stopped"),
            OrderColumn::Duration => String::from_str("duration"),
        }
    }
}

#[derive(Clone, Copy, Debug, PartialEq, Eq, Structural)]
pub enum OrderDir {
    Desc,
    Asc,
}

impl OrderDir {
    pub fn to_string(&self) -> (s: String)
        ensures
            *self == OrderDir::Desc ==> s@ == "desc"@,
            *self == OrderDir::Asc ==> s@ == "asc"@,
    {
        match self {
            OrderDir::Desc => String::from_str("desc"),
            OrderDir::Asc => String::from_str("asc"),
        }
    }
}

/// The envelope of every Tautulli reply.
pub struct ApiResponse<T> {
    pub response: ApiResult<T>,
}

pub struct ApiResult<T> {
    pub result: String,
    pub message: Option<String>,
    pub data: T,
}

/// A user's watch statistics over one query span; `total_time` is in seconds.
#[derive(Clone, Copy, Debug, PartialEq, Eq, Structural)]
pub struct UserWatchStat {
    pub query_days: i32,
    pub total_plays: i32,
    pub total_time: i32,
}

/// The arguments of a watch-time statistics query: the Plex user, the grouping and
/// the span, as `get_user_watch_time_stats` takes them.
pub struct WatchStatsQuery {
    pub user_id: String,
    pub grouping: Option<bool>,
    pub query_days: Option<QueryDays>,
}

#[derive(Clone, Copy, Debug, PartialEq, Eq, Structural)]
pub enum StatId {
    TopMovies,
    PopularMovies,
    TopTv,
    PopularTv,
    TopMusic,
    PopularMusic,
    LastWatched,
    TopLibraries,
    TopUsers,
    TopPlatforms,
    MostConcurrent,
}

pub struct HomeStats {
    pub stat_id: StatId,
    pub rows: Vec<StatRow>,
}

pub struct StatRow {
    pub title: String,
}

#[derive(Clone, Copy, Debug, PartialEq, Eq, Structural)]
pub struct ServerStatus {
    pub connected: bool,
}

pub struct GetActivity {
    pub stream_count: String,
    pub stream_count_direct_play: u32,
    pub stream_count_direct_stream: u32,
    pub stream_count_transcode: u32,
    pub total_bandwidth: u32,
    pub lan_bandwidth: u32,
    pub wan_bandwidth: u32,
}

pub struct GetLibrary {
    pub section_id: String,
    pub section_name: String,
    pub section_type: String,
    pub agent: String,
    pub thumb: String,
    pub count: String,
    pub child_count: Option<String>,
    pub parent_count: Option<String>,
    pub is_active: bool,
}

pub struct UserTable {
    pub records_filtered: Option<i64>,
    pub records_total: Option<i64>,
    pub data: Vec<User>,
}

/// A row of Tautulli's users table; `duration` is the total watch time in seconds.
pub struct User {
    pub user_id: i64,
    pub username: String,
    pub friendly_name: String,
    pub plays: i64,
    pub duration: i64,
}

/// A flag that Tautulli encodes as an integer was neither zero nor one.
#[derive(Clone, Copy, Debug, PartialEq, Eq, Structural)]
pub struct InvalidFlag {
    pub value: u8,
}

/// Reads a flag that Tautulli encodes as `0` or `1`.
pub fn bool_from_int(value: u8) -> (r: Result<bool, InvalidFlag>)
    ensures
        value == 0 ==> r == Ok::<bool, InvalidFlag>(false),
        value == 1 ==> r == Ok::<bool, InvalidFlag>(true),
        value > 1 ==> r == Err::<bool, InvalidFlag>(InvalidFlag { value }),
{
    match value {
        0 => Ok(false),
        1 => Ok(true),
        other => Err(InvalidFlag { value: other }),
    }
}

/// A query parameter, as a name and a value.
pub type Param = (String, String);

/// The view of a parameter list as pairs of character sequences.
pub open spec fn params_view(params: Seq<Param>) -> Seq<(Seq<char>, Seq<char>)> {
    params.map_values(|p: Param| (p.0@, p.1@))
}

/// The name Tautulli gives the result of parsing `base` as a URL and appending
/// `params` to its query string; `None` when `base` is no absolute URL.
pub uninterp spec fn parsed_url_with_params(
    base: Seq<char>,
    params: Seq<(Seq<char>, Seq<char>)>,
) -> Option<Seq<char>>;

/// Calls `reqwest::Url::parse_with_params` (the `url` crate's parser and query
/// serializer) and renders the URL it gives. Trusted to return the rendering of the
/// parsed URL exactly when the parse succeeds; what that text is is left to the name
/// `parsed_url_with_params`.
#[verifier::external_body]
fn url_with_params(base: &str, params: &Vec<Param>) -> (r: Option<String>)
    ensures
        match r {
            Some(u) => parsed_url_with_params(base@, params_view(params@)) == Some(u@),
            None => parsed_url_with_params(base@, params_view(params@)) is None,
        },
{
    match reqwest::Url::parse_with_params(base, params.iter()) {
        Ok(url) => Some(String::from(url.as_str())),
        Err(_) => None,
    }
}

/// The address of the Tautulli service is not an absolute URL.
#[derive(Clone, Copy, Debug, PartialEq, Eq, Structural)]
pub struct InvalidTautulliUrl;

/// Lifts a parse outcome to the service's result.
pub open spec fn url_result(parsed: Option<Seq<char>>, r: Result<String, InvalidTautulliUrl>) -> bool {
    match parsed {
        Some(u) => r matches Ok(s) && s@ == u,
        None => r == Err::<String, InvalidTautulliUrl>(InvalidTautulliUrl),
    }
}

fn param(name: &str, value: String) -> (p: Param)
    ensures
        p.0@ == name@,
        p.1@ == value@,
{
    (String::from_str(name), value)
}

/// The parameters every command carries: the key and the command name.
pub open spec fn base_params(api_key: Seq<char>, cmd: Seq<char>) -> Seq<(Seq<char>, Seq<char>)> {
    seq![("apikey"@, api_key), ("cmd"@, cmd)]
}

/// The parameters of `get_user_watch_time_stats`.
pub open spec fn watch_time_params(
    api_key: Seq<char>,
    user_id: Seq<char>,
    grouping: Option<bool>,
    query_days: Option<QueryDays>,
) -> Seq<(Seq<char>, Seq<char>)> {
    let p = base_params(api_key, "get_user_watch_time_stats"@).push(("user_id"@, user_id));
    let p = match grouping {
        Some(g) => p.push(("grouping"@, if g { "1"@ } else { "0"@ })),
        None => p,
    };
    match query_days {
        Some(q) => p.push(("query_days"@, query_days_text(q))),
        None => p,
    }
}

/// The parameters of `get_home_stats`.
pub open spec fn home_stats_params(api_key: Seq<char>, user_id: Option<Seq<char>>) -> Seq<(Seq<char>, Seq<char>)> {
    let p = base_params(api_key, "get_home_stats"@);
    match user_id {
        Some(u) => p.push(("user_id"@, u)),
        None => p,
    }
}

/// The parameters of `get_users_table`.
pub open spec fn users_table_params(
    api_key: Seq<char>,
    order_column: Option<Seq<char>>,
    order_dir: Option<Seq<char>>,
) -> Seq<(Seq<char>, Seq<char>)> {
    let p = base_params(api_key, "get_users_table"@).push(("length"@, "100"@));
    let p = match order_column {
        Some(c) => p.push(("order_column"@, c)),
        None => p,
    };
    match order_dir {
        Some(d) => p.push(("order_dir"@, d)),
        None => p,
    }
}

/// The Tautulli service: its address and key, from which every command's URL is built.
pub struct TautulliService {
    api_key: String,
    url: String,
}

impl TautulliService {
    pub fn new(url: &str, api_key: &str) -> (s: Self)
        ensures
            s.url() == url@,
            s.api_key() == api_key@,
    {
        TautulliService { api_key: String::from_str(api_key), url: String::from_str(url) }
    }

    pub closed spec fn url(&self) -> Seq<char> {
        self.url@
    }

    pub closed spec fn api_key(&self) -> Seq<char> {
        self.api_key@
    }

    /// The endpoint of the v2 API.
    pub open spec fn endpoint(&self) -> Seq<char> {
        self.url() + "/api/v2"@
    }

    fn base(&self, cmd: &str) -> (r: (String, Vec<Param>))
        ensures
            r.0@ == self.endpoint(),
            params_view(r.1@) =~= base_params(self.api_key(), cmd@),
    {
        let mut endpoint = self.url.clone();
        endpoint.append("/api/v2");
        let mut params: Vec<Param> = Vec::new();
        params.push(param("apikey", self.api_key.clone()));
        params.push(param("cmd", String::from_str(cmd)));
        (endpoint, params)
    }

    fn finish(endpoint: &String, params: &Vec<Param>) -> (r: Result<String, InvalidTautulliUrl>)
        ensures
            url_result(parsed_url_with_params(endpoint@, params_view(params@)), r),
    {
        match url_with_params(endpoint.as_str(), params) {
            Some(u) => Ok(u),
            None => Err(InvalidTautulliUrl),
        }
    }

    /// The URL of a `get_user_watch_time_stats` query.
    pub fn get_user_watch_time_stats(
        &self,
        user_id: &str,
        grouping: Option<bool>,
        query_days: Option<QueryDays>,
    ) -> (r: Result<String, InvalidTautulliUrl>)
        ensures
            url_result(
                parsed_url_with_params(
                    self.endpoint(),
                    watch_time_params(self.api_key(), user_id@, grouping, query_days),
                ),
                r,
            ),
    {
        let (endpoint, mut params) = self.base("get_user_watch_time_stats");
        params.push(param("user_id", String::from_str(user_id)));
        if let Some(g) = grouping {
            let v = if g { String::from_str("1") } else { String::from_str("0") };
            params.push(param("grouping", v));
        }
        if let Some(q) = query_days {
            params.push(param("query_days", q.to_string()));
        }
        assert(params_view(params@) =~= watch_time_params(self.api_key(), user_id@, grouping, query_days));
        Self::finish(&endpoint, &params)
    }

    /// The URL of a `server_status` query.
    pub fn server_status(&self) -> (r: Result<String, InvalidTautulliUrl>)
        ensures
            url_result(parsed_url_with_params(self.endpoint(), base_params(self.api_key(), "server_status"@)), r),
    {
        let (endpoint, params) = self.base("server_status");
        Self::finish(&endpoint, &params)
    }

    /// The URL of a `get_activity` query.
    pub fn get_activity(&self) -> (r: Result<String, InvalidTautulliUrl>)
        ensures
            url_result(parsed_url_with_params(self.endpoint(), base_params(self.api_key(), "get_activity"@)), r),
    {
        let (endpoint, params) = self.base("get_activity");
        Self::finish(&endpoint, &params)
    }

    /// The URL of a `get_libraries` query.
    pub fn get_libraries(&self) -> (r: Result<String, InvalidTautulliUrl>)
        ensures
            url_result(parsed_url_with_params(self.endpoint(), base_params(self.api_key(), "get_libraries"@)), r),
    {
        let (endpoint, params) = self.base("get_libraries");
        Self::finish(&endpoint, &params)
    }

    /// The URL of a `get_home_stats` query, for one user or for the whole server.
    pub fn get_home_stats(&self, user_id: Option<&str>) -> (r: Result<String, InvalidTautulliUrl>)
        ensures
            url_result(
                parsed_url_with_params(
                    self.endpoint(),
                    home_stats_params(self.api_key(), match user_id { Some(u) => Some(u@), None => None }),
                ),
                r,
            ),
    {
        let (endpoint, mut params) = self.base("get_home_stats");
        if let Some(u) = user_id {
            params.push(param("user_id", String::from_str(u)));
        }
        assert(params_view(params@) =~= home_stats_params(
            self.api_key(),
            match user_id { Some(u) => Some(u@), None => None },
        ));
        Self::finish(&endpoint, &params)
    }

    /// The URL of a `get_users_table` query of at most 100 rows.
    pub fn get_users_table(&self, order_column: Option<&str>, order_dir: Option<&str>) -> (r: Result<
        String,
        InvalidTautulliUrl,
    >)
        ensures
            url_result(
                parsed_url_with_params(
                    self.endpoint(),
                    users_table_params(
                        self.api_key(),
                        match order_column { Some(c) => Some(c@), None => None },
                        match order_dir { Some(d) => Some(d@), None => None },
                    ),
                ),
                r,
            ),
    {
        let (endpoint, mut params) = self.base("get_users_table");
        params.push(param("length", String::from_str("100")));
        if let Some(c) = order_column {
            params.push(param("order_column", String::from_str(c)));
        }
        if let Some(d) = order_dir {
            params.push(param("order_dir", String::from_str(d)));
        }
        assert(params_view(params@) =~= users_table_params(
            self.api_key(),
            match order_column { Some(c) => Some(c@), None => None },
            match order_dir { Some(d) => Some(d@), None => None },
        ));
        Self::finish(&endpoint, &params)
    }
}

/// The watch summary shown to a user.
pub struct TopMedia {
    pub show_count: i64,
    pub movie_count: i64,
    pub total_minutes: i64,
    pub top_movie: String,
    pub top_show: String,
}

/// The title that the home statistics name for `id`: the first row of the last
/// statistic with that id, or the empty title when there is no such statistic or it
/// has no rows.
pub open spec fn top_title(stats: Seq<HomeStats>, id: StatId) -> Seq<char>
    decreases stats.len(),
{
    if stats.len() == 0 {
        Seq::empty()
    } else if stats.last().stat_id == id {
        if stats.last().rows@.len() > 0 {
            stats.last().rows@[0].title@
        } else {
            Seq::empty()
        }
    } else {
        top_title(stats.drop_last(), id)
    }
}

/// The leaderboard entry of one user.
#[derive(Clone, Copy, Debug, PartialEq, Eq, Structural)]
pub struct Leaderboard {
    pub watch_position: i64,
    pub watch_duration: i64,
    pub watch_count: i64,
}

#[derive(Clone, Copy, Debug, PartialEq, Eq, Structural)]
pub enum GetPlexStatusVariant {
    InternalError,
}

pub struct GetPlexStatusError {
    pub error: GetPlexStatusVariant,
}

pub enum GetPlexStatusResult {
    Success(ServerStatus),
    Failure(GetPlexStatusError),
}

#[derive(Clone, Copy, Debug, PartialEq, Eq, Structural)]
pub enum GetLeaderboardVariant {
    InternalError,
}

pub struct GetLeaderboardError {
    pub error: GetLeaderboardVariant,
}

pub enum GetLeaderboardResult {
    Success(Leaderboard),
    Failure(GetLeaderboardError),
}

#[derive(Clone, Copy, Debug, PartialEq, Eq, Structural)]
pub enum GetTopMediaVariant {
    InternalError,
}

pub struct GetTopMediaError {
    pub error: GetTopMediaVariant,
}

pub enum GetTopMediaResult {
    Success(TopMedia),
    Failure(GetTopMediaError),
}

#[derive(Clone, Copy, Debug, PartialEq, Eq, Structural)]
pub enum GetPlexActivityVariant {
    InternalError,
}

pub struct GetPlexActivityError {
    pub error: GetPlexActivityVariant,
}

pub enum GetPlexActivityResult {
    Success(GetActivity),
    Failure(GetPlexActivityError),
}

/// The Tautulli part of the GraphQL query root.
pub struct TautulliQuery;

impl TautulliQuery {
    /// The top movie and show among a user's home statistics.
    pub fn top_media(&self, user_stats: Vec<HomeStats>) -> (r: GetTopMediaResult)
        ensures
            r matches GetTopMediaResult::Success(m) && m.top_movie@ == top_title(user_stats@, StatId::TopMovies)
                && m.top_show@ == top_title(user_stats@, StatId::TopTv) && m.show_count == 0
                && m.movie_count == 0 && m.total_minutes == 0,
    {
        let mut top_movie = String::new();
        let mut top_show = String::new();
        let mut i: usize = 0;
        while i < user_stats.len()
            invariant
                i <= user_stats@.len(),
                top_movie@ == top_title(user_stats@.subrange(0, i as int), StatId::TopMovies),
                top_show@ == top_title(user_stats@.subrange(0, i as int), StatId::TopTv),
            decreases user_stats.len() - i,
        {
            proof {
                let next = user_stats@.subrange(0, i + 1);
                assert(next.drop_last() =~= user_stats@.subrange(0, i as int));
                assert(next.last() == user_stats@[i as int]);
            }
            let stat = &user_stats[i];
            match stat.stat_id {
                StatId::TopMovies => {
                    top_movie = if stat.rows.len() > 0 { stat.rows[0].title.clone() } else { String::new() };
                },
                StatId::TopTv => {
                    top_show = if stat.rows.len() > 0 { stat.rows[0].title.clone() } else { String::new() };
                },
                _ => {},
            }
            i = i + 1;
        }
        assert(user_stats@.subrange(0, user_stats@.len() as int) =~= user_stats@);
        GetTopMediaResult::Success(TopMedia { show_count: 0, movie_count: 0, total_minutes: 0, top_movie, top_show })
    }

    /// The leaderboard entry of `plex_user` in a users table sorted by watch time: the
    /// 1-based position, watch time and play count of the first row whose user id, in
    /// decimal, is `plex_user`; all zero when no row is theirs.
    pub fn leaderboard(&self, users_table: &UserTable, plex_user: &str) -> (r: GetLeaderboardResult)
        requires
            users_table.data@.len() < i64::MAX,
        ensures
            r == GetLeaderboardResult::Success(leaderboard_of(users_table.data@, plex_user@)),
    {
        let data = &users_table.data;
        let mut i: usize = 0;
        while i < data.len()
            invariant
                data == &users_table.data,
                i <= data@.len(),
                data@.len() < i64::MAX,
                forall|j: int| 0 <= j < i ==> dec_int(data@[j].user_id as int) != plex_user@,
            decreases data.len() - i,
        {
            let user_id = i64_to_string(data[i].user_id);
            if str_eq(user_id.as_str(), plex_user) {
                proof { lemma_first_row_of(data@, plex_user@, i as int); }
                assert(first_row_of(data@, plex_user@) == Some(i as int));
                let l = Leaderboard {
                    watch_position: (i as i64) + 1,
                    watch_duration: data[i].duration,
                    watch_count: data[i].plays,
                };
                assert(leaderboard_of(data@, plex_user@) == l);
                return GetLeaderboardResult::Success(l);
            }
            i = i + 1;
        }
        proof { lemma_no_row_of(data@, plex_user@); }
        GetLeaderboardResult::Success(Leaderboard { watch_position: 0, watch_duration: 0, watch_count: 0 })
    }
}

/// The leaderboard entry that the first row of `plex_user` gives, or all zeros.
pub open spec fn leaderboard_of(rows: Seq<User>, plex_user: Seq<char>) -> Leaderboard {
    match first_row_of(rows, plex_user) {
        Some(i) => Leaderboard {
            watch_position: (i + 1) as i64,
            watch_duration: rows[i].duration,
            watch_count: rows[i].plays,
        },
        None => Leaderboard { watch_position: 0, watch_duration: 0, watch_count: 0 },
    }
}

/// The index of the first row whose user id, in decimal, is `plex_user`.
pub open spec fn first_row_of(rows: Seq<User>, plex_user: Seq<char>) -> Option<int>
    decreases rows.len(),
{
    if rows.len() == 0 {
        None
    } else if dec_int(rows[0].user_id as int) == plex_user {
        Some(0)
    } else {
        match first_row_of(rows.drop_first(), plex_user) {
            Some(i) => Some(i + 1),
            None => None,
        }
    }
}

proof fn lemma_first_row_of(rows: Seq<User>, plex_user: Seq<char>, i: int)
    requires
        0 <= i < rows.len(),
        dec_int(rows[i].user_id as int) == plex_user,
        forall|j: int| 0 <= j < i ==> dec_int(rows[j].user_id as int) != plex_user,
    ensures
        first_row_of(rows, plex_user) == Some(i),
    decreases i,
{
    if i > 0 {
        lemma_first_row_of(rows.drop_first(), plex_user, i - 1);
    }
}

proof fn lemma_no_row_of(rows: Seq<User>, plex_user: Seq<char>)
    requires
        forall|j: int| 0 <= j < rows.len() ==> dec_int(rows[j].user_id as int) != plex_user,
    ensures
        first_row_of(rows, plex_user) is None,
    decreases rows.len(),
{
    if rows.len() > 0 {
        lemma_no_row_of(rows.drop_first(), plex_user);
    }
}

/// The top title for `id` comes from the last statistic with that id: the title of its
/// first (highest-ranked) row, or the empty title when that statistic has no rows.
pub proof fn lemma_top_title_from_last_stat(stats: Seq<HomeStats>, id: StatId, k: int)
    requires
        0 <= k < stats.len(),
        stats[k].stat_id == id,
        forall|j: int| k < j < stats.len() ==> stats[j].stat_id != id,
    ensures
        top_title(stats, id) == if stats[k].rows@.len() > 0 {
            stats[k].rows@[0].title@
        } else {
            Seq::<char>::empty()
        },
    decreases stats.len(),
{
    if k < stats.len() - 1 {
        assert(stats.last().stat_id != id);
        let rest = stats.drop_last();
        assert forall|j: int| k < j < rest.len() implies rest[j].stat_id != id by {
            assert(rest[j] == stats[j]);
        }
        lemma_top_title_from_last_stat(rest, id, k);
    }
}

/// Without a statistic of `id`, the top title for `id` is empty.
pub proof fn lemma_top_title_absent(stats: Seq<HomeStats>, id: StatId)
    requires
        forall|j: int| 0 <= j < stats.len() ==> stats[j].stat_id != id,
    ensures
        top_title(stats, id) == Seq::<char>::empty(),
    decreases stats.len(),
{
    if stats.len() > 0 {
        let rest = stats.drop_last();
        assert forall|j: int| 0 <= j < rest.len() implies rest[j].stat_id != id by {
            assert(rest[j] == stats[j]);
        }
        lemma_top_title_absent(rest, id);
    }
}

/// A user's leaderboard position is one plus the number of rows before their first
/// row (the first row of the table is position 1), whatever rows follow; their watch
/// time and play count are that row's.
pub proof fn lemma_leaderboard_position(rows: Seq<User>, plex_user: Seq<char>, i: int)
    requires
        0 <= i < rows.len() < i64::MAX,
        dec_int(rows[i].user_id as int) == plex_user,
        forall|j: int| 0 <= j < i ==> dec_int(rows[j].user_id as int) != plex_user,
    ensures
        leaderboard_of(rows, plex_user).watch_position == i + 1,
        leaderboard_of(rows, plex_user).watch_duration == rows[i].duration,
        leaderboard_of(rows, plex_user).watch_count == rows[i].plays,
{
    lemma_first_row_of(rows, plex_user, i);
}

/// Rows after a user's first row do not move them on the leaderboard.
pub proof fn lemma_leaderboard_ignores_later_rows(rows: Seq<User>, more: Seq<User>, plex_user: Seq<char>, i: int)
    requires
        0 <= i < rows.len(),
        rows.len() + more.len() < i64::MAX,
        dec_int(rows[i].user_id as int) == plex_user,
    ensures
        leaderboard_of(rows + more, plex_user) == leaderboard_of(rows, plex_user),
{
    lemma_least_matching_row(rows, plex_user, i);
    let k = choose|k: int| 0 <= k < rows.len() && dec_int(rows[k].user_id as int) == plex_user
        && forall|j: int| 0 <= j < k ==> dec_int(rows[j].user_id as int) != plex_user;
    let all = rows + more;
    assert forall|j: int| 0 <= j < k implies dec_int(all[j].user_id as int) != plex_user by {
        assert(all[j] == rows[j]);
    }
    assert(all[k] == rows[k]);
    lemma_first_row_of(rows, plex_user, k);
    lemma_first_row_of(all, plex_user, k);
}

/// A row of the user exists, so a first one does.
proof fn lemma_least_matching_row(rows: Seq<User>, plex_user: Seq<char>, i: int)
    requires
        0 <= i < rows.len(),
        dec_int(rows[i].user_id as int) == plex_user,
    ensures
        exists|k: int| 0 <= k < rows.len() && dec_int(rows[k].user_id as int) == plex_user
            && forall|j: int| 0 <= j < k ==> dec_int(rows[j].user_id as int) != plex_user,
    decreases i,
{
    if exists|j: int| 0 <= j < i && dec_int(rows[j].user_id as int) == plex_user {
        let j = choose|j: int| 0 <= j < i && dec_int(rows[j].user_id as int) == plex_user;
        lemma_least_matching_row(rows, plex_user, j);
    }
}

/// A user with no row in the table has the all-zero leaderboard entry.
pub proof fn lemma_leaderboard_absent(rows: Seq<User>, plex_user: Seq<char>)
    requires
        forall|j: int| 0 <= j < rows.len() ==> dec_int(rows[j].user_id as int) != plex_user,
    ensures
        leaderboard_of(rows, plex_user) == (Leaderboard { watch_position: 0, watch_duration: 0, watch_count: 0 }),
{
    lemma_no_row_of(rows, plex_user);
}

} // verus!
