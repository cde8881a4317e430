//! Application configuration: the settings tree, its defaults, and the values
//! derived from it (the database URL, the masked rendering of secrets).

use vstd::prelude::*;

use crate::bot::DiscordBot;
use crate::server::Server;
use crate::text::{dec_int, push_decimal_i64};

verus! {

/// The name of this project; configuration files and environment variables carry it.
pub fn project_name() -> (s: &'static str)
    ensures
        s@ == "displex"@,
{
    "displex"
}

/// The masked rendering of a secret: the debug rendering of a string of as many
/// `*` as the secret has bytes, that is the stars between double quotes.
pub open spec fn masked(byte_len: nat) -> Seq<char> {
    seq!['"'] + Seq::new(byte_len, |i: int| '*') + seq!['"']
}

/// Renders a secret without revealing it: the debug rendering of `"*".repeat(val.len())`.
pub fn obfuscated_formatter(val: &str) -> (s: String)
    ensures
        s@ == masked(val.len() as nat),
{
    let n = val.len();
    let mut s = String::from_str("\"");
    proof { reveal_strlit("\""); reveal_strlit("*"); }
    let mut i: usize = 0;
    while i < n
        invariant
            i <= n,
            s@ == seq!['"'] + Seq::new(i as nat, |k: int| '*'),
        decreases n - i,
    {
        proof { reveal_strlit("*"); }
        s.append("*");
        i = i + 1;
        assert(s@ =~= seq!['"'] + Seq::new(i as nat, |k: int| '*'));
    }
    assert(i == n);
    proof { reveal_strlit("\""); }
    s.append("\"");
    assert(s@ =~= masked(val.len() as nat));
    s
}

/// The database engine the service connects to.
#[derive(Clone, Copy, Debug, PartialEq, Eq, Structural)]
pub enum DatabaseType {
    SQLite,
    PostgreSQL,
}

pub struct DatabaseConfig {
    pub read_only: bool,
    pub username: String,
    pub password: String,
    pub database: String,
    pub type_: DatabaseType,
    pub host: String,
    pub port: i16,
    pub url: String,
}

/// The default DatabaseConfig.
pub open spec fn is_default_database(c: &DatabaseConfig) -> bool {
    &&& !c.read_only
    &&& c.url@ == "sqlite://displex.db?mode=rwc"@
    &&& c.username@ == Seq::<char>::empty()
    &&& c.password@ == Seq::<char>::empty()
    &&& c.database@ == Seq::<char>::empty()
    &&& c.host@ == Seq::<char>::empty()
    &&& c.type_ == DatabaseType::SQLite
    &&& c.port == 0
}

impl Default for DatabaseConfig {
    fn default() -> (c: Self)
        ensures
            is_default_database(&c),
    {
        DatabaseConfig {
            read_only: false,
            url: String::from_str("sqlite://displex.db?mode=rwc"),
            username: String::new(),
            password: String::new(),
            database: String::new(),
            host: String::new(),
            type_: DatabaseType::SQLite,
            port: 0,
        }
    }
}

/// The connection URL that a database configuration designates: for PostgreSQL with a
/// host, one assembled from its parts; otherwise the configured URL as it stands.
pub open spec fn database_url(c: &DatabaseConfig) -> Seq<char> {
    match c.type_ {
        DatabaseType::PostgreSQL => {
            if c.host@.len() == 0 {
                c.url@
            } else {
                "postgres://"@ + c.username@ + ":"@ + c.password@ + "@"@ + c.host@ + ":"@
                    + dec_int(c.port as int) + "/"@ + c.database@
            }
        },
        DatabaseType::SQLite => c.url@,
    }
}

/// A database configuration without a PostgreSQL host (or an SQLite one) connects
/// through its configured URL, taken as it stands; with a host, the URL is a
/// `postgres://` address ending in the database's name.
pub proof fn lemma_database_url_source(c: &DatabaseConfig)
    ensures
        (c.type_ == DatabaseType::SQLite || c.host@.len() == 0) ==> database_url(c) == c.url@,
        (c.type_ == DatabaseType::PostgreSQL && c.host@.len() > 0) ==> {
            let u = database_url(c);
            &&& u.subrange(0, 11) == "postgres://"@
            &&& u.subrange(u.len() - c.database@.len() - 1, u.len() as int) == "/"@ + c.database@
        },
{
    if c.type_ == DatabaseType::PostgreSQL && c.host@.len() > 0 {
        reveal_strlit("postgres://");
        reveal_strlit("/");
        let u = database_url(c);
        let head = "postgres://"@ + c.username@ + ":"@ + c.password@ + "@"@ + c.host@ + ":"@
            + dec_int(c.port as int);
        assert(u == head + ("/"@ + c.database@));
        assert(head.subrange(0, 11) =~= "postgres://"@);
        assert(u.subrange(0, 11) =~= head.subrange(0, 11));
        assert(u.subrange(u.len() - c.database@.len() - 1, u.len() as int) =~= "/"@ + c.database@);
    }
}

/// Builds the connection URL for the configured database.
pub fn generate_database_url(config: &AppConfig) -> (url: String)
    ensures
        url@ == database_url(&config.database),
{
    let db = &config.database;
    match db.type_ {
        DatabaseType::PostgreSQL => {
            if db.host.as_str().is_empty() {
                db.url.clone()
            } else {
                let mut s = String::from_str("postgres://");
                s.append(db.username.as_str());
                s.append(":");
                s.append(db.password.as_str());
                s.append("@");
                s.append(db.host.as_str());
                s.append(":");
                push_decimal_i64(&mut s, db.port as i64);
                s.append("/");
                s.append(db.database.as_str());
                s
            }
        },
        DatabaseType::SQLite => db.url.clone(),
    }
}

pub struct DebugConfig {
    pub accept_invalid_certs: bool,
}

/// The default DebugConfig.
pub open spec fn is_default_debug(c: &DebugConfig) -> bool {
    &&& !c.accept_invalid_certs
}

impl Default for DebugConfig {
    fn default() -> (c: Self)
        ensures
            is_default_debug(&c),
    {
        DebugConfig { accept_invalid_certs: false }
    }
}

pub struct DiscordConfig {
    pub client_id: u64,
    pub client_secret: String,
    pub server_id: u64,
}

/// The default DiscordConfig.
pub open spec fn is_default_discord(c: &DiscordConfig) -> bool {
    &&& c.client_id == 0
    &&& c.client_secret@ == Seq::<char>::empty()
    &&& c.server_id == 0
}

impl Default for DiscordConfig {
    fn default() -> (c: Self)
        ensures
            is_default_discord(&c),
    {
        DiscordConfig { client_id: 0, client_secret: String::new(), server_id: 0 }
    }
}

pub struct HttpConfig {
    pub type_: Server,
    pub hostname: String,
    pub host: String,
    pub port: u16,
}

/// The default HttpConfig.
pub open spec fn is_default_http(c: &HttpConfig) -> bool {
    &&& c.host@ == "127.0.0.1"@
    &&& c.port == 8080
    &&& c.hostname@ == "localhost"@
    &&& c.type_ == Server::Axum
}

impl Default for HttpConfig {
    fn default() -> (c: Self)
        ensures
            is_default_http(&c),
    {
        HttpConfig {
            host: String::from_str("127.0.0.1"),
            port: 8080,
            hostname: String::from_str("localhost"),
            type_: Server::default(),
        }
    }
}

pub struct ApiConfig {
    pub enabled: bool,
    pub api_key: String,
}

/// The default ApiConfig.
pub open spec fn is_default_api(c: &ApiConfig) -> bool {
    &&& !c.enabled
    &&& c.api_key@ == "notasecret"@
}

impl Default for ApiConfig {
    fn default() -> (c: Self)
        ensures
            is_default_api(&c),
    {
        ApiConfig { enabled: false, api_key: String::from_str("notasecret") }
    }
}

pub struct PlexConfig {
    pub server_id: String,
}

/// The default PlexConfig.
pub open spec fn is_default_plex(c: &PlexConfig) -> bool {
    &&& c.server_id@ == Seq::<char>::empty()
}

impl Default for PlexConfig {
    fn default() -> (c: Self)
        ensures
            is_default_plex(&c),
    {
        PlexConfig { server_id: String::new() }
    }
}

/// A request quota: at most `quota_limit` requests every `quota_days` days.
#[derive(Clone, Copy, Debug, PartialEq, Eq, Structural)]
pub struct RequestLimit {
    pub quota_limit: i64,
    pub quota_days: i64,
}

impl Default for RequestLimit {
    fn default() -> (l: Self)
        ensures
            l.quota_limit == 0,
            l.quota_days == 7,
    {
        RequestLimit { quota_limit: 0, quota_days: 7 }
    }
}

pub struct OverseerrConfig {
    pub url: String,
    pub api_key: String,
    pub tv_request_limits: RequestLimit,
    pub movie_request_limits: RequestLimit,
}

/// The default OverseerrConfig.
pub open spec fn is_default_overseerr(c: &OverseerrConfig) -> bool {
    &&& c.url@ == "http://localhost:5055"@
    &&& c.api_key@ == Seq::<char>::empty()
    &&& c.tv_request_limits == (RequestLimit { quota_limit: 0, quota_days: 7 })
    &&& c.movie_request_limits == (RequestLimit { quota_limit: 0, quota_days: 7 })
}

impl Default for OverseerrConfig {
    fn default() -> (c: Self)
        ensures
            is_default_overseerr(&c),
    {
        OverseerrConfig {
            url: String::from_str("http://localhost:5055"),
            api_key: String::new(),
            tv_request_limits: RequestLimit::default(),
            movie_request_limits: RequestLimit::default(),
        }
    }
}

pub struct SessionConfig {
    pub secret_key: String,
}

/// The default SessionConfig.
pub open spec fn is_default_session(c: &SessionConfig) -> bool {
    &&& c.secret_key@ == "youshouldnotusethisinproductionandchangeme"@
}

impl Default for SessionConfig {
    fn default() -> (c: Self)
        ensures
            is_default_session(&c),
    {
        SessionConfig { secret_key: String::from_str("youshouldnotusethisinproductionandchangeme") }
    }
}

pub struct TautulliConfig {
    pub url: String,
    pub api_key: String,
}

/// The default TautulliConfig.
pub open spec fn is_default_tautulli(c: &TautulliConfig) -> bool {
    &&& c.url@ == "http://localhost:8181"@
    &&& c.api_key@ == Seq::<char>::empty()
}

impl Default for TautulliConfig {
    fn default() -> (c: Self)
        ensures
            is_default_tautulli(&c),
    {
        TautulliConfig { url: String::from_str("http://localhost:8181"), api_key: String::new() }
    }
}

pub struct DiscordBotConfig {
    pub type_: DiscordBot,
    pub token: String,
    pub status_text: String,
    pub stat_update: StatUpdateConfig,
    pub user_update: UserUpdateConfig,
}

/// The default DiscordBotConfig.
pub open spec fn is_default_discord_bot(c: &DiscordBotConfig) -> bool {
    &&& c.status_text@ == "DisPlex"@
    &&& c.type_ == DiscordBot::Serenity
    &&& c.token@ == Seq::<char>::empty()
    &&& is_default_stat_update(&c.stat_update)
}

impl Default for DiscordBotConfig {
    fn default() -> (c: Self)
        ensures
            is_default_discord_bot(&c),
    {
        DiscordBotConfig {
            status_text: String::from_str("DisPlex"),
            type_: DiscordBot::default(),
            token: String::new(),
            stat_update: StatUpdateConfig::default(),
            user_update: UserUpdateConfig {  },
        }
    }
}

pub struct StatUpdateConfig {
    pub bot_role_name: String,
    pub subscriber_role_name: String,
    pub stats_category: Option<StatCategoryConfig>,
    pub library_category: Option<LibraryCategoryConfig>,
}

/// The default stat update settings: the `Bot` and `Subscriber` roles, no categories.
pub open spec fn is_default_stat_update(c: &StatUpdateConfig) -> bool {
    &&& c.bot_role_name@ == "Bot"@
    &&& c.subscriber_role_name@ == "Subscriber"@
    &&& c.stats_category is None
    &&& c.library_category is None
}

impl Default for StatUpdateConfig {
    fn default() -> (c: Self)
        ensures
            is_default_stat_update(&c),
    {
        StatUpdateConfig {
            bot_role_name: String::from_str("Bot"),
            subscriber_role_name: String::from_str("Subscriber"),
            stats_category: None,
            library_category: None,
        }
    }
}

pub struct UserUpdateConfig {}

/// A request tier: users who watched more than `watch_hours` hours get these quotas.
pub struct RequestLimitTier {
    pub name: String,
    pub watch_hours: i64,
    pub tv: RequestLimit,
    pub movie: RequestLimit,
}

pub struct RequestsUpgradeConfig {
    pub tiers: Vec<RequestLimitTier>,
}

/// Whether `t` is the tier called `name` with the given threshold and quotas.
pub open spec fn is_tier(
    t: RequestLimitTier,
    name: Seq<char>,
    watch_hours: i64,
    tv_limit: i64,
    tv_days: i64,
    movie_limit: i64,
    movie_days: i64,
) -> bool {
    &&& t.name@ == name
    &&& t.watch_hours == watch_hours
    &&& t.tv == (RequestLimit { quota_limit: tv_limit, quota_days: tv_days })
    &&& t.movie == (RequestLimit { quota_limit: movie_limit, quota_days: movie_days })
}

/// The default tier table: Bronze, Silver, Gold, Platinum and Diamond.
pub open spec fn is_default_tiers(tiers: Seq<RequestLimitTier>) -> bool {
    &&& tiers.len() == 5
    &&& is_tier(tiers[0], "Bronze"@, 10, 2, 7, 3, 7)
    &&& is_tier(tiers[1], "Silver"@, 25, 3, 7, 7, 7)
    &&& is_tier(tiers[2], "Gold"@, 50, 3, 3, 10, 3)
    &&& is_tier(tiers[3], "Platinum"@, 100, 4, 3, 15, 3)
    &&& is_tier(tiers[4], "Diamond"@, 240, 0, 7, 0, 7)
}

fn tier(
    name: &str,
    watch_hours: i64,
    tv_limit: i64,
    tv_days: i64,
    movie_limit: i64,
    movie_days: i64,
) -> (t: RequestLimitTier)
    ensures
        is_tier(t, name@, watch_hours, tv_limit, tv_days, movie_limit, movie_days),
{
    RequestLimitTier {
        name: String::from_str(name),
        watch_hours,
        tv: RequestLimit { quota_limit: tv_limit, quota_days: tv_days },
        movie: RequestLimit { quota_limit: movie_limit, quota_days: movie_days },
    }
}

impl Default for RequestsUpgradeConfig {
    fn default() -> (c: Self)
        ensures
            is_default_tiers(c.tiers@),
    {
        let mut tiers: Vec<RequestLimitTier> = Vec::new();
        tiers.push(tier("Bronze", 10, 2, 7, 3, 7));
        tiers.push(tier("Silver", 25, 3, 7, 7, 7));
        tiers.push(tier("Gold", 50, 3, 3, 10, 3));
        tiers.push(tier("Platinum", 100, 4, 3, 15, 3));
        tiers.push(tier("Diamond", 240, 0, 7, 0, 7));
        RequestsUpgradeConfig { tiers }
    }
}

/// The default tier table lists its tiers by strictly increasing watch-hour threshold.
pub proof fn lemma_default_tiers_ascending(tiers: Seq<RequestLimitTier>)
    requires
        is_default_tiers(tiers),
    ensures
        forall|i: int, j: int| 0 <= i < j < tiers.len() ==> tiers[i].watch_hours < tiers[j].watch_hours,
{
}

pub struct StatCategoryConfig {
    pub name: String,
    pub stream_name: Option<String>,
    pub transcode_name: Option<String>,
    pub bandwidth_total_name: Option<String>,
    pub bandwidth_local_name: Option<String>,
    pub bandwidth_remote_name: Option<String>,
}

impl Default for StatCategoryConfig {
    fn default() -> (c: Self)
        ensures
            c.name@ == "Plex Stats"@,
            c.stream_name is None,
            c.transcode_name is None,
            c.bandwidth_total_name is None,
            c.bandwidth_local_name is None,
            c.bandwidth_remote_name is None,
    {
        StatCategoryConfig {
            name: String::from_str("Plex Stats"),
            stream_name: None,
            transcode_name: None,
            bandwidth_local_name: None,
            bandwidth_remote_name: None,
            bandwidth_total_name: None,
        }
    }
}

pub struct LibraryCategoryConfig {
    pub name: String,
    pub movies_name: Option<String>,
    pub tv_shows_name: Option<String>,
    pub tv_episodes_name: Option<String>,
}

impl Default for LibraryCategoryConfig {
    fn default() -> (c: Self)
        ensures
            c.name@ == "Plex Library Stats"@,
            c.movies_name is None,
            c.tv_shows_name is None,
            c.tv_episodes_name is None,
    {
        LibraryCategoryConfig {
            name: String::from_str("Plex Library Stats"),
            movies_name: None,
            tv_episodes_name: None,
            tv_shows_name: None,
        }
    }
}

pub struct WebConfig {
    pub cors_origins: Vec<String>,
    pub insecure_cookie: bool,
}

/// The default WebConfig.
pub open spec fn is_default_web(c: &WebConfig) -> bool {
    &&& c.cors_origins@.len() == 0
    &&& !c.insecure_cookie
}

impl Default for WebConfig {
    fn default() -> (c: Self)
        ensures
            is_default_web(&c),
    {
        WebConfig { cors_origins: Vec::new(), insecure_cookie: false }
    }
}

/// The whole configuration of the service.
pub struct AppConfig {
    pub application_name: String,
    pub api: ApiConfig,
    pub database: DatabaseConfig,
    pub debug: DebugConfig,
    pub discord: DiscordConfig,
    pub discord_bot: DiscordBotConfig,
    pub http: HttpConfig,
    pub plex: PlexConfig,
    pub overseerr: OverseerrConfig,
    pub session: SessionConfig,
    pub tautulli: TautulliConfig,
    pub web: WebConfig,
    pub requests_config: RequestsUpgradeConfig,
}

impl Default for AppConfig {
    fn default() -> (c: Self)
        ensures
            c.application_name@ == Seq::<char>::empty(),
            is_default_api(&c.api),
            is_default_database(&c.database),
            is_default_debug(&c.debug),
            is_default_discord(&c.discord),
            is_default_discord_bot(&c.discord_bot),
            is_default_http(&c.http),
            is_default_plex(&c.plex),
            is_default_overseerr(&c.overseerr),
            is_default_session(&c.session),
            is_default_tautulli(&c.tautulli),
            is_default_web(&c.web),
            is_default_tiers(c.requests_config.tiers@),
    {
        AppConfig {
            application_name: String::new(),
            api: ApiConfig::default(),
            database: DatabaseConfig::default(),
            debug: DebugConfig::default(),
            discord: DiscordConfig::default(),
            discord_bot: DiscordBotConfig::default(),
            http: HttpConfig::default(),
            plex: PlexConfig::default(),
            overseerr: OverseerrConfig::default(),
            session: SessionConfig::default(),
            tautulli: TautulliConfig::default(),
            web: WebConfig::default(),
            requests_config: RequestsUpgradeConfig::default(),
        }
    }
}

} // verus!
