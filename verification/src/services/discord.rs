//! Discord: the API endpoints the service calls, the linked-role metadata it
//! registers, and the metadata it reports for each user.

use vstd::prelude::*;

use crate::services::overseerr::trunc_div;
use crate::services::tautulli::UserWatchStat;
use crate::text::{dec_nat, push_decimal, str_eq};

verus! {

/// The metadata reported for a user's linked role.
#[derive(Clone, Copy, Debug, PartialEq, Eq, Structural)]
pub struct ApplicationMetadata {
    pub total_watches: i32,
    pub hours_watched: i32,
    pub is_subscriber: bool,
}

/// A linked-role update: the platform, optionally the user's name on it, and the metadata.
pub struct ApplicationMetadataUpdate {
    pub platform_name: String,
    pub platform_username: Option<String>,
    pub metadata: ApplicationMetadata,
}

/// A Discord user, as the `/users/@me` endpoint describes it.
pub struct User {
    pub id: String,
    pub username: String,
}

/// A linked-role metadata field: its key, display name, description and type.
pub struct ApplicationMetadataDefinition {
    pub key: String,
    pub name: String,
    pub description: String,
    pub type_: u8,
}

/// The view of a metadata definition as plain values.
pub open spec fn definition_view(d: ApplicationMetadataDefinition) -> (Seq<char>, Seq<char>, Seq<char>, u8) {
    (d.key@, d.name@, d.description@, d.type_)
}

/// The view of a list of metadata definitions.
pub open spec fn definitions_view(ds: Seq<ApplicationMetadataDefinition>) -> Seq<(Seq<char>, Seq<char>, Seq<char>, u8)> {
    ds.map_values(|d: ApplicationMetadataDefinition| definition_view(d))
}

/// The base of the Discord API.
pub open spec fn api_url(path: Seq<char>) -> Seq<char> {
    "https://discord.com/api/v10"@ + path
}

/// The URL of an API path.
pub fn format_url(path: &str) -> (url: String)
    ensures
        url@ == api_url(path@),
{
    let mut url = String::from_str("https://discord.com/api/v10");
    url.append(path);
    url
}

/// Discord's OAuth authorization endpoint.
pub fn authorize_endpoint() -> (s: &'static str)
    ensures
        s@ == "https://discord.com/api/oauth2/authorize"@,
{
    "https://discord.com/api/oauth2/authorize"
}

/// Discord's OAuth token endpoint.
pub fn token_endpoint() -> (s: &'static str)
    ensures
        s@ == "https://discord.com/api/oauth2/token"@,
{
    "https://discord.com/api/oauth2/token"
}

/// The scopes a login asks for: the user's identity and the right to write their
/// linked role.
pub fn authorize_scopes() -> (s: Vec<String>)
    ensures
        s@.len() == 2,
        s@[0]@ == "identify"@,
        s@[1]@ == "role_connections.write"@,
{
    let mut s: Vec<String> = Vec::new();
    s.push(String::from_str("identify"));
    s.push(String::from_str("role_connections.write"));
    s
}

/// The path of an application's linked-role metadata.
pub open spec fn metadata_path(application_id: u64) -> Seq<char> {
    "/applications/"@ + dec_nat(application_id as nat) + "/role-connections/metadata"@
}

/// The path of the calling user's linked role for an application.
pub open spec fn role_connection_path(application_id: u64) -> Seq<char> {
    "/users/@me/applications/"@ + dec_nat(application_id as nat) + "/role-connection"@
}

/// The Discord service: the bot token it authenticates its own requests with.
pub struct DiscordService {
    bot_token: String,
}

impl DiscordService {
    pub fn new(bot_token: &str) -> (s: Self)
        ensures
            s.bot_token() == bot_token@,
    {
        DiscordService { bot_token: String::from_str(bot_token) }
    }

    pub closed spec fn bot_token(&self) -> Seq<char> {
        self.bot_token@
    }

    /// The `Authorization` header of the bot's own requests.
    pub fn bot_authorization(&self) -> (h: String)
        ensures
            h@ == "Bot "@ + self.bot_token(),
    {
        let mut h = String::from_str("Bot ");
        h.append(self.bot_token.as_str());
        h
    }

    /// The endpoint that reads and writes an application's linked-role metadata.
    pub fn application_metadata(&self, application_id: u64) -> (url: String)
        ensures
            url@ == api_url(metadata_path(application_id)),
    {
        let mut url = format_url("/applications/");
        push_decimal(&mut url, application_id);
        url.append("/role-connections/metadata");
        url
    }

    /// The endpoint that sets the calling user's linked role for an application.
    pub fn link_application(&self, application_id: u64) -> (url: String)
        ensures
            url@ == api_url(role_connection_path(application_id)),
    {
        let mut url = format_url("/users/@me/applications/");
        push_decimal(&mut url, application_id);
        url.append("/role-connection");
        url
    }

    /// The endpoint that describes the calling user.
    pub fn user(&self) -> (url: String)
        ensures
            url@ == api_url("/users/@me"@),
    {
        format_url("/users/@me")
    }
}

fn definition(key: &str, name: &str, description: String, type_: u8) -> (d: ApplicationMetadataDefinition)
    ensures
        definition_view(d) == (key@, name@, description@, type_),
{
    ApplicationMetadataDefinition { key: String::from_str(key), name: String::from_str(name), description, type_ }
}

/// The linked-role metadata the application registers: the stream count and hours
/// streamed (integers, type 2) and access to the server (a boolean, type 7).
pub open spec fn metadata_spec_view(application_name: Seq<char>) -> Seq<(Seq<char>, Seq<char>, Seq<char>, u8)> {
    seq![
        ("total_watches"@, "Stream Count"@, "Total watch count"@, 2u8),
        ("hours_watched"@, "Hours Streamed"@, "Hours spent streaming"@, 2u8),
        ("is_subscriber"@, "\u{2705}"@, "Access to "@ + application_name, 7u8),
    ]
}

/// Builds the linked-role metadata the application registers.
pub fn metadata_spec(application_name: &str) -> (spec: Vec<ApplicationMetadataDefinition>)
    ensures
        definitions_view(spec@) == metadata_spec_view(application_name@),
{
    let mut access = String::from_str("Access to ");
    access.append(application_name);
    let mut spec: Vec<ApplicationMetadataDefinition> = Vec::new();
    spec.push(definition("total_watches", "Stream Count", String::from_str("Total watch count"), 2));
    spec.push(definition("hours_watched", "Hours Streamed", String::from_str("Hours spent streaming"), 2));
    spec.push(definition("is_subscriber", "\u{2705}", access, 7));
    assert(definitions_view(spec@) =~= metadata_spec_view(application_name@));
    spec
}

/// The linked-role metadata of the role-connection flow: access to the server (a
/// boolean, type 7, shown as a star) and hours streamed (an integer, type 2).
pub open spec fn role_connection_spec_view() -> Seq<(Seq<char>, Seq<char>, Seq<char>, u8)> {
    seq![
        ("is_subscribed"@, "\u{2B50}"@, "Access to Plex Server"@, 7u8),
        ("watched_hours"@, "Hours Streamed"@, "Hours spent streaming"@, 2u8),
    ]
}

/// Builds the linked-role metadata of the role-connection flow.
pub fn role_connection_metadata_spec() -> (spec: Vec<ApplicationMetadataDefinition>)
    ensures
        definitions_view(spec@) == role_connection_spec_view(),
{
    let mut spec: Vec<ApplicationMetadataDefinition> = Vec::new();
    spec.push(definition("is_subscribed", "\u{2B50}", String::from_str("Access to Plex Server"), 7));
    spec.push(definition("watched_hours", "Hours Streamed", String::from_str("Hours spent streaming"), 2));
    assert(definitions_view(spec@) =~= role_connection_spec_view());
    spec
}

/// Whether Discord's current definitions differ from the wanted ones, so that the
/// wanted ones must be registered.
pub fn needs_registration(current: &Vec<ApplicationMetadataDefinition>, wanted: &Vec<ApplicationMetadataDefinition>) -> (r: bool)
    ensures
        r == (definitions_view(current@) != definitions_view(wanted@)),
{
    !definitions_equal(current, wanted)
}

fn definitions_equal(a: &Vec<ApplicationMetadataDefinition>, b: &Vec<ApplicationMetadataDefinition>) -> (r: bool)
    ensures
        r == (definitions_view(a@) == definitions_view(b@)),
{
    if a.len() != b.len() {
        assert(definitions_view(a@).len() != definitions_view(b@).len());
        return false;
    }
    let mut i: usize = 0;
    while i < a.len()
        invariant
            a@.len() == b@.len(),
            i <= a@.len(),
            forall|j: int| 0 <= j < i ==> definition_view(a@[j]) == definition_view(b@[j]),
        decreases a.len() - i,
    {
        let x = &a[i];
        let y = &b[i];
        if !(str_eq(x.key.as_str(), y.key.as_str()) && str_eq(x.name.as_str(), y.name.as_str())
            && str_eq(x.description.as_str(), y.description.as_str()) && x.type_ == y.type_) {
            assert(definitions_view(a@)[i as int] != definitions_view(b@)[i as int]);
            return false;
        }
        i = i + 1;
    }
    assert(definitions_view(a@) =~= definitions_view(b@));
    true
}

/// Decides the metadata registration: the definitions to register when the ones
/// Discord currently has differ from the application's, nothing when they agree.
pub fn register_metadata(application_name: &str, current_metadata: &Vec<ApplicationMetadataDefinition>) -> (r: Option<
    Vec<ApplicationMetadataDefinition>,
>)
    ensures
        definitions_view(current_metadata@) == metadata_spec_view(application_name@) <==> r is None,
        r matches Some(spec) ==> definitions_view(spec@) == metadata_spec_view(application_name@),
{
    let spec = metadata_spec(application_name);
    if definitions_equal(current_metadata, &spec) {
        None
    } else {
        Some(spec)
    }
}

/// The hours that a watch statistic counts for.
pub open spec fn hours_of(stat: UserWatchStat) -> int {
    trunc_div(stat.total_time as int, 3600)
}

/// The linked-role metadata of a subscriber from their all-time statistics: their
/// play count, their watch hours, and access to the server.
pub fn subscriber_metadata(application_name: &str, stat: &UserWatchStat) -> (u: ApplicationMetadataUpdate)
    ensures
        u.platform_name@ == application_name@,
        u.platform_username is None,
        u.metadata == (ApplicationMetadata {
            total_watches: stat.total_plays,
            hours_watched: hours_of(*stat) as i32,
            is_subscriber: true,
        }),
{
    ApplicationMetadataUpdate {
        platform_name: String::from_str(application_name),
        platform_username: None,
        metadata: ApplicationMetadata {
            total_watches: stat.total_plays,
            hours_watched: stat.total_time / 3600,
            is_subscriber: true,
        },
    }
}

/// The linked-role metadata set when a user links their Plex account: whether they
/// subscribe and, for subscribers with statistics, their watch hours.
pub fn link_metadata(application_name: &str, is_subscribed: bool, watch_stats: &Vec<UserWatchStat>) -> (u:
    ApplicationMetadataUpdate)
    ensures
        u.platform_name@ == application_name@,
        u.platform_username is None,
        u.metadata == (ApplicationMetadata {
            total_watches: 0,
            hours_watched: if is_subscribed && watch_stats@.len() > 0 { hours_of(watch_stats@[0]) as i32 } else { 0 },
            is_subscriber: is_subscribed,
        }),
{
    let hours_watched: i32 = if is_subscribed && watch_stats.len() > 0 {
        watch_stats[0].total_time / 3600
    } else {
        0
    };
    ApplicationMetadataUpdate {
        platform_name: String::from_str(application_name),
        platform_username: None,
        metadata: ApplicationMetadata { total_watches: 0, hours_watched, is_subscriber: is_subscribed },
    }
}

} // verus!
