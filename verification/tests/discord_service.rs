use displex::services::discord::{
    authorize_endpoint, authorize_scopes, format_url, link_metadata, metadata_spec, needs_registration,
    register_metadata, role_connection_metadata_spec,
    subscriber_metadata, token_endpoint, ApplicationMetadata, ApplicationMetadataDefinition, DiscordService,
};
use displex::services::tautulli::UserWatchStat;

#[test]
fn api_urls() {
    assert_eq!(format_url("/users/@me"), "https://discord.com/api/v10/users/@me");
    let svc = DiscordService::new("tok");
    assert_eq!(svc.application_metadata(123), "https://discord.com/api/v10/applications/123/role-connections/metadata");
    assert_eq!(svc.link_application(9), "https://discord.com/api/v10/users/@me/applications/9/role-connection");
    assert_eq!(svc.user(), "https://discord.com/api/v10/users/@me");
    assert_eq!(svc.bot_authorization(), "Bot tok");
    assert_eq!(authorize_endpoint(), "https://discord.com/api/oauth2/authorize");
    assert_eq!(token_endpoint(), "https://discord.com/api/oauth2/token");
    assert_eq!(authorize_scopes(), vec!["identify".to_string(), "role_connections.write".to_string()]);
}

fn def(key: &str, name: &str, description: &str, type_: u8) -> ApplicationMetadataDefinition {
    ApplicationMetadataDefinition { key: key.into(), name: name.into(), description: description.into(), type_ }
}

#[test]
fn metadata_definitions() {
    let spec = metadata_spec("Plex");
    let got: Vec<(&str, &str, &str, u8)> =
        spec.iter().map(|d| (d.key.as_str(), d.name.as_str(), d.description.as_str(), d.type_)).collect();
    assert_eq!(
        got,
        vec![
            ("total_watches", "Stream Count", "Total watch count", 2),
            ("hours_watched", "Hours Streamed", "Hours spent streaming", 2),
            ("is_subscriber", "✅", "Access to Plex", 7),
        ]
    );
}

#[test]
fn registration_only_when_metadata_differs() {
    let current = vec![
        def("total_watches", "Stream Count", "Total watch count", 2),
        def("hours_watched", "Hours Streamed", "Hours spent streaming", 2),
        def("is_subscriber", "✅", "Access to Plex", 7),
    ];
    assert!(register_metadata("Plex", &current).is_none());
    assert_eq!(register_metadata("Other", &current).map(|v| v.len()), Some(3));
    assert!(register_metadata("Plex", &vec![]).is_some());
}

#[test]
fn metadata_updates() {
    let s = UserWatchStat { query_days: 0, total_plays: 12, total_time: 7 * 3600 + 59 };
    let u = subscriber_metadata("Plex", &s);
    assert_eq!(u.platform_name, "Plex");
    assert_eq!(u.metadata, ApplicationMetadata { total_watches: 12, hours_watched: 7, is_subscriber: true });
    let l = link_metadata("Plex", true, &vec![s]);
    assert_eq!(l.metadata, ApplicationMetadata { total_watches: 0, hours_watched: 7, is_subscriber: true });
    let n = link_metadata("Plex", false, &vec![s]);
    assert_eq!(n.metadata, ApplicationMetadata { total_watches: 0, hours_watched: 0, is_subscriber: false });
}

#[test]
fn role_connection_metadata() {
    let spec = role_connection_metadata_spec();
    assert_eq!(spec[0].key, "is_subscribed");
    assert_eq!(spec[0].name, "⭐");
    assert_eq!(spec[0].type_, 7);
    assert_eq!(spec[1].key, "watched_hours");
    assert!(!needs_registration(&role_connection_metadata_spec(), &spec));
    assert!(needs_registration(&vec![], &spec));
}
