use displex::config::{
    project_name, ApiConfig, AppConfig, DatabaseConfig, DiscordBotConfig, HttpConfig, LibraryCategoryConfig,
    OverseerrConfig, RequestLimit, SessionConfig, StatCategoryConfig, StatUpdateConfig, TautulliConfig,
};
use displex::bot::DiscordBot;
use displex::server::Server;
use displex::text::{i64_to_string, starts_with, str_eq, u64_to_string};

#[test]
fn integers_render_like_display() {
    assert_eq!(u64_to_string(0), "0");
    assert_eq!(u64_to_string(u64::MAX), u64::MAX.to_string());
    assert_eq!(i64_to_string(i64::MIN), i64::MIN.to_string());
    assert_eq!(i64_to_string(-7), "-7");
    assert_eq!(i64_to_string(120), "120");
}

#[test]
fn prefixes_and_equality() {
    assert!(starts_with("Plex Stats (🟢)", "Plex Stats"));
    assert!(!starts_with("Plex", "Plex Stats"));
    assert!(str_eq("é", "é"));
    assert!(!str_eq("a", "b"));
}

#[test]
fn component_defaults() {
    assert_eq!(project_name(), "displex");
    let d = DatabaseConfig::default();
    assert_eq!(d.url, "sqlite://displex.db?mode=rwc");
    assert_eq!(d.port, 0);
    let h = HttpConfig::default();
    assert_eq!((h.host.as_str(), h.port, h.hostname.as_str(), h.type_), ("127.0.0.1", 8080, "localhost", Server::Axum));
    assert_eq!(ApiConfig::default().api_key, "notasecret");
    assert_eq!(RequestLimit::default(), RequestLimit { quota_limit: 0, quota_days: 7 });
    assert_eq!(OverseerrConfig::default().url, "http://localhost:5055");
    assert_eq!(SessionConfig::default().secret_key, "youshouldnotusethisinproductionandchangeme");
    assert_eq!(TautulliConfig::default().url, "http://localhost:8181");
    let b = DiscordBotConfig::default();
    assert_eq!((b.status_text.as_str(), b.type_), ("DisPlex", DiscordBot::Serenity));
    let s = StatUpdateConfig::default();
    assert_eq!((s.bot_role_name.as_str(), s.subscriber_role_name.as_str()), ("Bot", "Subscriber"));
    assert_eq!(StatCategoryConfig::default().name, "Plex Stats");
    assert_eq!(LibraryCategoryConfig::default().name, "Plex Library Stats");
    let a = AppConfig::default();
    assert_eq!(a.requests_config.tiers.len(), 5);
    assert_eq!(Server::Disabled.to_string(), "Disabled");
}
