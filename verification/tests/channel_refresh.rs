use displex::config::{LibraryCategoryConfig, StatCategoryConfig, StatUpdateConfig};
use displex::services::tautulli::{GetActivity, GetLibrary};
use displex::tasks::channel_refresh::{
    bandwidth_level, category_create_config, channel_create_config, channel_update_stats_bandwidth,
    channel_update_stats_status, channel_update_stats_streams, channel_update_stats_transcodes, create_category,
    find_channel_by_prefix, find_library, generate_library_categories, generate_stats_categories,
    get_or_create_stat_category, library_channel_name, missing_library_errors, permission_overwrites,
    setup_step, stat_channel_name, CategoryPlan, StatChannelName, update_channel_name, update_movies, update_tv_episodes,
    update_tv_shows, BandwidthLevel, ChannelInfo, ChannelKind, ChannelPlan, ChannelRefreshError, ChannelResolution,
    CreateChannelConfig, LibraryChannel, PermissionOverwrite, RoleInfo, StatChannel,
};

fn role(id: u64, name: &str) -> RoleInfo {
    RoleInfo { id, name: name.into() }
}

fn update_config() -> StatUpdateConfig {
    StatUpdateConfig {
        bot_role_name: "Bot".into(),
        subscriber_role_name: "Subscriber".into(),
        stats_category: None,
        library_category: None,
    }
}

#[test]
fn overwrites_grant_bot_and_subscribers_and_hide_from_everyone() {
    let roles = vec![role(1, "@everyone"), role(2, "Subscriber"), role(3, "Bot"), role(4, "Bot")];
    let o = permission_overwrites(&roles, &update_config()).unwrap();
    assert_eq!(
        o,
        vec![
            PermissionOverwrite { id: 3, kind: 0, allow: Some(1051664), deny: None },
            PermissionOverwrite { id: 2, kind: 0, allow: Some(1024), deny: None },
            PermissionOverwrite { id: 1, kind: 0, allow: None, deny: Some(1049600) },
        ]
    );
}

#[test]
fn missing_roles_are_reported_in_lookup_order() {
    let c = update_config();
    assert_eq!(permission_overwrites(&vec![role(1, "@everyone")], &c), Err(ChannelRefreshError::BotRoleNotFound));
    assert_eq!(
        permission_overwrites(&vec![role(3, "Bot")], &c),
        Err(ChannelRefreshError::SubscriberRoleNotFound)
    );
    assert_eq!(
        permission_overwrites(&vec![role(3, "Bot"), role(2, "Subscriber")], &c),
        Err(ChannelRefreshError::EveryoneRoleNotFound)
    );
}

fn channel(id: u64, name: &str) -> ChannelInfo {
    ChannelInfo { id, name: name.into() }
}

#[test]
fn channels_are_found_by_prefix() {
    let channels = vec![channel(1, "general"), channel(2, "Streams: 3"), channel(3, "Streams: 4")];
    assert_eq!(find_channel_by_prefix(&channels, "Streams"), Some(1));
    assert_eq!(find_channel_by_prefix(&channels, "Bandwidth"), None);
    assert_eq!(find_channel_by_prefix(&channels, ""), Some(0));
}

fn create(prefix: &str, kind: ChannelKind, parent: Option<u64>) -> CreateChannelConfig {
    CreateChannelConfig {
        name_prefix: prefix.into(),
        position: Some(1),
        permissions: vec![PermissionOverwrite { id: 9, kind: 0, allow: Some(1024), deny: None }],
        type_: kind,
        parent_channel: parent,
        server_id: 77,
    }
}

#[test]
fn existing_channel_is_reused_and_missing_one_created() {
    let channels = vec![channel(10, "Plex Stats (🟢)")];
    match get_or_create_stat_category(&channels, create("Plex Stats", ChannelKind::Category, None)) {
        ChannelResolution::Existing { index, prefix } => {
            assert_eq!(index, 0);
            assert_eq!(prefix, "Plex Stats");
        }
        ChannelResolution::Create(_) => panic!("channel exists"),
    }
    match get_or_create_stat_category(&channels, create("Streams", ChannelKind::Voice, Some(10))) {
        ChannelResolution::Create(c) => assert_eq!(c.name_prefix, "Streams"),
        ChannelResolution::Existing { .. } => panic!("channel does not exist"),
    }
}

#[test]
fn creation_requests_carry_serenity_channel_types() {
    let category = create_category(create("Plex Stats", ChannelKind::Category, None));
    assert_eq!(category.channel_type, 4);
    assert_eq!(category.parent_id, None);
    assert_eq!(category.name, "Plex Stats");
    let voice = create_category(create("Streams", ChannelKind::Voice, Some(10)));
    assert_eq!(voice.channel_type, 2);
    assert_eq!(voice.parent_id, Some(10));
    assert_eq!(voice.server_id, 77);
    assert_eq!(voice.position, Some(1));
    assert_eq!(voice.permission_overwrites.len(), 1);
}

#[test]
fn stats_plan_lists_configured_channels_in_position_order() {
    let mut c = update_config();
    assert!(generate_stats_categories(&c).is_none());
    c.stats_category = Some(StatCategoryConfig {
        name: "Plex Stats".into(),
        stream_name: Some("Streams".into()),
        transcode_name: None,
        bandwidth_total_name: Some("Total".into()),
        bandwidth_local_name: None,
        bandwidth_remote_name: Some("Remote".into()),
    });
    let plan = generate_stats_categories(&c).unwrap();
    assert_eq!(plan.category.name_prefix, "Plex Stats");
    assert_eq!(plan.category.position, 5);
    let got: Vec<(StatChannel, &str, u8)> =
        plan.channels.iter().map(|(s, p)| (*s, p.name_prefix.as_str(), p.position)).collect();
    assert_eq!(
        got,
        vec![(StatChannel::Streams, "Streams", 0), (StatChannel::TotalBandwidth, "Total", 2), (StatChannel::RemoteBandwidth, "Remote", 4)]
    );
}

#[test]
fn library_plan_lists_configured_channels() {
    let mut c = update_config();
    assert!(generate_library_categories(&c).is_none());
    c.library_category = Some(LibraryCategoryConfig {
        name: "Plex Library Stats".into(),
        movies_name: Some("Movies".into()),
        tv_shows_name: Some("Shows".into()),
        tv_episodes_name: Some("Episodes".into()),
    });
    let plan = generate_library_categories(&c).unwrap();
    assert_eq!(plan.category.position, 5);
    let got: Vec<(LibraryChannel, &str, u8)> =
        plan.channels.iter().map(|(s, p)| (*s, p.name_prefix.as_str(), p.position)).collect();
    assert_eq!(
        got,
        vec![(LibraryChannel::Movies, "Movies", 0), (LibraryChannel::TvShows, "Shows", 1), (LibraryChannel::TvEpisodes, "Episodes", 2)]
    );
}

#[test]
fn create_configs_for_category_and_children() {
    let perms = vec![PermissionOverwrite { id: 1, kind: 0, allow: None, deny: Some(1049600) }];
    let plan = ChannelPlan { name_prefix: "Streams".into(), position: 0 };
    let cat = category_create_config(&ChannelPlan { name_prefix: "Plex Stats".into(), position: 5 }, &perms, 9);
    assert_eq!((cat.type_, cat.parent_channel, cat.position, cat.server_id), (ChannelKind::Category, None, Some(5), 9));
    let child = channel_create_config(&plan, &perms, 123, 9);
    assert_eq!((child.type_, child.parent_channel, child.position), (ChannelKind::Voice, Some(123), Some(0)));
    assert_eq!(child.permissions, perms);
}

fn activity() -> GetActivity {
    GetActivity {
        stream_count: "3".into(),
        stream_count_direct_play: 1,
        stream_count_direct_stream: 1,
        stream_count_transcode: 2,
        total_bandwidth: 0,
        lan_bandwidth: 0,
        wan_bandwidth: 0,
    }
}

#[test]
fn status_and_count_names() {
    assert_eq!(channel_update_stats_status("Plex Stats", Some(true)), "Plex Stats (🟢)");
    assert_eq!(channel_update_stats_status("Plex Stats", Some(false)), "Plex Stats (🔴)");
    assert_eq!(channel_update_stats_status("Plex Stats", None), "Plex Stats (🟡)");
    assert_eq!(channel_update_stats_streams("Streams", &activity()), "Streams: 3");
    assert_eq!(channel_update_stats_transcodes("Transcodes", &activity()), "Transcodes: 2");
}

#[test]
fn bandwidth_names_by_level() {
    assert_eq!(channel_update_stats_bandwidth("Total", 0).unwrap(), "Total: -");
    assert_eq!(channel_update_stats_bandwidth("Total", 1023).unwrap(), "Total: 1023 Kbps");
    assert_eq!(channel_update_stats_bandwidth("Total", 1024), None);
    assert_eq!(channel_update_stats_bandwidth("Total", 1048575), None);
    assert_eq!(channel_update_stats_bandwidth("Total", 1048576).unwrap(), "Total: 🔥");
    assert_eq!(bandwidth_level(5000), BandwidthLevel::Mbps);
    assert_eq!(bandwidth_level(1), BandwidthLevel::Kbps);
}

fn library(name: &str, count: &str, child: Option<&str>) -> GetLibrary {
    GetLibrary {
        section_id: "1".into(),
        section_name: name.into(),
        section_type: "movie".into(),
        agent: "a".into(),
        thumb: "t".into(),
        count: count.into(),
        child_count: child.map(|c| c.to_string()),
        parent_count: None,
        is_active: true,
    }
}

#[test]
fn library_names_and_lookup() {
    let libs = vec![library("Music", "9", None), library("TV Shows", "12", Some("340")), library("Movies", "80", None)];
    assert_eq!(find_library(&libs, "Movies"), Some(2));
    assert_eq!(find_library(&libs, "TV Shows"), Some(1));
    assert_eq!(find_library(&libs, "Anime"), None);
    assert_eq!(update_movies("Movies", &libs[2]), "Movies: 80");
    assert_eq!(update_tv_shows("Shows", &libs[1]), "Shows: 12");
    assert_eq!(update_tv_episodes("Episodes", &libs[1]), "Episodes: 340");
    assert_eq!(update_tv_episodes("Episodes", &libs[2]), "Episodes: N/A");
}

#[test]
fn rename_only_when_name_differs() {
    assert!(!update_channel_name("Streams: 3", "Streams: 3"));
    assert!(update_channel_name("Streams: 3", "Streams: 4"));
}

#[test]
fn each_statistics_channel_shows_its_own_activity_value() {
    let mut a = activity();
    a.total_bandwidth = 500;
    a.lan_bandwidth = 2_000_000;
    a.wan_bandwidth = 2048;
    let name = |slot| match stat_channel_name(slot, "X", &a) {
        StatChannelName::Name(n) => n,
        StatChannelName::Megabits(b) => format!("mbps {b}"),
    };
    assert_eq!(name(StatChannel::Streams), "X: 3");
    assert_eq!(name(StatChannel::Transcodes), "X: 2");
    assert_eq!(name(StatChannel::TotalBandwidth), "X: 500 Kbps");
    assert_eq!(name(StatChannel::LocalBandwidth), "X: 🔥");
    assert_eq!(name(StatChannel::RemoteBandwidth), "mbps 2048");
}

#[test]
fn library_channels_read_movies_and_tv_shows() {
    let libs = vec![library("TV Shows", "40", Some("900")), library("Movies", "120", None), library("Movies", "7", None)];
    assert_eq!(library_channel_name(LibraryChannel::Movies, "Films", &libs), Some("Films: 120".to_string()));
    assert_eq!(library_channel_name(LibraryChannel::TvShows, "Shows", &libs), Some("Shows: 40".to_string()));
    assert_eq!(library_channel_name(LibraryChannel::TvEpisodes, "Episodes", &libs), Some("Episodes: 900".to_string()));
    assert!(missing_library_errors(&libs).is_empty());
    let only_movies = vec![library("Movies", "1", None)];
    assert_eq!(library_channel_name(LibraryChannel::TvShows, "Shows", &only_movies), None);
    assert_eq!(library_channel_name(LibraryChannel::TvEpisodes, "Episodes", &only_movies), None);
    assert_eq!(missing_library_errors(&only_movies), vec!["failed to find library 'TV Shows'".to_string()]);
    assert_eq!(
        missing_library_errors(&vec![]),
        vec!["failed to find library 'Movies'".to_string(), "failed to find library 'TV Shows'".to_string()]
    );
}

#[test]
fn missing_role_messages() {
    assert_eq!(ChannelRefreshError::BotRoleNotFound.message(), "unable to find bot role");
    assert_eq!(ChannelRefreshError::SubscriberRoleNotFound.message(), "unable to find subscriber role");
    assert_eq!(ChannelRefreshError::EveryoneRoleNotFound.message(), "unable to find @everyone role");
}

#[test]
fn setup_finds_the_category_first_then_each_channel_under_it() {
    let plan = CategoryPlan {
        category: ChannelPlan { name_prefix: "Plex Stats".into(), position: 5 },
        channels: vec![
            (StatChannel::Streams, ChannelPlan { name_prefix: "Streams".into(), position: 0 }),
            (StatChannel::Transcodes, ChannelPlan { name_prefix: "Transcodes".into(), position: 1 }),
        ],
    };
    let perms = vec![PermissionOverwrite { id: 2, kind: 0, allow: Some(1024), deny: None }];
    let guild = vec![ChannelInfo { id: 77, name: "Streams: 3".into() }];
    match setup_step(&plan, &perms, 9, &guild, None, 0) {
        Some(ChannelResolution::Create(c)) => {
            assert_eq!(c.name_prefix, "Plex Stats");
            assert_eq!(c.type_, ChannelKind::Category);
            assert_eq!(c.parent_channel, None);
        }
        _ => panic!("expected the category to be created"),
    }
    match setup_step(&plan, &perms, 9, &guild, Some(40), 0) {
        Some(ChannelResolution::Existing { index, prefix }) => assert_eq!((index, prefix.as_str()), (0, "Streams")),
        _ => panic!("expected the existing streams channel"),
    }
    match setup_step(&plan, &perms, 9, &guild, Some(40), 1) {
        Some(ChannelResolution::Create(c)) => {
            assert_eq!(c.name_prefix, "Transcodes");
            assert_eq!(c.type_, ChannelKind::Voice);
            assert_eq!(c.parent_channel, Some(40));
            assert_eq!(c.position, Some(1));
        }
        _ => panic!("expected the transcodes channel to be created"),
    }
    assert!(setup_step(&plan, &perms, 9, &guild, Some(40), 2).is_none());
}
