use displex::config::AppConfig;
use displex::services::overseerr::{OverseerrError, OverseerrService, User, UserRequestSettings};
use displex::services::tautulli::{QueryDays, UserWatchStat};

fn service() -> OverseerrService {
    OverseerrService::new(AppConfig::default(), "http://overseerr:5055", "secret")
}

fn stats(hours: i32) -> Vec<UserWatchStat> {
    vec![UserWatchStat { query_days: 0, total_plays: 3, total_time: hours * 3600 }]
}

fn user() -> User {
    User { id: 7, plex_id: 42, display_name: "alice".into() }
}

fn quotas(movie_limit: i64, movie_days: i64, tv_limit: i64, tv_days: i64) -> UserRequestSettings {
    UserRequestSettings {
        movie_quota_limit: Some(movie_limit),
        movie_quota_days: Some(movie_days),
        tv_quota_limit: Some(tv_limit),
        tv_quota_days: Some(tv_days),
    }
}

fn unlimited() -> UserRequestSettings {
    UserRequestSettings { movie_quota_limit: None, movie_quota_days: None, tv_quota_limit: None, tv_quota_days: None }
}

fn tier(s: &Vec<UserWatchStat>) -> Result<UserRequestSettings, OverseerrError> {
    service().set_request_tier(&user(), s).map(|update| update.settings)
}

#[test]
fn quotas_are_written_to_the_users_settings() {
    let update = service().set_request_tier(&user(), &stats(11)).ok().unwrap();
    assert_eq!(update.url, "http://overseerr:5055/api/v1/user/7/settings/main");
    let negative = User { id: -3, plex_id: 1, display_name: "x".into() };
    let update = service().set_request_tier(&negative, &stats(1)).ok().unwrap();
    assert_eq!(update.url, "http://overseerr:5055/api/v1/user/-3/settings/main");
    assert_eq!(update.settings, unlimited());
}

#[test]
fn threshold_itself_earns_no_tier() {
    assert_eq!(tier(&stats(10)), Ok(unlimited()));
}

#[test]
fn just_above_bronze_earns_bronze() {
    assert_eq!(tier(&stats(11)), Ok(quotas(3, 7, 2, 7)));
}

#[test]
fn hundred_hours_earns_gold_not_platinum() {
    assert_eq!(tier(&stats(100)), Ok(quotas(10, 3, 3, 3)));
}

#[test]
fn beyond_every_threshold_earns_diamond() {
    assert_eq!(tier(&stats(1000)), Ok(quotas(0, 7, 0, 7)));
}

#[test]
fn partial_hours_are_truncated() {
    let s = vec![UserWatchStat { query_days: 0, total_plays: 1, total_time: 11 * 3600 - 1 }];
    assert_eq!(tier(&s), Ok(unlimited()));
}

#[test]
fn missing_statistics_are_an_error() {
    assert_eq!(tier(&vec![]), Err(OverseerrError::FailedToFetchStats));
}

#[test]
fn tier_index_never_decreases_with_more_hours() {
    let svc = service();
    let mut last: Option<usize> = None;
    for h in -5i64..400 {
        let t = svc.request_tier(h);
        match (last, t) {
            (Some(a), Some(b)) => assert!(a <= b),
            (Some(_), None) => panic!("tier lost at {h} hours"),
            _ => {}
        }
        last = t;
    }
    assert_eq!(svc.request_tier(240), Some(3));
    assert_eq!(svc.request_tier(241), Some(4));
}

#[test]
fn overseerr_account_is_found_by_plex_id_text() {
    let users = vec![
        User { id: 1, plex_id: 4, display_name: "a".into() },
        User { id: 2, plex_id: 42, display_name: "b".into() },
        User { id: 3, plex_id: 42, display_name: "c".into() },
    ];
    let svc = service();
    assert_eq!(svc.verified_user(&users, "42"), Some(1));
    assert_eq!(svc.verified_user(&users, "042"), None);
    assert_eq!(svc.verified_user(&users, "-4"), None);
}

#[test]
fn overseerr_endpoints() {
    let svc = service();
    assert_eq!(svc.users_url(), "http://overseerr:5055/api/v1/user");
    assert_eq!(svc.users_query(), ("take", "100"));
    assert_eq!(svc.user_settings_url("7"), "http://overseerr:5055/api/v1/user/7/settings/main");
    assert_eq!(svc.api_key_header(), "secret");
}

#[test]
fn tier_statistics_are_grouped_all_time_by_plex_id() {
    let q = service().tier_stats_query(&user());
    assert_eq!(q.user_id, "42");
    assert_eq!(q.grouping, Some(true));
    assert_eq!(q.query_days, Some(QueryDays::Total));
}
