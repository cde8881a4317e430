use displex::services::tautulli::{
    bool_from_int, GetLeaderboardResult, GetTopMediaResult, HomeStats, InvalidFlag, InvalidTautulliUrl, Leaderboard,
    MediaType, OrderColumn, OrderDir, QueryDays, StatId, StatRow, TautulliQuery, TautulliService, TranscodeDecision,
    User, UserTable,
};

#[test]
fn query_days_text() {
    assert_eq!(QueryDays::Day.to_string(), "1");
    assert_eq!(QueryDays::Week.to_string(), "7");
    assert_eq!(QueryDays::Month.to_string(), "30");
    assert_eq!(QueryDays::Total.to_string(), "0");
}

#[test]
fn model_texts() {
    assert_eq!(MediaType::Episode.to_string(), "episode");
    assert_eq!(TranscodeDecision::DirectPlay.to_string(), "direct play");
    assert_eq!(OrderColumn::FriendlyName.to_string(), "friendly_name");
    assert_eq!(OrderColumn::Duration.to_string(), "duration");
    assert_eq!(OrderDir::Desc.to_string(), "desc");
}

#[test]
fn flags_are_zero_or_one() {
    assert_eq!(bool_from_int(0), Ok(false));
    assert_eq!(bool_from_int(1), Ok(true));
    assert_eq!(bool_from_int(2), Err(InvalidFlag { value: 2 }));
}

#[test]
fn server_status_url() {
    let svc = TautulliService::new("http://localhost:8181", "k3y");
    assert_eq!(svc.server_status().unwrap(), "http://localhost:8181/api/v2?apikey=k3y&cmd=server_status");
    assert_eq!(svc.get_activity().unwrap(), "http://localhost:8181/api/v2?apikey=k3y&cmd=get_activity");
    assert_eq!(svc.get_libraries().unwrap(), "http://localhost:8181/api/v2?apikey=k3y&cmd=get_libraries");
}

#[test]
fn watch_time_url_carries_grouping_and_span() {
    let svc = TautulliService::new("http://localhost:8181", "k");
    assert_eq!(
        svc.get_user_watch_time_stats("42", Some(true), Some(QueryDays::Total)).unwrap(),
        "http://localhost:8181/api/v2?apikey=k&cmd=get_user_watch_time_stats&user_id=42&grouping=1&query_days=0"
    );
    assert_eq!(
        svc.get_user_watch_time_stats("7", None, Some(QueryDays::Week)).unwrap(),
        "http://localhost:8181/api/v2?apikey=k&cmd=get_user_watch_time_stats&user_id=7&query_days=7"
    );
}

#[test]
fn home_stats_and_users_table_urls() {
    let svc = TautulliService::new("http://t", "k");
    assert_eq!(svc.get_home_stats(Some("9")).unwrap(), "http://t/api/v2?apikey=k&cmd=get_home_stats&user_id=9");
    assert_eq!(svc.get_home_stats(None).unwrap(), "http://t/api/v2?apikey=k&cmd=get_home_stats");
    assert_eq!(
        svc.get_users_table(Some("duration"), Some("desc")).unwrap(),
        "http://t/api/v2?apikey=k&cmd=get_users_table&length=100&order_column=duration&order_dir=desc"
    );
}

#[test]
fn parameters_are_form_encoded() {
    let svc = TautulliService::new("http://t", "a b&c");
    assert_eq!(svc.server_status().unwrap(), "http://t/api/v2?apikey=a+b%26c&cmd=server_status");
}

#[test]
fn relative_address_is_rejected() {
    let svc = TautulliService::new("localhost", "k");
    assert_eq!(svc.server_status(), Err(InvalidTautulliUrl));
}

fn stat(id: StatId, titles: &[&str]) -> HomeStats {
    HomeStats { stat_id: id, rows: titles.iter().map(|t| StatRow { title: t.to_string() }).collect() }
}

#[test]
fn top_media_takes_first_row_of_last_matching_statistic() {
    let stats = vec![
        stat(StatId::TopMovies, &["Alien", "Heat"]),
        stat(StatId::TopTv, &["Lost"]),
        stat(StatId::PopularMovies, &["Jaws"]),
        stat(StatId::TopMovies, &["Dune"]),
    ];
    match (TautulliQuery {}).top_media(stats) {
        GetTopMediaResult::Success(m) => {
            assert_eq!(m.top_movie, "Dune");
            assert_eq!(m.top_show, "Lost");
            assert_eq!((m.show_count, m.movie_count, m.total_minutes), (0, 0, 0));
        }
        GetTopMediaResult::Failure(_) => panic!("unexpected failure"),
    }
}

#[test]
fn top_media_without_rows_is_empty() {
    match (TautulliQuery {}).top_media(vec![stat(StatId::TopTv, &[])]) {
        GetTopMediaResult::Success(m) => {
            assert_eq!(m.top_movie, "");
            assert_eq!(m.top_show, "");
        }
        GetTopMediaResult::Failure(_) => panic!("unexpected failure"),
    }
}

fn row(id: i64, plays: i64, duration: i64) -> User {
    User { user_id: id, username: format!("u{id}"), friendly_name: format!("U{id}"), plays, duration }
}

#[test]
fn leaderboard_position_is_one_based() {
    let table = UserTable { records_filtered: None, records_total: None, data: vec![row(5, 10, 900), row(42, 3, 500), row(7, 1, 100)] };
    match (TautulliQuery {}).leaderboard(&table, "42") {
        GetLeaderboardResult::Success(l) => {
            assert_eq!(l, Leaderboard { watch_position: 2, watch_duration: 500, watch_count: 3 })
        }
        GetLeaderboardResult::Failure(_) => panic!("unexpected failure"),
    }
}

#[test]
fn leaderboard_of_unknown_user_is_zero() {
    let table = UserTable { records_filtered: Some(1), records_total: Some(1), data: vec![row(5, 10, 900)] };
    match (TautulliQuery {}).leaderboard(&table, "6") {
        GetLeaderboardResult::Success(l) => {
            assert_eq!(l, Leaderboard { watch_position: 0, watch_duration: 0, watch_count: 0 })
        }
        GetLeaderboardResult::Failure(_) => panic!("unexpected failure"),
    }
}
