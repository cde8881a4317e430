use displex::bot::commands::{
    account_link_prompt, account_link_url, duration_round_minute, footer, format_duration, send_error, stats_next,
    stats_report, stats_step, subscriber_list, subscriber_row, watch_stats_summary, Author, ErrorSeverity, StatsAction,
};
use displex::services::tautulli::{QueryDays, UserWatchStat};

const NOW: i64 = 1_700_000_000_123_456_789;

fn bob() -> Author {
    Author {
        name: "bob".into(),
        avatar_url: Some("https://cdn.example/avatars/1/abc.webp".into()),
        default_avatar_url: "https://cdn.example/embed/avatars/0.png".into(),
    }
}

fn stat(plays: i32, secs: i32) -> Vec<UserWatchStat> {
    vec![UserWatchStat { query_days: 0, total_plays: plays, total_time: secs }]
}

#[test]
fn durations_in_hours_and_minutes() {
    assert_eq!(format_duration(3661), "1h 1m");
    assert_eq!(format_duration(7200), "2h 0m");
    assert_eq!(format_duration(3599), "59m");
    assert_eq!(format_duration(59), "0m");
    assert_eq!(format_duration(-61), "-1m");
}

#[test]
fn statistics_field_text() {
    assert_eq!(watch_stats_summary(&stat(4, 5400)), "**Plays:** 4\n**Time Watched:** 1h 30m");
    assert_eq!(watch_stats_summary(&vec![]), "**Plays:** 0\n**Time Watched:** 0m");
}

#[test]
fn stats_reply_has_four_inline_fields() {
    let r = stats_report(&bob(), &stat(1, 60), &vec![], &stat(2, 120), &stat(30, 36000), NOW);
    assert_eq!(r.thumbnail, "https://cdn.example/avatars/1/abc.webp");
    assert_eq!(r.timestamp, NOW);
    let plain = Author { avatar_url: None, ..bob() };
    let d = stats_report(&plain, &vec![], &vec![], &vec![], &vec![], NOW);
    assert_eq!(d.thumbnail, "https://cdn.example/embed/avatars/0.png");
    assert_eq!(r.content, "📊 **Watch History for bob**");
    assert_eq!(r.title, "Watch Stats for bob");
    assert_eq!(r.color, 0x00A8FC);
    let names: Vec<&str> = r.fields.iter().map(|f| f.name.as_str()).collect();
    assert_eq!(names, vec!["Today", "This Week", "This Month", "All Time"]);
    assert!(r.fields.iter().all(|f| f.inline));
    assert_eq!(r.fields[1].value, "**Plays:** 0\n**Time Watched:** 0m");
    assert_eq!(r.fields[3].value, "**Plays:** 30\n**Time Watched:** 10h 0m");
    assert_eq!(r.footer, "powered by displex");
}

#[test]
fn linking_prompt_points_at_the_server() {
    assert_eq!(
        account_link_url("displex.example", 1234),
        "https://displex.example/auth/discord?next=/auth/plex?next=discord://-/channels/1234/@home"
    );
    let p = account_link_prompt("displex.example", 1234, NOW);
    assert_eq!(p.timestamp, NOW);
    assert_eq!(p.title, "Account Linking & Verification Required");
    assert_eq!(p.color, 0xE5A00D);
    assert!(p.fields[0].value.starts_with(
        "Click [here](https://displex.example/auth/discord?next=/auth/plex?next=discord://-/channels/1234/@home) to link your accounts"
    ));
    assert!(!p.fields[0].inline);
    assert_eq!(p.fields[1].name, "Is it safe?");
    assert_eq!(p.footer, "powered by displex");
    assert_eq!(footer(), "powered by displex");
}

#[test]
fn critical_errors_carry_a_hex_reference() {
    let now = 0x65f0a1b2 * 1_000_000_000 + 999_999_999;
    let e = send_error(ErrorSeverity::Critical, Some("An error has occurred"), now);
    assert_eq!(e.timestamp, now);
    let before_epoch = send_error(ErrorSeverity::Critical, None, -5);
    assert_eq!(before_epoch.fields[0].value, "0");
    assert_eq!(e.title, "❌ Error Occurred");
    assert_eq!(e.description, "An error has occurred");
    assert_eq!(e.color, 0xE74C3C);
    assert_eq!(e.fields.len(), 1);
    assert_eq!(e.fields[0].name, "Reference ID");
    assert_eq!(e.fields[0].value, "65f0a1b2");
    assert!(!e.fields[0].inline);
    assert_eq!(e.footer, "powered by displex");
}

#[test]
fn warnings_and_information_use_default_texts() {
    let w = send_error(ErrorSeverity::Warning, None, NOW);
    assert_eq!(w.title, "⚠️ Warning");
    assert_eq!(w.description, "There was an issue processing your request.");
    assert_eq!(w.color, 0xE5A00D);
    assert!(w.fields.is_empty());
    assert_eq!(w.footer, "powered by displex");
    let i = send_error(ErrorSeverity::Info, None, NOW);
    assert_eq!(i.title, "ℹ️ Information");
    assert_eq!(i.color, 0x3498DB);
    assert!(i.fields.is_empty());
}

const MIN: i64 = 60_000_000_000;

#[test]
fn rounding_to_the_nearest_minute() {
    assert_eq!(duration_round_minute(0), 0);
    assert_eq!(duration_round_minute(29_999_999_999), 0);
    assert_eq!(duration_round_minute(30_000_000_000), MIN);
    assert_eq!(duration_round_minute(-30_000_000_000), 0);
    assert_eq!(duration_round_minute(-30_000_000_001), -MIN);
    assert_eq!(duration_round_minute(5 * MIN + 1), 5 * MIN);
}

#[test]
fn subscriber_rows_show_time_left() {
    let now = 1_700_000_000_000_000_000i64;
    assert_eq!(subscriber_row("ann", None, now), ("ann".to_string(), "-".to_string(), true));
    let (_, left, inline) = subscriber_row("ann", Some(now + 2 * 3600 * 1_000_000_000 + 1), now);
    assert_eq!(left, "2h");
    assert!(inline);
    let (_, left, _) = subscriber_row("ann", Some(now + 10), now);
    assert_eq!(left, "0s");
}

fn expect_query(a: StatsAction, user: &str, days: QueryDays) {
    match a {
        StatsAction::Query(q) => {
            assert_eq!(q.user_id, user);
            assert_eq!(q.grouping, None);
            assert_eq!(q.query_days, Some(days));
        }
        _ => panic!("expected a statistics query"),
    }
}

fn expect_critical(a: StatsAction, message: &str) {
    match a {
        StatsAction::Fail { error, public_message, severity } => {
            assert_eq!(error, message);
            assert_eq!(public_message, "An error has occurred");
            assert_eq!(severity, ErrorSeverity::Critical);
        }
        _ => panic!("expected a critical error"),
    }
}

#[test]
fn stats_command_first_step() {
    assert!(matches!(stats_step(None), StatsAction::LinkAccount));
    expect_critical(stats_step(Some(&vec![])), "User has no linked Plex account");
    expect_query(stats_step(Some(&vec!["11".to_string(), "12".to_string()])), "11", QueryDays::Day);
}

#[test]
fn stats_command_queries_day_week_month_total_then_replies() {
    let mut collected = Vec::new();
    expect_query(stats_next(&bob(), "11", &mut collected, Ok(stat(1, 60)), NOW), "11", QueryDays::Week);
    expect_query(stats_next(&bob(), "11", &mut collected, Ok(vec![]), NOW), "11", QueryDays::Month);
    expect_query(stats_next(&bob(), "11", &mut collected, Ok(stat(2, 120)), NOW), "11", QueryDays::Total);
    match stats_next(&bob(), "11", &mut collected, Ok(stat(30, 3660)), NOW) {
        StatsAction::Reply(r) => {
            assert_eq!(r.title, "Watch Stats for bob");
            assert_eq!(r.timestamp, NOW);
            assert_eq!(r.fields[0].value, "**Plays:** 1\n**Time Watched:** 1m");
            assert_eq!(r.fields[1].value, "**Plays:** 0\n**Time Watched:** 0m");
            assert_eq!(r.fields[3].value, "**Plays:** 30\n**Time Watched:** 1h 1m");
        }
        _ => panic!("expected the statistics report"),
    }
}

#[test]
fn stats_command_stops_at_a_failed_query() {
    let mut collected = Vec::new();
    expect_query(stats_next(&bob(), "11", &mut collected, Ok(stat(1, 60)), NOW), "11", QueryDays::Week);
    expect_critical(stats_next(&bob(), "11", &mut collected, Err("tautulli down".to_string()), NOW), "tautulli down");
    assert_eq!(collected.len(), 1);
}

#[test]
fn subscriber_list_has_one_inline_field_per_subscriber() {
    let now = 1_700_000_000_000_000_000i64;
    let l = subscriber_list(
        &vec![("ann".to_string(), None), ("bo".to_string(), Some(now + 2 * 3600 * 1_000_000_000))],
        now,
    );
    assert_eq!(l.title, "Current Subscribers");
    assert_eq!(l.footer, "powered by displex");
    assert_eq!(l.timestamp, now);
    assert_eq!(l.fields.len(), 2);
    assert_eq!((l.fields[0].name.as_str(), l.fields[0].value.as_str(), l.fields[0].inline), ("ann", "-", true));
    assert_eq!((l.fields[1].name.as_str(), l.fields[1].value.as_str(), l.fields[1].inline), ("bo", "2h", true));
}
