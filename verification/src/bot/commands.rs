//! What the bot's commands reply: the watch statistics embed, the account-linking
//! prompt, the subscriber token list, and error reports.

use vstd::prelude::*;

use crate::services::overseerr::trunc_div;
use crate::services::tautulli::{QueryDays, UserWatchStat, WatchStatsQuery};
use crate::text::{dec_int, dec_nat, hex_nat, push_decimal, push_decimal_i64, push_hex};

verus! {

/// The footer of every embed the bot sends.
pub fn footer() -> (s: &'static str)
    ensures
        s@ == "powered by displex"@,
{
    "powered by displex"
}

/// The remainder of truncating division, as Rust's `%` on integers.
pub open spec fn trunc_rem(a: int, b: int) -> int {
    a - b * trunc_div(a, b)
}

/// A duration in seconds as hours and minutes: `"{h}h {m}m"` when there is at least
/// an hour, `"{m}m"` otherwise.
pub open spec fn duration_text(seconds: i32) -> Seq<char> {
    let hours = trunc_div(seconds as int, 3600);
    let minutes = trunc_div(trunc_rem(seconds as int, 3600), 60);
    if hours > 0 {
        dec_int(hours) + "h "@ + dec_int(minutes) + "m"@
    } else {
        dec_int(minutes) + "m"@
    }
}

/// A non-negative duration shows its whole hours (with no wrap-around at a day or
/// beyond) and the whole minutes left over: for any `h` hours and `m < 60` minutes
/// that account for the duration to within a minute, the text is `"{h}h {m}m"`, or
/// `"{m}m"` under an hour.
pub proof fn lemma_duration_text_hours_minutes(seconds: i32, h: int, m: int)
    requires
        0 <= seconds,
        0 <= h,
        0 <= m < 60,
        h * 3600 + m * 60 <= seconds < h * 3600 + m * 60 + 60,
    ensures
        duration_text(seconds) == if h > 0 {
            dec_int(h) + "h "@ + dec_int(m) + "m"@
        } else {
            dec_int(m) + "m"@
        },
{
    let s = seconds as int;
    let r = s - h * 3600;
    let q = r - m * 60;
    assert(0 <= q < 60);
    assert(0 <= r < 3600);
    vstd::arithmetic::div_mod::lemma_fundamental_div_mod_converse(s, 3600, h, r);
    vstd::arithmetic::div_mod::lemma_fundamental_div_mod_converse(r, 60, m, q);
    assert(trunc_div(s, 3600) == h);
    assert(trunc_rem(s, 3600) == r);
    assert(trunc_div(r, 60) == m);
}

/// Formats a duration in seconds as hours and minutes.
pub fn format_duration(seconds: i32) -> (s: String)
    ensures
        s@ == duration_text(seconds),
{
    let hours: i32 = seconds / 3600;
    let minutes: i32 = (seconds % 3600) / 60;
    let mut s = String::new();
    if hours > 0 {
        push_decimal_i64(&mut s, hours as i64);
        s.append("h ");
    }
    push_decimal_i64(&mut s, minutes as i64);
    s.append("m");
    assert(s@ =~= duration_text(seconds));
    s
}

/// The text of one statistics field: the plays and watch time of the first statistic,
/// or zero plays and `0m` without one.
pub open spec fn watch_stats_text(stats: Seq<UserWatchStat>) -> Seq<char> {
    let plays: int = if stats.len() > 0 { stats[0].total_plays as int } else { 0 };
    let time: Seq<char> = if stats.len() > 0 { duration_text(stats[0].total_time) } else { "0m"@ };
    "**Plays:** "@ + dec_int(plays) + "\n**Time Watched:** "@ + time
}

/// Writes the text of one statistics field.
pub fn watch_stats_summary(stats: &Vec<UserWatchStat>) -> (s: String)
    ensures
        s@ == watch_stats_text(stats@),
{
    let mut s = String::from_str("**Plays:** ");
    if stats.len() > 0 {
        push_decimal_i64(&mut s, stats[0].total_plays as i64);
    } else {
        push_decimal_i64(&mut s, 0);
    }
    s.append("\n**Time Watched:** ");
    if stats.len() > 0 {
        let d = format_duration(stats[0].total_time);
        s.append(d.as_str());
    } else {
        s.append("0m");
    }
    s
}

/// A field of an embed.
pub struct EmbedField {
    pub name: String,
    pub value: String,
    pub inline: bool,
}

/// The view of embed fields as plain values.
pub open spec fn fields_view(fields: Seq<EmbedField>) -> Seq<(Seq<char>, Seq<char>, bool)> {
    fields.map_values(|f: EmbedField| (f.name@, f.value@, f.inline))
}

fn field(name: &str, value: String, inline: bool) -> (f: EmbedField)
    ensures
        f.name@ == name@,
        f.value@ == value@,
        f.inline == inline,
{
    EmbedField { name: String::from_str(name), value, inline }
}

/// The Discord user who called a command: their name, their avatar's address if
/// they set one, and the address of Discord's default avatar for them.
pub struct Author {
    pub name: String,
    pub avatar_url: Option<String>,
    pub default_avatar_url: String,
}

/// The picture shown for an author: their avatar, or Discord's default one.
pub open spec fn thumbnail_of(author: Author) -> Seq<char> {
    match author.avatar_url {
        Some(u) => u@,
        None => author.default_avatar_url@,
    }
}

/// The reply of the `stats` command; `timestamp` is in nanoseconds since the epoch.
pub struct StatsReport {
    pub content: String,
    pub title: String,
    pub color: u32,
    pub thumbnail: String,
    pub fields: Vec<EmbedField>,
    pub footer: String,
    pub timestamp: i64,
}

/// Whether `r` is the `stats` reply for `author` at `now` with the statistics of
/// today, this week, this month and all time.
pub open spec fn is_stats_report(
    r: StatsReport,
    author: Author,
    now: i64,
    today: Seq<UserWatchStat>,
    week: Seq<UserWatchStat>,
    month: Seq<UserWatchStat>,
    all_time: Seq<UserWatchStat>,
) -> bool {
    &&& r.content@ == "\u{1F4CA} **Watch History for "@ + author.name@ + "**"@
    &&& r.title@ == "Watch Stats for "@ + author.name@
    &&& r.color == 0x00A8FC
    &&& r.thumbnail@ == thumbnail_of(author)
    &&& fields_view(r.fields@) == seq![
        ("Today"@, watch_stats_text(today), true),
        ("This Week"@, watch_stats_text(week), true),
        ("This Month"@, watch_stats_text(month), true),
        ("All Time"@, watch_stats_text(all_time), true),
    ]
    &&& r.footer@ == "powered by displex"@
    &&& r.timestamp == now
}

/// Builds the reply of the `stats` command for `author` at `now` from their
/// statistics of today, this week, this month and all time: a header line, a title,
/// Plex blue, the author's picture, one inline field per span, the footer and the time.
pub fn stats_report(
    author: &Author,
    today: &Vec<UserWatchStat>,
    week: &Vec<UserWatchStat>,
    month: &Vec<UserWatchStat>,
    all_time: &Vec<UserWatchStat>,
    now: i64,
) -> (r: StatsReport)
    ensures
        is_stats_report(r, *author, now, today@, week@, month@, all_time@),
{
    let mut content = String::from_str("\u{1F4CA} **Watch History for ");
    content.append(author.name.as_str());
    content.append("**");
    let mut title = String::from_str("Watch Stats for ");
    title.append(author.name.as_str());
    let thumbnail = match &author.avatar_url {
        Some(u) => u.clone(),
        None => author.default_avatar_url.clone(),
    };
    let mut fields: Vec<EmbedField> = Vec::new();
    fields.push(field("Today", watch_stats_summary(today), true));
    fields.push(field("This Week", watch_stats_summary(week), true));
    fields.push(field("This Month", watch_stats_summary(month), true));
    fields.push(field("All Time", watch_stats_summary(all_time), true));
    assert(fields_view(fields@) =~= seq![
        ("Today"@, watch_stats_text(today@), true),
        ("This Week"@, watch_stats_text(week@), true),
        ("This Month"@, watch_stats_text(month@), true),
        ("All Time"@, watch_stats_text(all_time@), true),
    ]);
    StatsReport {
        content,
        title,
        color: 0x00A8FC,
        thumbnail,
        fields,
        footer: String::from_str(footer()),
        timestamp: now,
    }
}

/// What the `stats` command does next.
pub enum StatsAction {
    /// Reply with the account-linking prompt.
    LinkAccount,
    /// Log `error` and reply with the error report of `severity` showing `public_message`.
    Fail { error: String, public_message: String, severity: ErrorSeverity },
    /// Query these watch statistics.
    Query(WatchStatsQuery),
    /// Reply with the statistics report.
    Reply(StatsReport),
}

/// The span of the `k`-th statistics query of the `stats` command: today, this week,
/// this month, then all time.
pub open spec fn stats_span(k: int) -> QueryDays {
    if k == 0 {
        QueryDays::Day
    } else if k == 1 {
        QueryDays::Week
    } else if k == 2 {
        QueryDays::Month
    } else {
        QueryDays::Total
    }
}

/// Whether `a` is the `k`-th statistics query for `plex_user_id`: ungrouped, over
/// `stats_span(k)`.
pub open spec fn is_stats_query(a: StatsAction, plex_user_id: Seq<char>, k: int) -> bool {
    a matches StatsAction::Query(q) && q.user_id@ == plex_user_id && q.grouping is None && q.query_days
        == Some(stats_span(k))
}

/// Whether `a` reports, as a critical error, `error` under the public message
/// `An error has occurred`.
pub open spec fn is_stats_failure(a: StatsAction, error: Seq<char>) -> bool {
    a matches StatsAction::Fail { error: e, public_message, severity } && e@ == error && public_message@
        == "An error has occurred"@ && severity == ErrorSeverity::Critical
}

fn stats_query(plex_user_id: &str, k: usize) -> (a: StatsAction)
    requires
        k < 4,
    ensures
        is_stats_query(a, plex_user_id@, k as int),
{
    let query_days = if k == 0 {
        QueryDays::Day
    } else if k == 1 {
        QueryDays::Week
    } else if k == 2 {
        QueryDays::Month
    } else {
        QueryDays::Total
    };
    StatsAction::Query(
        WatchStatsQuery { user_id: String::from_str(plex_user_id), grouping: None, query_days: Some(query_days) },
    )
}

/// Decides the first step of the `stats` command from the Plex accounts linked to the
/// caller (`None` when the caller's Discord account is not linked): the linking
/// prompt, a critical error when no Plex account is linked, or else the first query,
/// for the first linked Plex account.
pub fn stats_step(plex_users: Option<&Vec<String>>) -> (a: StatsAction)
    ensures
        match plex_users {
            None => a is LinkAccount,
            Some(v) => if v@.len() == 0 {
                is_stats_failure(a, "User has no linked Plex account"@)
            } else {
                is_stats_query(a, v@[0]@, 0)
            },
        },
{
    match plex_users {
        None => StatsAction::LinkAccount,
        Some(v) => {
            if v.len() == 0 {
                StatsAction::Fail {
                    error: String::from_str("User has no linked Plex account"),
                    public_message: String::from_str("An error has occurred"),
                    severity: ErrorSeverity::Critical,
                }
            } else {
                stats_query(v[0].as_str(), 0)
            }
        },
    }
}

/// Decides the next step of the `stats` command for `author` and the Plex account
/// `plex_user_id`, at `now`, once a statistics query has answered `last`, with the answers of
/// the earlier queries in `collected`. A failed query ends the command with a
/// critical error and no further query; an answer is kept and followed by the next
/// query, and after the fourth by the statistics report.
pub fn stats_next(
    author: &Author,
    plex_user_id: &str,
    collected: &mut Vec<Vec<UserWatchStat>>,
    last: Result<Vec<UserWatchStat>, String>,
    now: i64,
) -> (a: StatsAction)
    requires
        old(collected)@.len() < 4,
    ensures
        match last {
            Err(e) => is_stats_failure(a, e@) && final(collected)@ == old(collected)@,
            Ok(s) => {
                &&& final(collected)@ == old(collected)@.push(s)
                &&& old(collected)@.len() < 3 ==> is_stats_query(a, plex_user_id@, old(collected)@.len() + 1int)
                &&& old(collected)@.len() == 3 ==> (a matches StatsAction::Reply(r) && is_stats_report(
                    r,
                    *author,
                    now,
                    final(collected)@[0]@,
                    final(collected)@[1]@,
                    final(collected)@[2]@,
                    final(collected)@[3]@,
                ))
            },
        },
{
    match last {
        Err(e) => StatsAction::Fail {
            error: e,
            public_message: String::from_str("An error has occurred"),
            severity: ErrorSeverity::Critical,
        },
        Ok(s) => {
            collected.push(s);
            let k = collected.len();
            if k < 4 {
                stats_query(plex_user_id, k)
            } else {
                StatsAction::Reply(
                    stats_report(author, &collected[0], &collected[1], &collected[2], &collected[3], now),
                )
            }
        },
    }
}

/// The address that links a Discord account and then a Plex account, returning to
/// the server's home channel.
pub open spec fn link_url(hostname: Seq<char>, server_id: u64) -> Seq<char> {
    "https://"@ + hostname + "/auth/discord?next=/auth/plex?next=discord://-/channels/"@ + dec_nat(server_id as nat)
        + "/@home"@
}

/// Builds the account-linking address.
pub fn account_link_url(hostname: &str, server_id: u64) -> (url: String)
    ensures
        url@ == link_url(hostname@, server_id),
{
    let mut url = String::from_str("https://");
    url.append(hostname);
    url.append("/auth/discord?next=/auth/plex?next=discord://-/channels/");
    push_decimal(&mut url, server_id);
    url.append("/@home");
    url
}

/// The embed that asks a user without a linked account to link one; `timestamp` is in
/// nanoseconds since the epoch.
pub struct LinkPrompt {
    pub title: String,
    pub description: String,
    pub color: u32,
    pub fields: Vec<EmbedField>,
    pub footer: String,
    pub timestamp: i64,
}

/// Builds the account-linking prompt at `now`, pointing at the linking address of the
/// server.
pub fn account_link_prompt(hostname: &str, server_id: u64, now: i64) -> (p: LinkPrompt)
    ensures
        p.timestamp == now,
        p.title@ == "Account Linking & Verification Required"@,
        p.description@ == "To access your Plex statistics, you need to link your Discord account to your Plex account and confirm you're a subscriber."@,
        p.color == 0xE5A00D,
        p.footer@ == "powered by displex"@,
        fields_view(p.fields@) == seq![
            ("How to Link Your Account"@, "Click [here]("@ + link_url(hostname@, server_id)
                + ") to link your accounts\n\nOr follow these steps manually:\n1. Go to Server Settings\n2. Click on Linked Roles\n3. Follow the steps to connect your Plex account"@, false),
            ("Is it safe?"@, "Yes! The linking process is secure and only provides us with the minimal permissions needed to associate and verify your accounts."@, false),
        ],
{
    let url = account_link_url(hostname, server_id);
    let mut how = String::from_str("Click [here](");
    how.append(url.as_str());
    how.append(") to link your accounts\n\nOr follow these steps manually:\n1. Go to Server Settings\n2. Click on Linked Roles\n3. Follow the steps to connect your Plex account");
    let mut fields: Vec<EmbedField> = Vec::new();
    fields.push(field("How to Link Your Account", how, false));
    fields.push(field(
        "Is it safe?",
        String::from_str("Yes! The linking process is secure and only provides us with the minimal permissions needed to associate and verify your accounts."),
        false,
    ));
    assert(fields_view(fields@) =~= seq![
        ("How to Link Your Account"@, "Click [here]("@ + link_url(hostname@, server_id)
            + ") to link your accounts\n\nOr follow these steps manually:\n1. Go to Server Settings\n2. Click on Linked Roles\n3. Follow the steps to connect your Plex account"@, false),
        ("Is it safe?"@, "Yes! The linking process is secure and only provides us with the minimal permissions needed to associate and verify your accounts."@, false),
    ]);
    LinkPrompt {
        title: String::from_str("Account Linking & Verification Required"),
        description: String::from_str("To access your Plex statistics, you need to link your Discord account to your Plex account and confirm you're a subscriber."),
        color: 0xE5A00D,
        fields,
        footer: String::from_str(footer()),
        timestamp: now,
    }
}

/// The severity level of an error, affects color and logging.
#[derive(Clone, Copy, Debug, PartialEq, Eq, Structural)]
pub enum ErrorSeverity {
    /// Critical errors (red): unexpected failures that need attention.
    Critical,
    /// Warnings (amber): issues that don't prevent operation but are concerning.
    Warning,
    /// Information (blue): not really errors, but informational messages.
    Info,
}

/// The embed that reports an error to a user; `timestamp` is in nanoseconds since the
/// epoch.
pub struct ErrorEmbed {
    pub title: String,
    pub description: String,
    pub color: u32,
    pub fields: Vec<EmbedField>,
    pub footer: String,
    pub timestamp: i64,
}

/// The whole seconds since the epoch at `now` nanoseconds, as the system clock reports
/// them: zero before the epoch.
pub open spec fn epoch_secs(now: i64) -> nat {
    if now < 0 { 0 } else { (now / 1_000_000_000) as nat }
}

pub open spec fn error_title(severity: ErrorSeverity) -> Seq<char> {
    match severity {
        ErrorSeverity::Critical => "\u{274C} Error Occurred"@,
        ErrorSeverity::Warning => "\u{26A0}\u{FE0F} Warning"@,
        ErrorSeverity::Info => "\u{2139}\u{FE0F} Information"@,
    }
}

pub open spec fn error_default_description(severity: ErrorSeverity) -> Seq<char> {
    match severity {
        ErrorSeverity::Critical => "An error occurred while processing your request. Our team has been notified."@,
        ErrorSeverity::Warning => "There was an issue processing your request."@,
        ErrorSeverity::Info => "Please note the following information."@,
    }
}

pub open spec fn error_color(severity: ErrorSeverity) -> u32 {
    match severity {
        ErrorSeverity::Critical => 0xE74C3C,
        ErrorSeverity::Warning => 0xE5A00D,
        ErrorSeverity::Info => 0x3498DB,
    }
}

/// Builds the report of an error of `severity` at `now` (nanoseconds since the
/// epoch): a title, the public message (or a default one), a colour by severity, the
/// footer and the time, and for critical errors a non-inline `Reference ID` field
/// holding the whole seconds since the epoch in lower-case hexadecimal.
pub fn send_error(severity: ErrorSeverity, public_message: Option<&str>, now: i64) -> (e: ErrorEmbed)
    ensures
        e.timestamp == now,
        e.title@ == error_title(severity),
        e.description@ == match public_message { Some(m) => m@, None => error_default_description(severity) },
        e.color == error_color(severity),
        e.footer@ == "powered by displex"@,
        fields_view(e.fields@) == if severity == ErrorSeverity::Critical {
            seq![("Reference ID"@, hex_nat(epoch_secs(now)), false)]
        } else {
            Seq::<(Seq<char>, Seq<char>, bool)>::empty()
        },
{
    let title = match severity {
        ErrorSeverity::Critical => String::from_str("\u{274C} Error Occurred"),
        ErrorSeverity::Warning => String::from_str("\u{26A0}\u{FE0F} Warning"),
        ErrorSeverity::Info => String::from_str("\u{2139}\u{FE0F} Information"),
    };
    let description = match public_message {
        Some(m) => String::from_str(m),
        None => match severity {
            ErrorSeverity::Critical => String::from_str(
                "An error occurred while processing your request. Our team has been notified.",
            ),
            ErrorSeverity::Warning => String::from_str("There was an issue processing your request."),
            ErrorSeverity::Info => String::from_str("Please note the following information."),
        },
    };
    let color: u32 = match severity {
        ErrorSeverity::Critical => 0xE74C3C,
        ErrorSeverity::Warning => 0xE5A00D,
        ErrorSeverity::Info => 0x3498DB,
    };
    let mut fields: Vec<EmbedField> = Vec::new();
    match severity {
        ErrorSeverity::Critical => {
            let secs: u64 = if now < 0 { 0 } else { (now / 1_000_000_000) as u64 };
            let mut r = String::new();
            push_hex(&mut r, secs);
            assert(r@ =~= hex_nat(epoch_secs(now)));
            fields.push(field("Reference ID", r, false));
            assert(fields_view(fields@) =~= seq![("Reference ID"@, hex_nat(epoch_secs(now)), false)]);
        },
        _ => {
            assert(fields_view(fields@) =~= Seq::<(Seq<char>, Seq<char>, bool)>::empty());
        },
    }
    ErrorEmbed { title, description, color, fields, footer: String::from_str(footer()), timestamp: now }
}

/// A nanosecond count of one minute.
pub open spec fn minute() -> int {
    60_000_000_000
}

/// A timestamp in nanoseconds rounded to the nearest whole minute, halves rounding up.
pub open spec fn round_to_minute(t: int) -> int {
    let r = t % minute();
    if r == 0 {
        t
    } else if minute() - r <= r {
        t - r + minute()
    } else {
        t - r
    }
}

/// Rounds a timestamp in nanoseconds to the nearest whole minute, halves rounding up.
pub fn duration_round_minute(t: i64) -> (r: i64)
    requires
        i64::MIN + minute() <= t <= i64::MAX - minute(),
    ensures
        r == round_to_minute(t as int),
{
    let span: i64 = 60_000_000_000;
    let mut rem: i64 = t % span;
    if rem < 0 {
        rem = rem + span;
    }
    assert(rem as int == (t as int) % minute());
    if rem == 0 {
        t
    } else if span - rem <= rem {
        t - rem + span
    } else {
        t - rem
    }
}

/// Rounding to a minute gives a whole minute at most half a minute away.
pub proof fn lemma_round_to_minute(t: int)
    ensures
        round_to_minute(t) % minute() == 0,
        -30_000_000_000 < round_to_minute(t) - t <= 30_000_000_000,
{
    let r = t % minute();
    assert(0 <= r < minute());
    assert((t - r) % minute() == 0) by {
        vstd::arithmetic::div_mod::lemma_fundamental_div_mod(t, minute());
        vstd::arithmetic::div_mod::lemma_mod_multiples_basic(t / minute(), minute());
    }
    assert((t - r + minute()) % minute() == 0) by {
        vstd::arithmetic::div_mod::lemma_fundamental_div_mod(t, minute());
        vstd::arithmetic::div_mod::lemma_mod_multiples_basic(t / minute() + 1, minute());
    }
}

/// The name humantime's formatter gives a whole number of seconds.
pub uninterp spec fn humantime_text(secs: u64) -> Seq<char>;

/// Calls `humantime::format_duration` on `secs` whole seconds and renders it with
/// `to_string`. Trusted to be a function of `secs` alone, named `humantime_text`, and,
/// as humantime's formatter writes it, `0s` for zero.
#[verifier::external_body]
fn humantime_duration(secs: u64) -> (s: String)
    ensures
        s@ == humantime_text(secs),
        secs == 0 ==> s@ == "0s"@,
{
    humantime::format_duration(std::time::Duration::from_secs(secs)).to_string()
}

/// How long until a token expires, as listed: `-` without a token, otherwise the
/// time between the minute nearest `now` and the minute nearest the expiry.
pub open spec fn remaining_text(expires_at: Option<i64>, now: i64) -> Seq<char> {
    match expires_at {
        None => "-"@,
        Some(t) => humantime_text(
            ((round_to_minute(t as int) - round_to_minute(now as int)) / 1_000_000_000) as u64,
        ),
    }
}

/// One row of the subscriber list: the user's name, how long until their latest token
/// expires, and that the field is inline. Timestamps are nanoseconds since the epoch;
/// a token must not expire before `now` (rounded to minutes).
pub fn subscriber_row(username: &str, expires_at: Option<i64>, now: i64) -> (row: (String, String, bool))
    requires
        i64::MIN + minute() <= now <= i64::MAX - minute(),
        expires_at matches Some(t) ==> i64::MIN + minute() <= t <= i64::MAX - minute() && round_to_minute(
            t as int,
        ) >= round_to_minute(now as int),
    ensures
        row.0@ == username@,
        row.1@ == remaining_text(expires_at, now),
        row.2,
{
    let remaining = match expires_at {
        None => String::from_str("-"),
        Some(t) => {
            let now_rounded = duration_round_minute(now);
            let expiry_rounded = duration_round_minute(t);
            let diff: i128 = (expiry_rounded as i128) - (now_rounded as i128);
            let secs: u64 = (diff / 1_000_000_000) as u64;
            humantime_duration(secs)
        },
    };
    (String::from_str(username), remaining, true)
}

/// The reply of the subscriber list; `timestamp` is in nanoseconds since the epoch.
pub struct SubscriberList {
    pub title: String,
    pub fields: Vec<EmbedField>,
    pub footer: String,
    pub timestamp: i64,
}

/// The rows a subscriber list shows for (username, token expiry) pairs at `now`.
pub open spec fn subscriber_fields(
    subscribers: Seq<(String, Option<i64>)>,
    now: i64,
) -> Seq<(Seq<char>, Seq<char>, bool)> {
    subscribers.map_values(|p: (String, Option<i64>)| (p.0@, remaining_text(p.1, now), true))
}

/// Whether a token expiry can be listed at `now`: it lies within the timestamp range
/// that rounding to minutes keeps, and not before `now` once both are rounded.
pub open spec fn listable_expiry(expires_at: Option<i64>, now: i64) -> bool {
    expires_at matches Some(t) ==> i64::MIN + minute() <= t <= i64::MAX - minute() && round_to_minute(t as int)
        >= round_to_minute(now as int)
}

/// Builds the subscriber list: one embed titled `Current Subscribers` with one inline
/// field per subscriber, in order, naming the user and how long until their latest
/// token expires.
pub fn subscriber_list(subscribers: &Vec<(String, Option<i64>)>, now: i64) -> (l: SubscriberList)
    requires
        i64::MIN + minute() <= now <= i64::MAX - minute(),
        forall|i: int| 0 <= i < subscribers@.len() ==> listable_expiry(#[trigger] subscribers@[i].1, now),
    ensures
        l.title@ == "Current Subscribers"@,
        l.footer@ == "powered by displex"@,
        l.timestamp == now,
        fields_view(l.fields@) == subscriber_fields(subscribers@, now),
{
    let mut fields: Vec<EmbedField> = Vec::new();
    let mut i: usize = 0;
    while i < subscribers.len()
        invariant
            i <= subscribers@.len(),
            i64::MIN + minute() <= now <= i64::MAX - minute(),
            forall|k: int| 0 <= k < subscribers@.len() ==> listable_expiry(#[trigger] subscribers@[k].1, now),
            fields@.len() == i,
            fields_view(fields@) == subscriber_fields(subscribers@.subrange(0, i as int), now),
        decreases subscribers.len() - i,
    {
        let entry = &subscribers[i];
        assert(listable_expiry(subscribers@[i as int].1, now));
        let (name, value, inline) = subscriber_row(entry.0.as_str(), entry.1, now);
        let ghost before = fields@;
        fields.push(EmbedField { name, value, inline });
        proof {
            let pre = subscribers@.subrange(0, i as int);
            let post = subscribers@.subrange(0, i + 1);
            assert(post =~= pre.push(subscribers@[i as int]));
            assert(fields@ =~= before.push(fields@[i as int]));
            assert forall|j: int| 0 <= j < i + 1 implies fields_view(fields@)[j] == subscriber_fields(post, now)[j] by {
                if j < i {
                    assert(fields@[j] == before[j]);
                    assert(fields_view(before)[j] == subscriber_fields(pre, now)[j]);
                    assert(post[j] == pre[j]);
                }
            }
            assert(fields_view(fields@) =~= subscriber_fields(post, now));
        }
        i = i + 1;
    }
    assert(subscribers@.subrange(0, subscribers@.len() as int) =~= subscribers@);
    SubscriberList {
        title: String::from_str("Current Subscribers"),
        fields,
        footer: String::from_str(footer()),
        timestamp: now,
    }
}

} // verus!
