use displex::db::DiscordToken;
use displex::entities::discord_token::{Model, TokenStatus};
use displex::services::discord_token::{
    CreateDiscordTokenErrorVariant, CreateDiscordTokenResult, DeleteDiscordTokenErrorVariant, DeleteDiscordTokenResult,
    DiscordTokensService, GetDiscordTokenResult, GetDiscordTokenVariant,
};
use displex::services::plex_token::{CreatePlexTokenResult, DeletePlexTokenErrorVariant, DeletePlexTokenResult, PlexTokensService};
use displex::services::plex_user::{PlexUsersService, UpdatePlexUserErrorVariant, UpdatePlexUserResult};
use displex::services::{DeleteOutcome, FindOutcome, InsertOutcome, UpdateOutcome};
use displex::services::tautulli::UserWatchStat;
use displex::tasks::usermeta_refresh::{maybe_refresh_token, needs_refresh, refresh_user_stats, RefreshAction, TokenRenewal};

#[test]
fn token_status_numbers() {
    let all = [TokenStatus::Active, TokenStatus::Revoked, TokenStatus::Renewed, TokenStatus::Expired];
    for (i, s) in all.iter().enumerate() {
        assert_eq!(s.to_value(), i as i32);
        assert_eq!(TokenStatus::try_from_value(i as i32), Some(*s));
    }
    assert_eq!(TokenStatus::try_from_value(4), None);
    assert_eq!(TokenStatus::default(), TokenStatus::Active);
}

#[test]
fn discord_token_answers() {
    let svc = DiscordTokensService;
    match svc.create_result("at", InsertOutcome::Conflict) {
        CreateDiscordTokenResult::Success(id) => assert_eq!(id.access_token, "at"),
        _ => panic!(),
    }
    match svc.create_result("at", InsertOutcome::Failed) {
        CreateDiscordTokenResult::Failure(e) => assert_eq!(e.error, CreateDiscordTokenErrorVariant::InternalError),
        _ => panic!(),
    }
    match svc.get_result(FindOutcome::<Model>::Missing) {
        GetDiscordTokenResult::Failure(e) => assert_eq!(e.error, GetDiscordTokenVariant::TokenDoesNotExist),
        _ => panic!(),
    }
    match svc.delete_result(DeleteOutcome::Deleted { rows_affected: 0 }) {
        DeleteDiscordTokenResult::Failure(e) => assert_eq!(e.error, DeleteDiscordTokenErrorVariant::UserDoesNotExist),
        _ => panic!(),
    }
    match svc.delete_result(DeleteOutcome::Deleted { rows_affected: 1 }) {
        DeleteDiscordTokenResult::Success(s) => assert_eq!(s.message, "ok"),
        _ => panic!(),
    }
}

#[test]
fn plex_answers() {
    match PlexTokensService.create_result("tok", InsertOutcome::Inserted { last_insert_id: "db-key".into() }) {
        CreatePlexTokenResult::Success(id) => assert_eq!(id.access_token, "db-key"),
        _ => panic!(),
    }
    match PlexTokensService.delete_result(DeleteOutcome::Failed) {
        DeletePlexTokenResult::Failure(e) => assert_eq!(e.error, DeletePlexTokenErrorVariant::InternalError),
        _ => panic!(),
    }
    match PlexUsersService.update_result(UpdateOutcome::NotUpdated) {
        UpdatePlexUserResult::Failure(e) => assert_eq!(e.error, UpdatePlexUserErrorVariant::UserDoesNotExist),
        _ => panic!(),
    }
}

const DAY: i64 = 86_400_000_000_000;

fn old_token() -> DiscordToken {
    DiscordToken {
        access_token: "old".into(),
        refresh_token: "r0".into(),
        scopes: "identify,".into(),
        expires_at: 0,
        created_at: 0,
        updated_at: 0,
        discord_user_id: "u1".into(),
    }
}

#[test]
fn tokens_renewed_only_long_after_expiry() {
    let now = 10 * DAY;
    assert!(needs_refresh(now - DAY - 1, now));
    assert!(!needs_refresh(now - DAY, now));
    assert!(!needs_refresh(now + DAY, now));
}

fn renewal(refresh_token: Option<&str>, expires_in: Option<u64>) -> Option<TokenRenewal> {
    Some(TokenRenewal { access_token: "new".into(), refresh_token: refresh_token.map(String::from), expires_in })
}

#[test]
fn renewed_token_keeps_scopes_and_user() {
    let now = 2 * DAY + 5;
    let t = match maybe_refresh_token(&old_token(), now, renewal(Some("r1"), None)) {
        Ok(RefreshAction::Store(t)) => t,
        _ => panic!("expected a renewed token"),
    };
    assert_eq!((t.access_token.as_str(), t.refresh_token.as_str(), t.scopes.as_str()), ("new", "r1", "identify,"));
    assert_eq!(t.discord_user_id, "u1");
    assert_eq!(t.expires_at, now + 3 * DAY);
    match maybe_refresh_token(&old_token(), now, renewal(Some("r1"), Some(10))) {
        Ok(RefreshAction::Store(t)) => assert_eq!(t.expires_at, now + 10_000_000_000),
        _ => panic!("expected a renewed token"),
    }
    match maybe_refresh_token(&old_token(), now, renewal(None, None)) {
        Err(e) => assert_eq!(e.message, "No refresh token returned!"),
        _ => panic!("expected an error"),
    }
}

#[test]
fn token_refresh_decision() {
    // Expired for more than a day: ask for a renewal with the stored refresh token.
    match maybe_refresh_token(&old_token(), DAY + 1, None) {
        Ok(RefreshAction::Renew { refresh_token }) => assert_eq!(refresh_token, "r0"),
        _ => panic!("expected a renewal"),
    }
    // Expired exactly a day ago, or not yet: kept as it is, whatever a renewal says.
    assert!(matches!(maybe_refresh_token(&old_token(), DAY, None), Ok(RefreshAction::Keep)));
    assert!(matches!(maybe_refresh_token(&old_token(), 5, renewal(None, None)), Ok(RefreshAction::Keep)));
}

#[test]
fn subscriber_stats_refresh() {
    let u = refresh_user_stats("Plex", &vec![UserWatchStat { query_days: 0, total_plays: 4, total_time: 7300 }]).ok().unwrap();
    assert_eq!((u.metadata.total_watches, u.metadata.hours_watched, u.metadata.is_subscriber), (4, 2, true));
    assert_eq!(refresh_user_stats("Plex", &vec![]).err().unwrap().message, "failed to fetch stats");
}
