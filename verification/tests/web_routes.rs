use displex::config::ApiConfig;
use displex::graphql::{CoreQuery, Identifier};
use displex::server::cookies::{
    cookie_attributes, displex_cookie, login_cookie, verify_role, CookieData, Role, SameSite,
};
use displex::server::routes::discord::{
    callback_exchange, callback_redirect, CallbackRedirect, DiscordRedirectQueryParams, discord_redirect_url, join_scopes, logged_in_cookie, role_for_user, token_expires_at, verify_state,
};
use displex::server::routes::plex::{is_subscribed, plex_next, redirect_target};
use displex::server::routes::graphql::playground_config;
use displex::server::routes::{configure, discord, graphql, plex, Handler, Method};

fn cookie(role: Role) -> CookieData {
    CookieData { discord_state: None, discord_user: Some("d1".into()), plex_user: Some(5), role }
}

#[test]
fn roles_are_checked_by_rank() {
    let admin = cookie(Role::Admin);
    let user = cookie(Role::User);
    assert!(verify_role(Some(&admin), Role::Admin).is_ok());
    assert!(verify_role(Some(&admin), Role::User).is_ok());
    assert!(verify_role(Some(&user), Role::User).is_ok());
    assert_eq!(verify_role(Some(&user), Role::Admin).err().unwrap().message, "unauthorized");
    assert!(verify_role(None, Role::User).is_err());
    assert!(verify_role(Some(&admin), Role::Anonymous).is_err());
}

#[test]
fn default_cookie_is_anonymous() {
    let c = CookieData::default();
    assert_eq!(c.role, Role::Anonymous);
    assert!(c.discord_state.is_none() && c.discord_user.is_none() && c.plex_user.is_none());
    let l = login_cookie("st".into());
    assert_eq!(l.discord_state.as_deref(), Some("st"));
    assert_eq!(l.role, Role::Anonymous);
    let now = 1_700_000_000_000_000_000i64;
    let a = cookie_attributes(now);
    assert_eq!(a.name, displex_cookie());
    assert_eq!(a.same_site, SameSite::Lax);
    assert!(a.http_only && a.secure);
    assert_eq!(a.path, "/");
    assert_eq!(a.expires, now + 15_552_000 * 1_000_000_000);
}

#[test]
fn oauth_state_must_match() {
    assert!(verify_state("abc", "abc").is_ok());
    assert_eq!(verify_state("abc", "abd").err().unwrap().message, "invalid state");
}

#[test]
fn discord_callback_address_carries_next() {
    assert_eq!(discord_redirect_url("example.org", &None), "https://example.org/auth/discord/callback");
    assert_eq!(
        discord_redirect_url("example.org", &Some("/auth/plex".into())),
        "https://example.org/auth/discord/callback?next=/auth/plex"
    );
}

#[test]
fn scopes_and_expiry() {
    assert_eq!(join_scopes(&Some(vec!["identify".into(), "role_connections.write".into()])), "identify,role_connections.write,");
    assert_eq!(join_scopes(&None), "");
    assert_eq!(token_expires_at(1_000, Some(60)), 1_000 + 60_000_000_000);
    assert_eq!(token_expires_at(0, None), 1_800_000_000_000);
}

#[test]
fn admins_are_recognised_at_login() {
    let admins = vec!["1".to_string(), "2".to_string()];
    assert_eq!(role_for_user(&admins, "2"), Role::Admin);
    assert_eq!(role_for_user(&admins, "3"), Role::User);
    let c = logged_in_cookie(login_cookie("s".into()), "2", &admins);
    assert_eq!(c.discord_user.as_deref(), Some("2"));
    assert_eq!(c.role, Role::Admin);
    assert_eq!(c.discord_state.as_deref(), Some("s"));
}

#[test]
fn plex_callback_decisions() {
    let devices = vec!["phone".to_string(), "srv-1".to_string()];
    assert!(is_subscribed(&devices, "srv-1"));
    assert!(!is_subscribed(&devices, "srv-2"));
    assert_eq!(redirect_target(&None), "/");
    assert_eq!(redirect_target(&Some("/home".into())), "/home");
    assert_eq!(plex_next(&None), "");
}

#[test]
fn route_tables() {
    let d: Vec<(String, Method, Handler)> = discord::routes().into_iter().map(|r| (r.path, r.method, r.handler)).collect();
    assert_eq!(
        d,
        vec![("/auth/discord".to_string(), Method::Get, Handler::DiscordAuth), ("/auth/discord/callback".to_string(), Method::Get, Handler::DiscordCallback)]
    );
    assert_eq!(plex::routes()[1].path, "/auth/plex/callback");
    let g = graphql::routes();
    assert_eq!((g[0].method, g[1].method), (Method::Get, Method::Post));
    let off = configure(&ApiConfig { enabled: false, api_key: "k".into() });
    assert_eq!(off.routes.len(), 4);
    assert!(off.nested.is_none());
    assert_eq!(off.fallback_dir, "./dist");
    let on = configure(&ApiConfig { enabled: true, api_key: "k".into() });
    assert_eq!(on.nest_prefix, "/gql");
    assert_eq!(on.nested.unwrap().len(), 2);
}

#[test]
fn graphql_core_values() {
    let n: i32 = Identifier::from(17).into();
    assert_eq!(n, 17);
    assert_eq!(i32::from(Identifier(-3)), -3);
    let q = CoreQuery;
    let d = q.core_details("1.2.3");
    assert_eq!((d.version.as_str(), d.author_name.as_str()), ("1.2.3", "mchestr"));
    assert_eq!(d.repository_link, "https://github.com/mchestr/displex");
    let who = q.whoami(Some(&cookie(Role::User)));
    assert_eq!((who.discord_user_id.as_deref(), who.plex_user_id, who.role), (Some("d1"), Some(5), Role::User));
    let anon = q.whoami(None);
    assert_eq!((anon.discord_user_id, anon.plex_user_id, anon.role), (None, None, Role::Anonymous));
}

#[test]
fn discord_callback_checks_state_before_exchanging_the_code() {
    let session = CookieData { discord_state: Some("s1".into()), discord_user: None, plex_user: None, role: Role::Anonymous };
    let query = DiscordRedirectQueryParams { code: "c".into(), state: "s1".into() };
    let x = callback_exchange(&session, "h.example", &query, &Some("/x".into())).ok().unwrap();
    assert_eq!(x.code, "c");
    assert_eq!(x.redirect_uri, "https://h.example/auth/discord/callback?next=/x");
    let forged = DiscordRedirectQueryParams { code: "c".into(), state: "s2".into() };
    assert_eq!(callback_exchange(&session, "h.example", &forged, &None).err().unwrap().message, "invalid state");
}

#[test]
fn discord_callback_redirects_home_or_to_plex() {
    match callback_redirect(&None) {
        CallbackRedirect::To(u) => assert_eq!(u, "/"),
        _ => panic!("expected the front page"),
    }
    assert!(matches!(callback_redirect(&Some("/x".into())), CallbackRedirect::PlexLogin));
}

#[test]
fn graphql_playground_endpoints() {
    let c = playground_config();
    assert_eq!(c.endpoint, "/");
    assert_eq!(c.subscription_endpoint, "/ws");
}
