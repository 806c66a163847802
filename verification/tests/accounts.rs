use chrono::{DateTime, Utc};
use kick_channel_role::config::{AppConfig, DbPoolConfig, Environment, KickConfig};
use kick_channel_role::error::AppError;
use kick_channel_role::json::{parse_bytes, parse_text, Json};
use kick_channel_role::routes::health::{health, ready};
use kick_channel_role::routes::oauth::{
    broadcaster_record, broadcaster_redirect_uri, build_kick_client, check_state, duplicate_link, event_types, is_og,
    live_state, missing_event_types, read_callback, require_refresh_token, state_expiry, success_page, token_expiry,
    viewer_done_page, viewer_redirect_uri, viewer_slug, CallbackQuery, Flow, OauthState, ACCOUNT_IS_LINKED_ONCE,
    UNIQUE_VIOLATION,
};
use kick_channel_role::routes::sign_in::{viewer_link, CONSUME_STATE, LINK_VIEWER};
use kick_channel_role::routes::users::{
    check_enabled, check_viewer, permission_body, set_view_permission, users_body, users_page, view_permission,
    ListedUser, ViewPermBody,
};
use kick_channel_role::routes::verify::{
    asked_guild, authorize_body, channels_body, link_start, login_url, refresh_body, start_link, status_body, success_body,
    unlinked, valid_guild_id, verify_page, ChannelsQuery, VerifyChannel, VerifyStatus,
};
use kick_channel_role::services::broadcaster_token::{
    access_token, needs_refresh, refresh_token, refreshed, require_tokens, token_step, StoredTokens, TokenStep,
};
use kick_channel_role::services::kick::{KickCategory, KickChannel, KickStream, KickUser, TokenResponse};
use kick_channel_role::services::refresh_queue::{GUILD_CHANNELS, MEMBER_CHANNELS, REFRESH_COOLDOWN_SECS};
use kick_channel_role::tasks::reconcile::{build_client, wait_before, FORGET_DELIVERIES, FORGET_STATES};
use kick_channel_role::time::{Timestamp, MAX_SECS, MIN_SECS};
use kick_channel_role::url::{derive_origin, path_only};

const NOW: Timestamp = Timestamp { secs: 1_767_225_600, nanos: 5 };

fn bad_request<T>(r: Result<T, AppError>) -> String {
    match r {
        Err(AppError::BadRequest(s)) => s,
        Err(other) => panic!("expected a refusal, got {other:?}"),
        Ok(_) => panic!("expected a refusal"),
    }
}

fn forbidden<T>(r: Result<T, AppError>) -> String {
    match r {
        Err(AppError::Forbidden(s)) => s,
        Err(other) => panic!("expected a refusal, got {other:?}"),
        Ok(_) => panic!("expected a refusal"),
    }
}

fn internal<T>(r: Result<T, AppError>) -> String {
    match r {
        Err(AppError::Internal(s)) => s,
        Err(other) => panic!("expected a failure, got {other:?}"),
        Ok(_) => panic!("expected a failure"),
    }
}

fn query(code: Option<&str>, state: Option<&str>, error: Option<&str>, description: Option<&str>) -> CallbackQuery {
    CallbackQuery {
        code: code.map(String::from),
        state: state.map(String::from),
        error: error.map(String::from),
        error_description: description.map(String::from),
    }
}

#[test]
fn a_callback_brings_code_and_state_or_a_reason() {
    let ok = read_callback(Flow::Viewer, query(Some("c"), Some("s"), None, None)).unwrap();
    assert_eq!(ok, ("c".to_string(), "s".to_string()));
    assert_eq!(
        bad_request(read_callback(Flow::Broadcaster, query(Some("c"), None, Some("denied"), Some("no")))),
        "Kick returned an error during authorization: denied (no)"
    );
    assert_eq!(
        bad_request(read_callback(Flow::Viewer, query(None, None, Some("denied"), None))),
        "Kick returned an error: denied ()"
    );
    assert_eq!(
        bad_request(read_callback(Flow::Viewer, query(None, None, None, None))),
        "Missing `code` from Kick callback."
    );
    assert_eq!(
        bad_request(read_callback(Flow::Viewer, query(Some("c"), None, None, None))),
        "Missing `state` from Kick callback."
    );
}

#[test]
fn a_state_serves_its_own_flow() {
    let row = |flow: &str, guild: Option<&str>| {
        Some(OauthState {
            code_verifier: "v".into(),
            flow: flow.into(),
            discord_id: "d".into(),
            guild_id: guild.map(String::from),
        })
    };
    assert_eq!(check_state(Flow::Viewer, row("viewer", None)).unwrap().code_verifier, "v");
    assert_eq!(check_state(Flow::Broadcaster, row("broadcaster", Some("g"))).unwrap().guild_id.as_deref(), Some("g"));
    assert_eq!(
        bad_request(check_state(Flow::Broadcaster, row("viewer", Some("g")))),
        "OAuth state was issued for a different flow."
    );
    assert_eq!(
        bad_request(check_state(Flow::Viewer, row("broadcaster", Some("g")))),
        "OAuth state was issued for a different flow."
    );
    assert_eq!(
        bad_request(check_state(Flow::Broadcaster, row("broadcaster", None))),
        "Broadcaster flow missing guild_id."
    );
    assert_eq!(
        bad_request(check_state(Flow::Broadcaster, None)),
        "OAuth state expired or unknown — start the connect flow again."
    );
    assert_eq!(
        bad_request(check_state(Flow::Viewer, None)),
        "OAuth state expired or unknown — start the link flow again."
    );
}

fn user() -> KickUser {
    KickUser { user_id: 12, name: "Faizo_Ken".into(), email: None, profile_picture: None }
}

fn tokens(expires_in: i64, refresh: Option<&str>, scope: Option<&str>) -> TokenResponse {
    TokenResponse {
        access_token: "a".into(),
        refresh_token: refresh.map(String::from),
        expires_in,
        scope: scope.map(String::from),
        token_type: None,
    }
}

fn channel(stream: Option<KickStream>, category: Option<KickCategory>) -> Option<KickChannel> {
    Some(KickChannel { broadcaster_user_id: 12, slug: "faizo-ken".into(), stream_title: None, category, stream })
}

#[test]
fn a_broadcaster_is_kept_with_what_kick_says() {
    let live = channel(
        Some(KickStream { is_live: true, viewer_count: 33, start_time: None }),
        Some(KickCategory { id: Some(1), name: Some("Chess".into()) }),
    );
    let r = broadcaster_record(&user(), &live, &tokens(3600, None, Some(" user:read\tchannel:read ")));
    assert_eq!((r.kick_channel_id, r.kick_slug.as_str(), r.display_name.as_str()), (12, "faizo-ken", "Faizo_Ken"));
    assert_eq!(r.token_scopes, vec!["user:read".to_string(), "channel:read".to_string()]);
    assert!(r.live.is_live && r.live.viewer_count == 33);
    assert_eq!(r.live.category.as_deref(), Some("Chess"));

    let r = broadcaster_record(&user(), &None, &tokens(3600, None, None));
    assert_eq!(r.kick_slug, "faizo_ken");
    assert!(r.token_scopes.is_empty());
    assert!(!r.live.is_live && r.live.viewer_count == 0 && r.live.category.is_none());
    let idle = live_state(&channel(None, Some(KickCategory { id: None, name: None })));
    assert!(!idle.is_live && idle.category.is_none());
}

#[test]
fn a_viewer_is_linked_under_one_name() {
    assert_eq!(viewer_slug("Faizo_Ken", None), "faizo-ken");
    assert_eq!(viewer_slug("Faizo_Ken", Some("other".into())), "other");
    assert!(is_og(999_999) && !is_og(1_000_000));
    match duplicate_link(Some(UNIQUE_VIOLATION), Some(ACCOUNT_IS_LINKED_ONCE), "me") {
        Some(AppError::Forbidden(s)) => assert_eq!(
            s,
            "Kick account me is already linked to a different Discord account. Unlink there first, then try again."
        ),
        other => panic!("expected a refusal, got {other:?}"),
    }
    assert!(duplicate_link(Some(UNIQUE_VIOLATION), Some("other"), "me").is_none());
    assert!(duplicate_link(None, Some(ACCOUNT_IS_LINKED_ONCE), "me").is_none());
}

#[test]
fn a_link_is_made_of_who_signed_in_and_of_the_account() {
    let row = OauthState {
        code_verifier: "v".into(),
        flow: "viewer".into(),
        discord_id: "d".into(),
        guild_id: None,
    };
    let link = viewer_link(&row, &user(), Some("Faizo".into()), NOW);
    assert_eq!((link.discord_id.as_str(), link.kick_user_id, link.kick_username.as_str()), ("d", 12, "Faizo_Ken"));
    assert_eq!((link.kick_created_at, link.is_og), (NOW, true));
    assert_eq!(link.discord_name.as_deref(), Some("Faizo"));
    assert!(viewer_link(&row, &user(), None, NOW).discord_name.is_none());
    assert!(!LINK_VIEWER.contains("token"));
    assert_eq!(
        CONSUME_STATE,
        "DELETE FROM kick_oauth_states WHERE state = $1 AND expires_at > now() \
         RETURNING code_verifier, flow, discord_id, guild_id"
    );
}

#[test]
fn rounds_begin_after_ninety_seconds_and_then_every_six_hours() {
    assert_eq!((0..4).map(wait_before).collect::<Vec<u64>>(), vec![90, 21_600, 21_600, 21_600]);
    assert_eq!(wait_before(u64::MAX), 21_600);
    assert_eq!(FORGET_STATES, "DELETE FROM kick_oauth_states WHERE expires_at < now()");
    assert_eq!(
        FORGET_DELIVERIES,
        "DELETE FROM webhook_deliveries WHERE received_at < now() - interval '24 hours'"
    );
}

#[test]
fn members_share_a_look_at_a_channel() {
    assert_eq!(REFRESH_COOLDOWN_SECS, 300);
    for statement in [MEMBER_CHANNELS, GUILD_CHANNELS] {
        assert!(statement.contains(
            "AND (b.last_synced_at IS NULL OR b.last_synced_at < now() - make_interval(secs => $2)) AND NOT EXISTS"
        ));
        assert!(statement.contains("j.kind = 'channel_refresh' AND j.status IN ('pending', 'in_progress')"));
    }
}

#[test]
fn an_address_with_a_host_is_origin_and_path_but_for_slashes_at_its_end() {
    for url in ["https://h", "https://h/", "https://h/a/b//", "http://h:8/a"] {
        assert_eq!(format!("{}{}", derive_origin(url), path_only(url)), url.trim_end_matches('/'));
    }
}

#[test]
fn tokens_last_a_minute_at_least() {
    assert_eq!(token_expiry(3600, NOW), Timestamp { secs: NOW.secs + 3600, nanos: 5 });
    assert_eq!(token_expiry(-1, NOW), Timestamp { secs: NOW.secs + 60, nanos: 5 });
    assert_eq!(state_expiry(NOW), Timestamp { secs: NOW.secs + 600, nanos: 5 });
    assert_eq!(require_refresh_token(&tokens(1, Some("r"), None)).unwrap(), "r");
    assert!(matches!(
        require_refresh_token(&tokens(1, None, None)),
        Err(AppError::KickApi(s)) if s == "Kick did not return a refresh_token — connect cannot persist."
    ));
}

#[test]
fn credentials_are_needed_to_talk_to_kick() {
    let some = |s: &str| Some(s.to_string());
    assert_eq!(build_kick_client(&some("i"), &some("s")).unwrap().client_id(), "i");
    assert_eq!(internal(build_kick_client(&None, &None)), "KICK_CLIENT_ID is not configured.");
    assert_eq!(internal(build_kick_client(&some("i"), &None)), "KICK_CLIENT_SECRET is not configured.");
    assert_eq!(broadcaster_redirect_uri("https://h/p"), "https://h/p/oauth/kick/broadcaster/callback");
    assert_eq!(viewer_redirect_uri("https://h/p"), "https://h/p/oauth/kick/viewer/callback");
    assert_eq!(event_types().len(), 7);
    assert_eq!(event_types()[0], "channel.followed");
    assert_eq!(missing_event_types(&vec![]), event_types());
    let active: Vec<String> = event_types().into_iter().skip(2).map(String::from).collect();
    assert_eq!(missing_event_types(&active), vec!["channel.followed", "channel.subscription.new"]);
}

#[test]
fn pages_are_filled_in() {
    assert_eq!(
        success_page("{{BASE_URL}}|{{KICK_USERNAME}}|{{GUILD_ID}}|{{KICK_USERNAME}}", "u", "n", "g"),
        "u|n|g|n"
    );
    assert_eq!(
        viewer_done_page("{{KICK_SLUG}} {{KICK_USER_ID}} {{BASE_URL}} {{KICK_USERNAME}}", "u", "n", "s", -7),
        "s -7 u n"
    );
    assert_eq!(verify_page("<{{BASE_URL}}>", "u"), "<u>");
    assert_eq!(users_page("{{GUILD_ID}}@{{BASE_URL}}", "u", "g"), "g@u");
    assert_eq!(verify_page("{{BASE_URL{{BASE_URL}}", "x"), "{{BASE_URLx");
}

#[test]
fn a_visitor_is_told_how_far_they_are() {
    let j = status_body(&VerifyStatus { discord_username: Some("d".into()), kick_link: Some((3, "k".into())) });
    assert_eq!((j.bool_at("signed_in_discord"), j.bool_at("linked_kick")), (Some(true), Some(true)));
    assert_eq!((j.str_at("discord_username"), j.i64_at("kick_user_id"), j.str_at("kick_username")), (Some("d"), Some(3), Some("k")));
    let j = status_body(&VerifyStatus { discord_username: None, kick_link: None });
    assert_eq!(j.bool_at("signed_in_discord"), Some(false));
    assert!(matches!(j.get("kick_user_id"), Some(Json::Null)));
}

#[test]
fn only_what_looks_like_a_guild_is_looked_up() {
    assert!(valid_guild_id("12345") && valid_guild_id(&"9".repeat(25)));
    assert!(!valid_guild_id("1234") && !valid_guild_id(&"9".repeat(26)) && !valid_guild_id("12a45"));
    assert!(!valid_guild_id("١٢٣٤٥"));
    assert_eq!(asked_guild(ChannelsQuery { guild: Some("123456".into()) }).as_deref(), Some("123456"));
    assert!(asked_guild(ChannelsQuery { guild: Some("x".into()) }).is_none());
    assert!(asked_guild(ChannelsQuery { guild: None }).is_none());
    let c = VerifyChannel {
        kick_channel_id: 1,
        kick_slug: "s".into(),
        display_name: "S".into(),
        is_live: true,
        current_category: None,
    };
    let body = channels_body(&vec![c]);
    assert_eq!(body.array_at("channels").unwrap()[0].str_at("kick_slug"), Some("s"));
    assert_eq!(channels_body(&vec![]).array_at("channels").unwrap().len(), 0);
}

#[test]
fn a_link_is_begun_and_undone() {
    let s = start_link(&Some("id".into()), "https://h/p").unwrap();
    assert_eq!(s.state.len(), 36);
    for (i, c) in s.state.chars().enumerate() {
        match i {
            8 | 13 | 18 | 23 => assert_eq!(c, '-'),
            14 => assert_eq!(c, '4'),
            19 => assert!("89ab".contains(c)),
            _ => assert!(c.is_ascii_digit() || ('a'..='f').contains(&c)),
        }
    }
    assert_eq!(s.code_verifier.len(), 96);
    assert!(s.code_verifier.chars().all(|c| c.is_ascii_alphanumeric() || c == '-' || c == '_'));
    let again = link_start("id", "https://h/p", s.state.clone(), s.code_verifier.clone());
    assert_eq!(again.authorize_url, s.authorize_url);
    assert!(s.authorize_url.contains("client_id=id&redirect_uri=https%3A%2F%2Fh%2Fp%2Foauth%2Fkick%2Fviewer%2Fcallback"));
    assert!(s.authorize_url.contains(&format!("state={}", s.state)));
    assert_ne!(s.state, start_link(&Some("id".into()), "https://h/p").unwrap().state);
    assert_eq!(internal(start_link(&None, "x")), "KICK_CLIENT_ID is not configured on this server.");
    assert_eq!(unlinked(Some(4)).unwrap(), 4);
    assert!(matches!(unlinked(None), Err(AppError::NotFound(s)) if s == "No linked Kick account to unlink."));
    assert_eq!(success_body().bool_at("success"), Some(true));
    assert_eq!(refresh_body(true, 2).bool_at("refreshed"), Some(true));
    assert_eq!(refresh_body(true, 0).bool_at("refreshed"), Some(false));
    assert_eq!(refresh_body(false, 2).bool_at("refreshed"), Some(false));
    assert_eq!(authorize_body("u").str_at("authorize_url"), Some("u"));
}

#[test]
fn sign_in_returns_to_a_path() {
    assert_eq!(
        login_url("https://gw", "https://h:8/kick-channel-role/"),
        "https://gw/auth/login?return_to=%2Fkick-channel-role%2Fverify"
    );
    assert_eq!(login_url("https://gw", "https://h"), "https://gw/auth/login?return_to=%2Fverify");
    assert_eq!(path_only("https://h/a/b//"), "/a/b");
    assert_eq!(path_only("no scheme/path"), "");
    assert_eq!(derive_origin("https://h:8/a/b"), "https://h:8");
    assert_eq!(derive_origin("https://h"), "https://h");
    assert_eq!(derive_origin("h/a"), "h/a");
}

fn listed() -> ListedUser {
    ListedUser {
        discord_id: "1".into(),
        discord_name: Some("n".into()),
        username: "u".into(),
        kick_user_id: 2,
        is_follower: true,
        is_subscriber: false,
        is_vip: false,
        is_moderator: true,
        sub_months: 1,
        sub_streak: 2,
        gifted: 3,
        followed_at: None,
        last_seen_at: Some(Timestamp { secs: 0, nanos: 0 }),
        linked_at: Timestamp { secs: 60, nanos: 0 },
    }
}

#[test]
fn a_list_is_seen_by_those_it_is_for() {
    assert_eq!(view_permission(None), "managers");
    assert_eq!(view_permission(Some("members".into())), "members");
    assert!(check_enabled("members").is_ok());
    assert_eq!(forbidden(check_enabled("disabled")), "The user list is disabled for this server.");
    assert_eq!(forbidden(check_viewer("disabled", true, true)), "The user list is disabled for this server.");
    assert_eq!(forbidden(check_viewer("members", false, true)), "You're not a member of this server.");
    assert_eq!(forbidden(check_viewer("managers", true, false)), "This list is visible to server managers only.");
    assert!(check_viewer("managers", true, true).is_ok());
    assert!(check_viewer("members", true, false).is_ok());
    let body = users_body("g", &None, &vec![listed()]);
    assert_eq!(body.i64_at("count"), Some(1));
    let u = &body.array_at("users").unwrap()[0];
    assert_eq!((u.str_at("username"), u.i64_at("gifted")), (Some("u"), Some(3)));
    assert_eq!(u.str_at("linked_at"), Some("1970-01-01T00:01:00+00:00"));
    let set = |p: &str| set_view_permission(ViewPermBody { view_permission: p.into() });
    assert_eq!(set("disabled").unwrap(), "disabled");
    assert_eq!(
        bad_request(set("everyone")),
        "Unknown view_permission 'everyone' (expected disabled|managers|members)."
    );
    assert_eq!(permission_body("members").str_at("view_permission"), Some("members"));
}

#[test]
fn health_and_readiness() {
    let (code, body) = health(true, Timestamp { secs: 0, nanos: 0 }, 12);
    assert_eq!((code, body.str_at("status")), (200, Some("healthy")));
    assert_eq!(body.str_at("timestamp"), Some("1970-01-01T00:00:00+00:00"));
    let db = body.get("checks").unwrap().get("database").unwrap();
    assert_eq!((db.str_at("status"), db.i64_at("latency_ms")), (Some("up"), Some(12)));
    let (code, body) = health(false, Timestamp { secs: 0, nanos: 0 }, 0);
    assert_eq!((code, body.str_at("status")), (503, Some("unhealthy")));
    assert_eq!(body.get("checks").unwrap().get("database").unwrap().str_at("status"), Some("down"));
    assert_eq!(ready(false).0, 200);
    assert_eq!((ready(true).0, ready(true).1.str_at("status").map(String::from)), (503, Some("draining".to_string())));
}

#[test]
fn tokens_are_refreshed_five_minutes_before_their_end() {
    let at = |secs: i64, nanos: u32| Timestamp { secs, nanos };
    let now = at(1_000_000, 5);
    assert!(needs_refresh(at(1_000_300, 5), now));
    assert!(!needs_refresh(at(1_000_300, 6), now));
    assert!(needs_refresh(at(999_000, 0), now));
    let r = refreshed(tokens(10, None, None), "old".into(), now);
    assert_eq!((r.access_token.as_str(), r.refresh_token.as_str(), r.expires_at), ("a", "old", at(1_000_060, 5)));
    let r = refreshed(tokens(7200, Some("new"), None), "old".into(), now);
    assert_eq!((r.refresh_token.as_str(), r.expires_at), ("new", at(1_007_200, 5)));
    assert!(!needs_refresh(r.expires_at, now));
}

#[test]
fn kept_tokens_must_be_there_and_be_text() {
    let kept = StoredTokens { access_token_enc: vec![1], refresh_token_enc: vec![2], token_expires_at: NOW };
    assert_eq!(require_tokens(Some(kept), 3).unwrap().access_token_enc, vec![1]);
    assert!(matches!(require_tokens(None, -3), Err(AppError::NotFound(s)) if s == "broadcaster -3 not found"));
    let kept = |secs: i64| {
        let end = Timestamp { secs: NOW.secs + secs, nanos: NOW.nanos };
        Some(StoredTokens { access_token_enc: vec![1], refresh_token_enc: vec![2], token_expires_at: end })
    };
    assert!(matches!(token_step(kept(301), 3, NOW), Ok(TokenStep::Use { access_token_enc }) if access_token_enc == [1]));
    assert!(matches!(
        token_step(kept(300), 3, NOW),
        Ok(TokenStep::Refresh { refresh_token_enc }) if refresh_token_enc == [2]
    ));
    assert!(matches!(token_step(None, 3, NOW), Err(AppError::NotFound(s)) if s == "broadcaster 3 not found"));
    assert_eq!(access_token(Ok("é".as_bytes().to_vec())).unwrap(), "é");
    assert_eq!(internal(access_token(Ok(vec![0xFF]))), "access token not UTF-8");
    assert_eq!(internal(access_token(Err("tag".into()))), "decrypt access token: tag");
    assert_eq!(internal(refresh_token(Ok(vec![0xC3]))), "refresh token not UTF-8");
    assert_eq!(internal(refresh_token(Err("tag".into()))), "decrypt refresh token: tag");
}

fn environment() -> Environment {
    Environment {
        database_url: "db".into(),
        session_secret: "s".into(),
        base_url: "https://h/kick".into(),
        internal_api_key: "k".into(),
        listen_addr: None,
        auth_gateway_url: None,
        rl_dashboard_origin: None,
        rolelogic_api_url: None,
        worker_concurrency: None,
        db_max_connections: None,
        db_min_connections: None,
        db_acquire_timeout_secs: None,
        db_idle_timeout_secs: None,
        kick_client_id: None,
        kick_client_secret: None,
        kick_follow_probe_enabled: None,
        kick_probe_base_url: None,
        kick_probe_rpm: None,
        kick_unfollow_confirmations: None,
    }
}

#[test]
fn settings_have_their_usual_values() {
    let c = AppConfig::from_env(environment());
    assert_eq!((c.database_url.as_str(), c.session_secret.as_str(), c.internal_api_key.as_str()), ("db", "s", "k"));
    assert_eq!((c.listen_addr.as_str(), c.auth_gateway_url.as_str()), ("0.0.0.0:8094", "https://h"));
    assert_eq!(c.rl_dashboard_origin.as_deref(), Some("https://rolelogic.faizo.net"));
    assert_eq!(c.rolelogic_api_url, "https://api-rolelogic.faizo.net");
    assert_eq!(c.worker_concurrency, 4);
    assert_eq!((c.db_pool.max_connections, c.db_pool.min_connections), (16, 2));
    assert_eq!((c.db_pool.acquire_timeout_secs, c.db_pool.idle_timeout_secs), (5, 600));
    assert!(c.kick.client_id.is_none() && c.kick.follow_probe_enabled);
    assert_eq!(c.kick.follow_probe_base_url, "https://kick.com");
    assert_eq!((c.kick.follow_probe_rpm, c.kick.unfollow_confirmations), (20, 3));
    assert!(build_client(&c.kick).is_none());
}

#[test]
fn settings_are_read_from_the_environment() {
    let mut e = environment();
    e.auth_gateway_url = Some("http://localhost:8090/".into());
    e.rl_dashboard_origin = Some("  / ".into());
    e.rolelogic_api_url = Some(" https://api/ ".into());
    e.worker_concurrency = Some("+8".into());
    e.listen_addr = Some("[::]:1".into());
    e.kick_client_id = Some(" id ".into());
    e.kick_client_secret = Some("secret".into());
    let c = AppConfig::from_env(e);
    assert_eq!(c.auth_gateway_url, "http://localhost:8090");
    assert_eq!(c.rl_dashboard_origin.as_deref(), Some("https://rolelogic.faizo.net"));
    assert_eq!(c.rolelogic_api_url, "https://api");
    assert_eq!((c.worker_concurrency, c.listen_addr.as_str()), (8, "[::]:1"));
    assert_eq!(build_client(&c.kick).unwrap().client_id(), "id");

    let mut e = environment();
    e.db_max_connections = Some("4294967296".into());
    e.db_min_connections = Some("-1".into());
    e.db_acquire_timeout_secs = Some("18446744073709551615".into());
    e.db_idle_timeout_secs = Some(" 7".into());
    let p = DbPoolConfig::from_env(&e);
    assert_eq!((p.max_connections, p.min_connections), (16, 2));
    assert_eq!((p.acquire_timeout_secs, p.idle_timeout_secs), (u64::MAX, 600));
}

#[test]
fn probes_can_be_switched_off_and_held_back() {
    for (value, on) in [("0", false), (" FALSE ", false), ("no", false), ("off", true), ("1", true), ("", true)] {
        let mut e = environment();
        e.kick_follow_probe_enabled = Some(value.into());
        assert_eq!(KickConfig::from_env(&e).follow_probe_enabled, on, "{value}");
    }
    for (value, n) in [("0", 1), ("-4", 1), ("7", 7), ("32767", 32767), ("32768", 3), ("x", 3)] {
        let mut e = environment();
        e.kick_unfollow_confirmations = Some(value.into());
        assert_eq!(KickConfig::from_env(&e).unfollow_confirmations, n, "{value}");
    }
    for (value, n) in [("0", 20), ("60", 60), ("many", 20)] {
        let mut e = environment();
        e.kick_probe_rpm = Some(value.into());
        assert_eq!(KickConfig::from_env(&e).follow_probe_rpm, n, "{value}");
    }
}

#[test]
fn the_calendar_ends_where_the_clock_s_does() {
    assert_eq!(DateTime::<Utc>::MIN_UTC.timestamp(), MIN_SECS);
    assert_eq!(DateTime::<Utc>::MAX_UTC.timestamp(), MAX_SECS);
}

#[test]
fn json_is_read_as_it_is_written() {
    let v = parse_text(r#"{"a":[1,-2,2.5,18446744073709551615,true,null,"é"],"a":3,"b":{"c":"d"}}"#).unwrap();
    assert_eq!(v.i64_at("a"), Some(3));
    assert_eq!(v.get("b").unwrap().str_at("c"), Some("d"));
    let list = parse_bytes(br#"[1,-2,2.5,18446744073709551615,true,null]"#).unwrap();
    let items = list.as_array().unwrap();
    assert_eq!((items[0].as_i64(), items[1].as_i64()), (Some(1), Some(-2)));
    assert!(matches!((&items[2], &items[3]), (Json::Number, Json::Number)));
    assert_eq!(items[4].as_bool(), Some(true));
    assert!(matches!(items[5], Json::Null));
    assert!(parse_text("{").is_err());
    assert!(parse_bytes(&[0xFF]).is_err());
}
