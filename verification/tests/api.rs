use chrono::{DateTime, Utc};
use kick_channel_role::error::AppError;
use kick_channel_role::json::Json;
use kick_channel_role::routes::api_docs::{openapi, page as docs_page};
use kick_channel_role::routes::api_keys::{
    check_label, check_quota, created_body, list_body as keys_body, revoked, CreateBody, KeyRow,
};
use kick_channel_role::routes::api_v1::{
    clamp_limit, index_body, list_body, paginate, parse_relation, parse_updated_since, read_query, single_body,
    single_filter, updated_since_given, users_sql, whoami_body, ListQuery, UserRow, DEFAULT_LIMIT, MAX_LIMIT,
};
use kick_channel_role::services::api_key::{
    authenticate, extract_bearer, grant, hash_token, limited, mint, mint_from, new_rate_limiter, present,
    ApiKeyContext, KeyLookup, MISSING, PREFIX_DISPLAY_LEN, RATE_BURST, REJECTED, SCOPE_USERS_READ, TOKEN_PREFIX,
};
use kick_channel_role::time::Timestamp;

fn rfc3339(t: Timestamp) -> String {
    DateTime::<Utc>::from_timestamp(t.secs, t.nanos).unwrap().to_rfc3339()
}

#[test]
fn relation_filter_rejects_anything_off_the_allowlist() {
    assert_eq!(parse_relation(None).unwrap(), None);
    assert_eq!(parse_relation(Some("subscriber")).unwrap(), Some("is_subscriber"));
    assert_eq!(parse_relation(Some("og")).unwrap(), Some("is_og"));
    for bad in ["is_subscriber", "1=1", "true) OR (1=1", "", "SUBSCRIBER"] {
        assert!(parse_relation(Some(bad)).is_err(), "`{bad}` must not be accepted");
    }
}

#[test]
fn updated_since_requires_rfc3339() {
    assert!(parse_updated_since(None).unwrap().is_none());
    assert!(parse_updated_since(Some("2026-07-27T00:00:00Z")).unwrap().is_some());
    let off = parse_updated_since(Some("2026-07-27T02:00:00+02:00")).unwrap().unwrap();
    assert_eq!(rfc3339(off), "2026-07-27T00:00:00+00:00");
    for bad in ["yesterday", "2026-07-27", "1753574400", ""] {
        assert!(parse_updated_since(Some(bad)).is_err(), "`{bad}` must fail");
    }
}

#[test]
fn limit_is_clamped_both_ways() {
    let clamp = |n: Option<i64>| clamp_limit(n);
    assert_eq!(clamp(None), DEFAULT_LIMIT);
    assert_eq!(clamp(Some(0)), 1);
    assert_eq!(clamp(Some(-5)), 1, "negative must not reach LIMIT");
    assert_eq!(clamp(Some(10_000)), MAX_LIMIT);
    assert_eq!(clamp(Some(250)), 250);
}

#[test]
fn minted_tokens_are_prefixed_unique_and_hashed() {
    let a = mint();
    let b = mint();
    assert!(a.raw.starts_with(TOKEN_PREFIX));
    assert_ne!(a.raw, b.raw, "two mints must not collide");
    assert_eq!(a.hash, hash_token(&a.raw));
    assert_ne!(a.hash, b.hash);
    assert_eq!(a.raw.len(), TOKEN_PREFIX.len() + 43);
    assert_eq!(a.hash.len(), 32, "SHA-256 digest");
}

#[test]
fn display_prefix_reveals_nothing_usable() {
    let m = mint();
    assert_eq!(m.prefix.len(), PREFIX_DISPLAY_LEN);
    assert!(m.raw.starts_with(&m.prefix));
    assert!(m.raw.len() > m.prefix.len() * 3, "most of the secret is withheld");
}

#[test]
fn bearer_extraction_is_strict() {
    assert_eq!(extract_bearer(None), None);
    assert_eq!(extract_bearer(Some("kck_nobearer")), None, "scheme is required");
    assert_eq!(extract_bearer(Some("Bearer   ")), None, "empty token rejected");
    assert_eq!(extract_bearer(Some("Bearer kck_abc ")).as_deref(), Some("kck_abc"));
}

#[test]
fn rate_limiter_is_per_key_and_bounded_by_burst() {
    let rl = new_rate_limiter();
    for cell in 0..RATE_BURST {
        assert!(rl.check_key(&1).is_ok(), "burst cell {cell} should pass");
    }
    assert!(rl.check_key(&1).is_err(), "burst must be bounded");
    assert!(rl.check_key(&2).is_ok(), "keys must not share a bucket");
}

#[test]
fn scope_check_is_exact() {
    let ctx = ApiKeyContext {
        key_id: 1,
        guild_id: "g".into(),
        label: "l".into(),
        scopes: vec![SCOPE_USERS_READ.to_string()],
    };
    assert!(ctx.has_scope(SCOPE_USERS_READ));
    assert!(!ctx.has_scope("users:write"));
    assert!(!ctx.has_scope("users"));
}

fn key(revoked_at: Option<Timestamp>, scopes: &[&str]) -> KeyLookup {
    KeyLookup {
        id: 5,
        guild_id: "g".into(),
        label: "l".into(),
        scopes: scopes.iter().map(|s| s.to_string()).collect(),
        revoked_at,
    }
}

fn unauthorized<T: std::fmt::Debug>(r: Result<T, AppError>) -> String {
    match r {
        Err(AppError::UnauthorizedWith(s)) => s,
        other => panic!("expected a refusal, got {other:?}"),
    }
}

#[test]
fn a_key_is_made_of_its_bytes() {
    let m = mint_from(&vec![0; 32]);
    assert_eq!(m.raw, format!("kck_{}", "A".repeat(43)));
    assert_eq!(m.prefix, "kck_AAAAAAAA");
    assert_eq!(m.hash, hash_token(&m.raw));
    assert_eq!(mint_from(&vec![]).prefix, "kck_");
    assert_ne!(mint_from(&vec![1]).raw, mint_from(&vec![2]).raw);
}

#[test]
fn the_digest_of_a_key_is_sha256() {
    let hex: String = hash_token("abc").iter().map(|b| format!("{b:02x}")).collect();
    assert_eq!(hex, "ba7816bf8f01cfea414140de5dae2223b00361a396177a9cb410ff61f20015ad");
}

#[test]
fn what_is_no_key_is_never_looked_up() {
    assert_eq!(unauthorized(present(None)), MISSING);
    assert_eq!(unauthorized(present(Some("Basic kck_x"))), MISSING);
    assert_eq!(unauthorized(present(Some("Bearer ifs:token"))), REJECTED);
    assert_eq!(present(Some("Bearer kck_x")).unwrap(), hash_token("kck_x"));
}

#[test]
fn unknown_and_revoked_keys_are_refused_alike() {
    let limiter = new_rate_limiter();
    let gone = Some(Timestamp { secs: 1, nanos: 0 });
    let unknown = unauthorized(authenticate(&limiter, None, SCOPE_USERS_READ));
    let revoked = unauthorized(authenticate(&limiter, Some(key(gone, &["users:read"])), SCOPE_USERS_READ));
    let misshaped = unauthorized(present(Some("Bearer x")));
    assert_eq!(unknown, REJECTED);
    assert_eq!(unknown, revoked);
    assert_eq!(unknown, misshaped);
}

#[test]
fn a_live_key_is_let_through_with_its_scope() {
    let limiter = new_rate_limiter();
    let ctx = authenticate(&limiter, Some(key(None, &["users:read"])), SCOPE_USERS_READ).unwrap();
    assert_eq!((ctx.key_id, ctx.guild_id.as_str(), ctx.label.as_str()), (5, "g", "l"));
    match authenticate(&limiter, Some(key(None, &["users"])), SCOPE_USERS_READ) {
        Err(AppError::Forbidden(s)) => assert_eq!(s, "This API key does not carry the `users:read` scope."),
        other => panic!("expected a refusal, got {other:?}"),
    }
    for _ in 0..RATE_BURST {
        let _ = limiter.check_key(&5);
    }
    assert!(matches!(
        authenticate(&limiter, Some(key(None, &["users:read"])), SCOPE_USERS_READ),
        Err(AppError::RateLimited { retry_after }) if retry_after >= 1
    ));
}

#[test]
fn a_request_is_held_against_its_own_keys_quota() {
    let limiter = new_rate_limiter();
    for _ in 0..2 * RATE_BURST {
        let _ = limiter.check_key(&0);
        let _ = limiter.check_key(&6);
    }
    assert!(authenticate(&limiter, Some(key(None, &["users:read"])), SCOPE_USERS_READ).is_ok());
    let mut other = key(None, &["users:read"]);
    other.id = 6;
    assert!(matches!(
        authenticate(&limiter, Some(other), SCOPE_USERS_READ),
        Err(AppError::RateLimited { retry_after }) if retry_after >= 1
    ));
}

#[test]
fn a_caller_waits_a_second_at_least() {
    assert!(limited(Ok(())).is_ok());
    assert!(matches!(limited(Err(0)), Err(AppError::RateLimited { retry_after: 1 })));
    assert!(matches!(limited(Err(9)), Err(AppError::RateLimited { retry_after: 9 })));
    assert!(matches!(
        grant(key(None, &["users"]), Err(3), "users:read"),
        Err(AppError::RateLimited { retry_after: 3 })
    ));
}

fn row(id: &str) -> UserRow {
    UserRow {
        discord_id: id.into(),
        discord_name: None,
        kick_username: format!("user{id}"),
        kick_user_id: 77,
        is_follower: true,
        is_subscriber: false,
        is_vip: false,
        is_og: true,
        is_moderator: false,
        sub_months_cumulative: 4,
        sub_streak_months: -1,
        gifted_subs_given: 2,
        followed_at: Some(Timestamp { secs: 0, nanos: 0 }),
        last_seen_at: None,
        linked_at: Timestamp { secs: 1_753_574_400, nanos: 0 },
        updated_at: Timestamp { secs: 1_753_574_400, nanos: 500_000_000 },
    }
}

#[test]
fn following_the_cursor_shows_everyone_once() {
    let all: Vec<String> = (10..31).map(|n| n.to_string()).collect();
    for limit in [1i64, 2, 5, 20, 21, 500] {
        let mut seen: Vec<String> = vec![];
        let mut cursor: Option<String> = None;
        loop {
            let rows: Vec<UserRow> = all
                .iter()
                .filter(|id| cursor.as_ref().map(|c| *id > c).unwrap_or(true))
                .take(limit as usize + 1)
                .map(|id| row(id))
                .collect();
            let page = paginate(rows, limit);
            seen.extend(page.rows.iter().map(|r| r.discord_id.clone()));
            if !page.has_more {
                assert!(page.next_cursor.is_none());
                break;
            }
            assert_eq!(page.next_cursor, page.rows.last().map(|r| r.discord_id.clone()));
            cursor = page.next_cursor;
        }
        assert_eq!(seen, all);
    }
}

#[test]
fn a_user_is_told_of_as_the_description_says() {
    let j = row("1").to_json();
    assert_eq!(j.str_at("discord_id"), Some("1"));
    assert!(matches!(j.get("discord_name"), Some(Json::Null)));
    assert_eq!(j.i64_at("kick_user_id"), Some(77));
    assert_eq!(j.str_at("linked_at"), Some("2025-07-27T00:00:00+00:00"));
    assert_eq!(j.str_at("updated_at"), Some("2025-07-27T00:00:00.500+00:00"));
    let relation = j.get("relation").unwrap();
    assert_eq!(relation.bool_at("is_og"), Some(true));
    assert_eq!(relation.i64_at("sub_streak_months"), Some(-1));
    assert_eq!(relation.str_at("followed_at"), Some("1970-01-01T00:00:00+00:00"));
    assert!(matches!(relation.get("last_seen_at"), Some(Json::Null)));

    let doc = openapi("https://h/p");
    let schemas = doc.get("components").unwrap().get("schemas").unwrap();
    let names = |v: &Json| match v {
        Json::Object(m) => m.iter().map(|(k, _)| k.clone()).collect::<Vec<_>>(),
        _ => panic!("an object was expected"),
    };
    assert_eq!(names(schemas.get("User").unwrap().get("properties").unwrap()), names(&j));
    assert_eq!(names(schemas.get("Relation").unwrap().get("properties").unwrap()), names(relation));
}

#[test]
fn the_description_is_of_this_api() {
    let doc = openapi("https://h/p");
    assert_eq!(doc.str_at("openapi"), Some("3.1.0"));
    assert_eq!(doc.array_at("servers").unwrap()[0].str_at("url"), Some("https://h/p/api/v1"));
    assert!(doc.get("info").unwrap().str_at("description").unwrap().ends_with("Full guide: https://h/p/api/v1/docs"));
    let users = doc.get("paths").unwrap().get("/users").unwrap().get("get").unwrap();
    let parameters = users.array_at("parameters").unwrap();
    assert_eq!(parameters[0].get("schema").unwrap().i64_at("maximum"), Some(MAX_LIMIT));
    assert_eq!(parameters[0].get("schema").unwrap().i64_at("default"), Some(DEFAULT_LIMIT));
    let relations = parameters[3].get("schema").unwrap().array_at("enum").unwrap();
    for r in relations {
        assert!(parse_relation(r.as_str()).is_ok());
    }
    let limited = doc.get("components").unwrap().get("responses").unwrap().get("RateLimited").unwrap();
    assert_eq!(
        limited.str_at("description"),
        Some("Over the quota (120 requests/minute per key, burst 30).")
    );
    assert_eq!(docs_page("<a href='{{BASE_URL}}/x'>{{BASE_URL}}</a>", "u"), "<a href='u/x'>u</a>");
}

#[test]
fn the_discovery_document_names_the_endpoints() {
    let doc = index_body("https://h/p");
    assert_eq!(doc.str_at("service"), Some("kick-channel-role"));
    let endpoints = doc.array_at("endpoints").unwrap();
    assert_eq!(endpoints.len(), 3);
    assert_eq!(endpoints[0].str_at("path"), Some("https://h/p/api/v1/whoami"));
    assert_eq!(endpoints[1].get("query").unwrap().str_at("limit"), Some("1–500, default 100"));
    assert_eq!(endpoints[2].str_at("path"), Some("https://h/p/api/v1/users/{discord_id}"));
    assert_eq!(doc.get("limits").unwrap().i64_at("requests_per_minute"), Some(120));
}

#[test]
fn queries_are_read_before_anything_is_fetched() {
    let q = |limit, since: Option<&str>, relation: Option<&str>| ListQuery {
        limit,
        cursor: Some("9".into()),
        updated_since: since.map(String::from),
        relation: relation.map(String::from),
    };
    let f = read_query(q(Some(7), Some("1970-01-01T00:00:01Z"), Some("vip"))).unwrap();
    assert_eq!(f.limit, 8);
    assert_eq!(f.after.as_deref(), Some("9"));
    assert_eq!(f.updated_since, Some(Timestamp { secs: 1, nanos: 0 }));
    assert_eq!(f.relation, Some("is_vip"));
    match read_query(q(None, Some("soon"), Some("nobody"))) {
        Err(AppError::BadRequest(s)) => assert_eq!(
            s,
            "`updated_since` must be an RFC 3339 timestamp (e.g. 2026-07-27T00:00:00Z); got `soon`."
        ),
        other => panic!("expected a refusal, got {other:?}"),
    }
    match read_query(q(None, None, Some("nobody"))) {
        Err(AppError::BadRequest(s)) => assert_eq!(
            s,
            "Unknown `relation` filter `nobody` (expected follower, subscriber, vip, og, or moderator)."
        ),
        other => panic!("expected a refusal, got {other:?}"),
    }
    let t = Timestamp { secs: 3, nanos: 0 };
    assert_eq!(updated_since_given(Some("x"), Some(t)).unwrap(), Some(t));
    assert!(updated_since_given(Some("x"), None).is_err());
    assert_eq!(single_filter("42").only_discord_id.as_deref(), Some("42"));
}

#[test]
fn the_statement_filters_by_a_column_of_its_own() {
    let plain = users_sql(None);
    let vip = users_sql(Some("is_vip"));
    assert!(plain.ends_with(
        "HAVING ($4::timestamptz IS NULL OR GREATEST(ku.refreshed_at, COALESCE(max(cr.last_synced_at), \
         ku.refreshed_at)) >= $4) ORDER BY ku.discord_id ASC LIMIT $5"
    ));
    assert!(vip.contains(">= $4) AND COALESCE(bool_or(cr.is_vip), false) ORDER BY"));
}

#[test]
fn answers_name_the_guild() {
    let page = paginate(vec![row("1"), row("2")], 1);
    let body = list_body("g", &Some("Guild".into()), &page, 1);
    assert_eq!(body.get("guild").unwrap().str_at("name"), Some("Guild"));
    assert_eq!(body.array_at("users").unwrap().len(), 1);
    let info = body.get("page").unwrap();
    assert_eq!((info.i64_at("limit"), info.i64_at("count")), (Some(1), Some(1)));
    assert_eq!((info.bool_at("has_more"), info.str_at("next_cursor")), (Some(true), Some("1")));

    assert!(single_body("g", &None, &vec![row("3")]).unwrap().get("user").is_some());
    match single_body("g", &None, &vec![]) {
        Err(AppError::NotFound(s)) => assert_eq!(s, "No linked user with that Discord ID in this server."),
        other => panic!("expected nobody, got {other:?}"),
    }
    let ctx = ApiKeyContext { key_id: 1, guild_id: "g".into(), label: "l".into(), scopes: vec!["users:read".into()] };
    let who = whoami_body(&ctx, &None);
    assert!(matches!(who.get("guild").unwrap().get("name"), Some(Json::Null)));
    assert_eq!(who.get("key").unwrap().array_at("scopes").unwrap()[0].as_str(), Some("users:read"));
}

#[test]
fn keys_have_labels_and_a_quota() {
    let label = |s: &str| check_label(&CreateBody { label: s.into() });
    assert_eq!(label("  bot \n").unwrap(), "bot");
    assert_eq!(label(&"é".repeat(60)).unwrap().chars().count(), 60);
    match label("   ") {
        Err(AppError::BadRequest(s)) => assert_eq!(s, "Give the key a label so you can tell your integrations apart."),
        other => panic!("expected a refusal, got {other:?}"),
    }
    match label(&"é".repeat(61)) {
        Err(AppError::BadRequest(s)) => assert_eq!(s, "Label is too long (max 60 characters)."),
        other => panic!("expected a refusal, got {other:?}"),
    }
    assert!(check_quota(9).is_ok());
    match check_quota(10) {
        Err(AppError::BadRequest(s)) => assert_eq!(
            s,
            "This server already has 10 active API keys. Revoke one before creating another."
        ),
        other => panic!("expected a refusal, got {other:?}"),
    }
    assert!(revoked(1).is_ok());
    assert!(matches!(revoked(0), Err(AppError::NotFound(s)) if s == "No such active API key for this server."));
}

#[test]
fn a_manager_sees_keys_without_their_secrets() {
    let k = KeyRow {
        id: 3,
        label: "bot".into(),
        prefix: "kck_AAAAAAAA".into(),
        scopes: vec!["users:read".into()],
        created_by: "me".into(),
        created_at: Timestamp { secs: 0, nanos: 0 },
        last_used_at: None,
    };
    let body = keys_body(&vec![k], "https://h/p");
    assert_eq!(body.i64_at("max_keys"), Some(10));
    assert_eq!(body.str_at("docs_url"), Some("https://h/p/api/v1"));
    let listed = &body.array_at("keys").unwrap()[0];
    assert_eq!(listed.str_at("prefix"), Some("kck_AAAAAAAA"));
    assert!(listed.get("token").is_none());
    let m = mint_from(&vec![7; 32]);
    let made = created_body(4, "bot", &m);
    assert_eq!(made.str_at("token"), Some(m.raw.as_str()));
    assert_eq!(made.i64_at("id"), Some(4));
}
