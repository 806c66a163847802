use base64::Engine;
use kick_channel_role::json::{parse_bytes, parse_text, Json};
use kick_channel_role::routes::delivery::{
    applied, event_type, forgotten, receive, recorded, recorded_given, with_key, Delivery, Step,
};
use kick_channel_role::routes::event_effects::{BADGES, ENSURE_RELATION, FOLLOWED, RENEWED};
use kick_channel_role::routes::webhooks::{event_kind, plan_event, plan_given, ts_of, EventKind, EventOp, Times};
use kick_channel_role::services::kick::{signed_message, SigningKey};
use kick_channel_role::time::Timestamp;
use rsa::pkcs1v15::Pkcs1v15Sign;
use rsa::traits::PublicKeyParts;
use sha2::{Digest, Sha256};

fn plan(event: &str, payload: &str) -> Vec<EventOp> {
    plan_event(event, &parse_text(payload).unwrap())
}

fn shown(ops: &[EventOp]) -> Vec<String> {
    ops.iter().map(|op| format!("{op:?}")).collect()
}

const LATER: Timestamp = Timestamp { secs: 1_767_225_600, nanos: 0 };

#[test]
fn a_follow_makes_the_row_sets_it_and_syncs() {
    let ops = plan("Channel.Followed", r#"{"broadcaster":{"user_id":7},"follower":{"user_id":9}}"#);
    assert!(matches!(ops[0], EventOp::EnsureRelation { channel: 7, user: 9 }));
    assert!(matches!(ops[1], EventOp::Followed { channel: 7, user: 9 }));
    assert!(matches!(ops[2], EventOp::SyncPlayer { user: 9 }));
    assert_eq!(ops.len(), 3);
    assert_eq!(ops[0].statement(), Some(ENSURE_RELATION));
    assert_eq!(ops[1].statement(), Some(FOLLOWED));
    assert_eq!(ops[2].statement(), None);
}

#[test]
fn an_event_without_a_channel_or_a_viewer_does_nothing() {
    assert!(plan("channel.followed", r#"{"follower":{"user_id":9}}"#).is_empty());
    assert!(plan("channel.followed", r#"{"broadcaster":{"user_id":"7"},"follower":{"user_id":9}}"#).is_empty());
    assert!(plan("channel.followed", r#"{"broadcaster":{"user_id":7}}"#).is_empty());
    assert!(plan("channel.subscription.new", r#"{"broadcaster":{"user_id":7}}"#).is_empty());
    assert!(plan("channel.subscription.renewal", r#"{"broadcaster":{"user_id":7},"subscriber":{}}"#).is_empty());
    assert!(plan("chat.message.sent", r#"{"broadcaster":{"user_id":7}}"#).is_empty());
    assert!(plan("channel.unfollowed", r#"{"broadcaster":{"user_id":7},"follower":{"user_id":9}}"#).is_empty());
}

#[test]
fn live_state_is_kept_and_moves_no_roles() {
    let on = plan(
        "livestream.status.updated",
        r#"{"broadcaster":{"user_id":7},"is_live":true,"started_at":"2026-01-01T00:00:00Z"}"#,
    );
    assert!(matches!(on.as_slice(), [EventOp::LiveStarted { channel: 7, started_at: Some(LATER) }]));
    let off = plan("livestream.status.updated", r#"{"broadcaster":{"user_id":7}}"#);
    assert!(matches!(off.as_slice(), [EventOp::LiveEnded { channel: 7 }]));
    let nested = plan(
        "livestream.metadata.updated",
        r#"{"broadcaster":{"user_id":7},"metadata":{"category":{"name":"Chess"}},"category":{"name":"Go"}}"#,
    );
    assert!(matches!(nested.as_slice(), [EventOp::CategoryChanged { channel: 7, category }] if category == "Chess"));
    let flat = plan(
        "livestream.metadata.updated",
        r#"{"broadcaster":{"user_id":7},"metadata":{},"category":{"name":"Go"}}"#,
    );
    assert!(matches!(flat.as_slice(), [EventOp::CategoryChanged { category, .. }] if category == "Go"));
    assert!(plan("livestream.metadata.updated", r#"{"broadcaster":{"user_id":7}}"#).is_empty());
    for ops in [on, off, nested, flat] {
        assert!(ops.iter().all(|op| op.syncs(true).is_none()));
    }
}

#[test]
fn subscriptions_carry_their_terms() {
    let new = plan(
        "channel.subscription.new",
        r#"{"broadcaster":{"user_id":7},"subscriber":{"user_id":9},"duration":3,
            "created_at":"2025-12-01T00:00:00Z","expires_at":"2026-01-01T00:00:00Z"}"#,
    );
    match &new[1] {
        EventOp::Subscribed { channel, user, created_at, expires_at, months } => {
            assert_eq!((*channel, *user, *months), (7, 9, Some(3)));
            assert_eq!(*created_at, Some(Timestamp { secs: 1_764_547_200, nanos: 0 }));
            assert_eq!(*expires_at, Some(LATER));
        }
        other => panic!("a subscription was expected, got {other:?}"),
    }
    let renewed = plan(
        "channel.subscription.renewal",
        r#"{"broadcaster":{"user_id":7},"subscriber":{"user_id":9},"expires_at":"not a time"}"#,
    );
    assert!(matches!(renewed[1], EventOp::Renewed { channel: 7, user: 9, months: None, expires_at: None }));
    assert_eq!(renewed[1].statement(), Some(RENEWED));
    assert_eq!(renewed.len(), 3);
}

#[test]
fn gifts_go_to_their_receivers_and_are_credited_to_their_giver() {
    let ops = plan(
        "channel.subscription.gifts",
        r#"{"broadcaster":{"user_id":7},"gifter":{"user_id":5},
            "giftees":[{"user_id":1},{"name":"anon"},{"user_id":2}],"expires_at":"2026-01-01T00:00:00Z"}"#,
    );
    assert_eq!(
        shown(&ops),
        shown(&[
            EventOp::EnsureRelation { channel: 7, user: 5 },
            EventOp::GiftsGiven { channel: 7, user: 5, count: 2 },
            EventOp::SyncPlayer { user: 5 },
            EventOp::EnsureRelation { channel: 7, user: 1 },
            EventOp::GiftReceived { channel: 7, user: 1, expires_at: Some(LATER) },
            EventOp::SyncPlayer { user: 1 },
            EventOp::EnsureRelation { channel: 7, user: 2 },
            EventOp::GiftReceived { channel: 7, user: 2, expires_at: Some(LATER) },
            EventOp::SyncPlayer { user: 2 },
        ])
    );
    let anonymous = plan(
        "channel.subscription.gifts",
        r#"{"broadcaster":{"user_id":7},"gifter":{"user_id":0},"giftees":[{"user_id":1}]}"#,
    );
    assert_eq!(anonymous.len(), 3);
    let alone = plan("channel.subscription.gifts", r#"{"broadcaster":{"user_id":7},"gifter":{"user_id":5}}"#);
    assert!(matches!(alone[1], EventOp::GiftsGiven { count: 1, .. }));
}

#[test]
fn chat_badges_are_all_that_the_sender_has() {
    let ops = plan(
        "chat.message.sent",
        r#"{"broadcaster":{"user_id":7},"sender":{"user_id":9,"identity":{"badges":[
            {"type":"vip"},{"text":"x"},{"type":"subscriber","count":4},{"type":"sub_gifter","count":12}]}}}"#,
    );
    assert_eq!(
        shown(&ops),
        shown(&[
            EventOp::EnsureRelation { channel: 7, user: 9 },
            EventOp::ChatSeen { channel: 7, user: 9 },
            EventOp::Badges { channel: 7, user: 9, is_moderator: false, is_vip: true, is_og: false },
            EventOp::SubscriberBadge { channel: 7, user: 9, months: 4 },
            EventOp::GifterBadge { channel: 7, user: 9, gifted: 12 },
            EventOp::SyncPlayerIfChanged { user: 9 },
        ])
    );
    assert_eq!(ops[2].statement(), Some(BADGES));
    let bare = plan("chat.message.sent", r#"{"broadcaster":{"user_id":7},"sender":{"user_id":9}}"#);
    assert_eq!(
        shown(&bare),
        shown(&[
            EventOp::EnsureRelation { channel: 7, user: 9 },
            EventOp::ChatSeen { channel: 7, user: 9 },
            EventOp::Badges { channel: 7, user: 9, is_moderator: false, is_vip: false, is_og: false },
            EventOp::SyncPlayerIfChanged { user: 9 },
        ])
    );
    let founder = plan(
        "chat.message.sent",
        r#"{"broadcaster":{"user_id":7},"sender":{"user_id":9,"identity":{"badges":[
            {"type":"founder","count":30},{"type":"VIP"},{"type":"moderator"},{"type":"og"}]}}}"#,
    );
    assert!(matches!(founder[2], EventOp::Badges { is_moderator: true, is_vip: false, is_og: true, .. }));
    assert!(matches!(founder[3], EventOp::SubscriberBadge { months: 1, .. }));
}

#[test]
fn roles_are_looked_at_only_where_a_badge_changed_something() {
    let ops = plan("chat.message.sent", r#"{"broadcaster":{"user_id":7},"sender":{"user_id":9}}"#);
    let run = |rows: u64| {
        let mut changed = false;
        let mut synced = vec![];
        for op in &ops {
            changed = op.badge_changed(changed, rows);
            synced.extend(op.syncs(changed));
        }
        synced
    };
    assert_eq!(run(0), Vec::<i64>::new());
    assert_eq!(run(1), vec![9]);
    assert!(!EventOp::ChatSeen { channel: 7, user: 9 }.badge_changed(false, 1));
}

#[test]
fn kicks_are_credited_where_there_are_any() {
    let nested = plan("kicks.gifted", r#"{"broadcaster":{"user_id":7},"sender":{"user_id":9},"gift":{"amount":50},"amount":1}"#);
    assert!(matches!(nested[1], EventOp::KicksGifted { channel: 7, user: 9, amount: 50 }));
    let flat = plan("kicks.gifted", r#"{"broadcaster":{"user_id":7},"gifter":{"user_id":8},"amount":5}"#);
    assert!(matches!(flat[1], EventOp::KicksGifted { channel: 7, user: 8, amount: 5 }));
    assert!(plan("kicks.gifted", r#"{"broadcaster":{"user_id":7},"sender":{"user_id":9},"amount":0}"#).is_empty());
    assert!(plan("kicks.gifted", r#"{"broadcaster":{"user_id":7},"sender":{"user_id":9}}"#).is_empty());
}

#[test]
fn events_go_by_their_names_whatever_the_case() {
    assert_eq!(event_kind("CHAT.message.SENT"), EventKind::Chat);
    assert_eq!(event_kind("livestream.status.updated"), EventKind::LiveStatus);
    assert_eq!(event_kind("channel.subscription.cancel"), EventKind::Other);
    let none = Times { started_at: None, created_at: None, expires_at: None };
    let p = parse_text(r#"{"broadcaster":{"user_id":7},"is_live":true,"started_at":"2026-01-01T00:00:00Z"}"#).unwrap();
    let ops = plan_given("livestream.status.updated", &p, none);
    assert!(matches!(ops.as_slice(), [EventOp::LiveStarted { started_at: None, .. }]));
    assert_eq!(ts_of(&p, "started_at"), Some(LATER));
    assert_eq!(ts_of(&p, "is_live"), None);
}

fn reply(s: Step) -> (u16, &'static str) {
    match s {
        Step::Reply { status, text } => (status, text),
        other => panic!("an answer was expected, got {other:?}"),
    }
}

fn delivery(id: &str, ts: &str, signature: &str, event: &str) -> Delivery {
    Delivery {
        message_id: id.into(),
        timestamp: ts.into(),
        signature: signature.into(),
        event_type: event.into(),
    }
}

#[test]
fn unsigned_deliveries_are_turned_away() {
    for d in [delivery("", "t", "s", ""), delivery("i", "", "s", ""), delivery("i", "t", "", "")] {
        assert_eq!(reply(receive(&d)), (400, "missing signature headers"));
    }
    assert!(matches!(receive(&delivery("i", "t", "s", "")), Step::FetchKey { fresh: false }));
}

#[test]
fn a_delivery_is_verified_with_the_known_key_and_once_with_a_fresh_one() {
    let mut rng = rand::thread_rng();
    let key = rsa::RsaPrivateKey::new(&mut rng, 1024).expect("keygen");
    let public = key.to_public_key();
    let right = Some(SigningKey { modulus: public.n().to_bytes_be(), exponent: public.e().to_bytes_be() });
    let wrong = Some(SigningKey { modulus: vec![15], exponent: vec![3] });
    let body = br#"{"broadcaster":{"user_id":7},"event":"channel.followed","follower":{"user_id":9}}"#;
    let ts = "2026-01-01T00:00:00Z";
    let digest = Sha256::digest(signed_message("m", ts, body));
    let sig = key.sign(Pkcs1v15Sign::new::<Sha256>(), &digest).expect("sign");
    let d = delivery("m", ts, &base64::engine::general_purpose::STANDARD.encode(sig), "");

    assert!(matches!(with_key(&d, body, &right, false, LATER), Step::Record));
    assert!(matches!(with_key(&d, body, &wrong, false, LATER), Step::FetchKey { fresh: true }));
    assert!(matches!(with_key(&d, body, &right, true, LATER), Step::Record));
    assert_eq!(reply(with_key(&d, body, &wrong, true, LATER)), (401, "bad signature"));
    assert_eq!(reply(with_key(&d, body, &None, true, LATER)), (401, "bad signature"));
    assert_eq!(reply(with_key(&d, body, &None, false, LATER)), (500, "no signing key"));
    let stale = Timestamp { secs: LATER.secs + 660, nanos: 0 };
    assert_eq!(reply(with_key(&d, body, &right, true, stale)), (401, "bad signature"));

    match recorded(&d, body, Some(1)) {
        Step::Apply(ops) => assert_eq!(ops.len(), 3),
        other => panic!("writes were expected, got {other:?}"),
    }
}

#[test]
fn a_second_copy_is_acknowledged_and_a_failure_is_sent_again() {
    let d = delivery("m", "t", "s", "channel.followed");
    assert_eq!(reply(recorded(&d, b"not json", Some(0))), (200, "duplicate ignored"));
    assert_eq!(reply(recorded(&d, b"{}", None)), (500, "db error"));
    assert_eq!(reply(recorded(&d, b"not json", Some(1))), (400, "bad json"));
    assert!(matches!(recorded_given(&d, Some(1), Ok(Json::Null)), Step::Apply(ops) if ops.is_empty()));
    assert_eq!(reply(applied(true)), (200, "ok"));
    assert!(matches!(applied(false), Step::Forget));
    assert_eq!(reply(forgotten()), (500, "apply failed"));
}

#[test]
fn the_header_names_the_event_before_the_payload_does() {
    let p = parse_bytes(br#"{"event":"a","type":"b"}"#).unwrap();
    assert_eq!(event_type("h", &p), "h");
    assert_eq!(event_type("", &p), "a");
    assert_eq!(event_type("", &parse_bytes(br#"{"event":1,"type":"b"}"#).unwrap()), "b");
    assert_eq!(event_type("", &parse_bytes(b"{}").unwrap()), "");
}
