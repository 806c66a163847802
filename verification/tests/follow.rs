use chrono::{DateTime, Utc};
use kick_channel_role::json::Json;
use kick_channel_role::services::follow_queue::{
    BACKFILL_RETRY_AFTER_SECS, RECHECK_AFTER_SECS, STALE_FOLLOWS, UNPROBED,
};
use kick_channel_role::services::follow_sync::{
    begin_run, decide, decide_at, take_outcome, with_link, with_report, ProbeReport, RelationRow, RowWrite, RunStep,
    STAMP_ATTEMPT, UPDATE_RELATION,
};
use kick_channel_role::services::kick_probe::{
    is_safe_segment, parse_card, read_card, read_facts, read_response, CardFacts, CardResponse, FollowProbe,
    ProbeOutcome,
};
use kick_channel_role::time::Timestamp;

fn instant(t: DateTime<Utc>) -> Timestamp {
    Timestamp { secs: t.timestamp(), nanos: t.timestamp_subsec_nanos() }
}

fn rfc3339(t: Timestamp) -> String {
    DateTime::<Utc>::from_timestamp(t.secs, t.nanos).unwrap().to_rfc3339()
}

fn row(is_follower: bool, misses: i16, missed_ago_hours: Option<i64>) -> RelationRow {
    RelationRow {
        kick_channel_id: 1,
        kick_slug: "itztmgg".into(),
        is_follower,
        is_subscriber: false,
        is_vip: false,
        is_moderator: false,
        is_og: false,
        sub_months_cumulative: 0,
        follow_probe_misses: misses,
        follow_missed_at: missed_ago_hours.map(|h| instant(Utc::now() - chrono::Duration::hours(h))),
    }
}

fn following() -> CardFacts {
    CardFacts { is_following: true, ..Default::default() }
}

fn not_following() -> CardFacts {
    CardFacts::default()
}

#[test]
fn preexisting_follower_is_granted_on_first_positive_probe() {
    let d = decide(&row(false, 0, None), &following(), 3);
    assert!(d.is_follower);
    assert!(d.changed_facts, "must trigger a role re-sync");
    assert!(!d.removes_follow);
}

#[test]
fn positive_probe_clears_accumulated_misses() {
    let d = decide(&row(true, 2, Some(24)), &following(), 3);
    assert_eq!(d.misses, 0);
    assert!(d.is_follower);
}

#[test]
fn steady_state_follower_causes_no_resync_churn() {
    let mut r = row(true, 0, None);
    r.is_follower = true;
    let d = decide(&r, &following(), 3);
    assert!(d.is_follower);
    assert!(!d.changed_facts, "no change ⇒ no pointless player_sync");
}

#[test]
fn single_negative_never_revokes() {
    let d = decide(&row(true, 0, None), &not_following(), 3);
    assert!(d.is_follower, "one bad read must not cost a role");
    assert_eq!(d.misses, 1);
    assert!(!d.removes_follow);
}

#[test]
fn revokes_only_on_the_configured_number_of_spaced_negatives() {
    let d = decide(&row(true, 2, Some(24)), &not_following(), 3);
    assert!(!d.is_follower);
    assert!(d.removes_follow);
    assert!(d.changed_facts);
    assert_eq!(d.misses, 0, "counter resets after acting");
}

#[test]
fn rapid_rechecks_cannot_inflate_the_miss_count() {
    let d = decide(&row(true, 2, Some(0)), &not_following(), 3);
    assert!(d.is_follower, "spacing gate must hold the role");
    assert_eq!(d.misses, 2, "counter must not advance");
    assert!(!d.counted_miss);
}

#[test]
fn non_follower_negatives_do_not_accumulate() {
    let d = decide(&row(false, 0, None), &not_following(), 3);
    assert_eq!(d.misses, 0);
    assert!(!d.changed_facts);
}

#[test]
fn extras_are_recovered_even_when_not_following() {
    let facts = CardFacts {
        is_following: false,
        subscribed_for_months: 4,
        is_subscriber: true,
        ..Default::default()
    };
    let d = decide(&row(false, 0, None), &facts, 3);
    assert!(d.changed_facts, "recovered sub must trigger a re-sync");
    assert!(!d.is_follower);
}

#[test]
fn a_higher_confirmation_threshold_is_honoured() {
    let d = decide(&row(true, 4, Some(24)), &not_following(), 6);
    assert!(d.is_follower, "5 of 6 — not yet");
    assert_eq!(d.misses, 5);
}

#[test]
fn all_unavailable_detects_a_dark_probe() {
    let r = ProbeReport { attempted: 2, usable: 0, ..Default::default() };
    assert!(r.all_unavailable());
    let ok = ProbeReport { attempted: 2, usable: 1, ..Default::default() };
    assert!(!ok.all_unavailable());
    assert!(!ProbeReport::default().all_unavailable());
}

#[test]
fn a_miss_counts_from_the_sixth_hour_on() {
    let mut r = row(true, 1, None);
    r.follow_missed_at = Some(Timestamp { secs: 1_000_000, nanos: 7 });
    let early = decide_at(&r, &not_following(), 3, Timestamp { secs: 1_000_000 + 21_600, nanos: 6 });
    assert!(!early.counted_miss && early.misses == 1);
    let on_time = decide_at(&r, &not_following(), 3, Timestamp { secs: 1_000_000 + 21_600, nanos: 7 });
    assert!(on_time.counted_miss && on_time.misses == 2);
}

#[test]
fn three_spaced_negatives_remove_and_a_positive_between_them_starts_over() {
    let hours = |h: i64| Timestamp { secs: 1_000_000 + 3_600 * h, nanos: 0 };
    let step = |r: &mut RelationRow, f: &CardFacts, h: i64| {
        let d = decide_at(r, f, 3, hours(h));
        r.is_follower = d.is_follower;
        r.follow_probe_misses = d.misses;
        if d.counted_miss {
            r.follow_missed_at = Some(hours(h));
        }
        d
    };
    let mut r = row(true, 0, None);
    step(&mut r, &not_following(), 0);
    step(&mut r, &not_following(), 3);
    step(&mut r, &not_following(), 6);
    assert!(r.is_follower && r.follow_probe_misses == 2);
    assert!(step(&mut r, &not_following(), 12).removes_follow);

    let mut r = row(true, 0, None);
    step(&mut r, &not_following(), 0);
    step(&mut r, &not_following(), 6);
    step(&mut r, &following(), 12);
    step(&mut r, &not_following(), 18);
    assert!(r.is_follower && r.follow_probe_misses == 1);
}

#[test]
fn the_count_of_misses_stays_at_its_largest() {
    let d = decide_at(&row(true, i16::MAX, None), &not_following(), i16::MAX, Timestamp { secs: 0, nanos: 0 });
    assert!(d.removes_follow);
}

#[test]
fn an_outcome_is_written_and_reported() {
    let now = instant(Utc::now());
    let mut report = ProbeReport::default();
    let none = ProbeOutcome::Unavailable("http 403".into());
    let w = take_outcome(&mut report, 9, &row(true, 1, None), &none, 3, now);
    assert!(matches!(w, RowWrite::Attempt { kick_channel_id: 1, kick_user_id: 9 }));
    assert_eq!((report.attempted, report.usable, report.following, report.removed), (1, 0, 0, 0));
    assert!(!report.changed && report.all_unavailable());

    let card = CardFacts {
        is_following: true,
        following_since: Some(now),
        subscribed_for_months: 5_000_000_000,
        is_vip: true,
        ..Default::default()
    };
    let w = take_outcome(&mut report, 9, &row(false, 0, None), &ProbeOutcome::Usable(card), 3, now);
    match w {
        RowWrite::Update(u) => {
            assert!(u.is_follower && u.is_vip && !u.counted_miss && !u.is_subscriber);
            assert_eq!((u.kick_channel_id, u.kick_user_id, u.misses, u.months), (1, 9, 0, i32::MAX));
            assert_eq!(u.following_since, Some(now));
        }
        RowWrite::Attempt { .. } => panic!("an answer is written"),
    }
    assert_eq!((report.attempted, report.usable, report.following, report.removed), (2, 1, 1, 0));
    assert!(report.changed);

    take_outcome(&mut report, 9, &row(true, 2, Some(24)), &ProbeOutcome::Usable(not_following()), 3, now);
    assert_eq!((report.attempted, report.usable, report.following, report.removed), (3, 2, 1, 1));
}

#[test]
fn the_statements_name_what_they_write() {
    assert!(UPDATE_RELATION.contains("followed_at = CASE WHEN $3 THEN COALESCE(followed_at, $4, now()) ELSE NULL END"));
    assert!(UPDATE_RELATION.contains("sub_months_cumulative = GREATEST(sub_months_cumulative, $8)"));
    assert!(UPDATE_RELATION.ends_with("WHERE kick_channel_id = $1 AND kick_user_id = $2"));
    assert_eq!(
        STAMP_ATTEMPT,
        "UPDATE channel_relations SET follow_probe_attempted_at = now() \
         WHERE kick_channel_id = $1 AND kick_user_id = $2"
    );
}

fn facts(body: &str) -> CardFacts {
    match parse_card(body) {
        ProbeOutcome::Usable(f) => f,
        ProbeOutcome::Unavailable(r) => panic!("expected usable, got unavailable: {r}"),
    }
}

fn unavailable_reason(body: &str) -> String {
    match parse_card(body) {
        ProbeOutcome::Unavailable(r) => r,
        ProbeOutcome::Usable(f) => panic!("expected unavailable, got {f:?}"),
    }
}

#[test]
fn existing_follower_is_recovered_with_follow_date() {
    let f = facts(
        r#"{"id":123,"username":"CarefreeZTMGG","slug":"carefreeztmgg",
            "following_since":"2025-11-02 18:04:11","subscribed_for":0,"badges":[]}"#,
    );
    assert!(f.is_following);
    assert_eq!(f.following_since.map(rfc3339), Some("2025-11-02T18:04:11+00:00".to_string()));
    assert!(!f.is_subscriber);
}

#[test]
fn null_following_since_is_a_real_negative() {
    let f = facts(r#"{"id":1,"username":"x","following_since":null,"badges":[]}"#);
    assert!(!f.is_following);
    assert!(f.following_since.is_none());
}

#[test]
fn rfc3339_timestamps_parse() {
    let f = facts(r#"{"following_since":"2026-01-15T09:30:00.123456Z"}"#);
    assert!(f.is_following);
    assert!(f.following_since.is_some());
}

#[test]
fn unparseable_timestamp_still_counts_as_following() {
    let f = facts(r#"{"following_since":"last tuesday"}"#);
    assert!(f.is_following);
    assert!(f.following_since.is_none());
}

#[test]
fn badges_and_sub_months_are_read() {
    let f = facts(
        r#"{"following_since":"2024-01-01 00:00:00","subscribed_for":7,
            "is_moderator":true,
            "badges":[{"type":"vip"},{"type":"og"},{"type":"subscriber","count":7}]}"#,
    );
    assert_eq!(f.subscribed_for_months, 7);
    assert!(f.is_subscriber && f.is_vip && f.is_og && f.is_moderator);
}

#[test]
fn data_wrapped_card_is_accepted() {
    let f = facts(r#"{"data":{"following_since":"2024-01-01 00:00:00"}}"#);
    assert!(f.is_following);
}

#[test]
fn missing_following_since_is_unavailable_not_a_negative() {
    let r = unavailable_reason(r#"{"id":1,"username":"x","badges":[]}"#);
    assert!(r.contains("following_since"), "got: {r}");
}

#[test]
fn bot_challenge_html_is_unavailable() {
    let r = unavailable_reason("<!DOCTYPE html><html>Just a moment…</html>");
    assert!(r.contains("non-JSON"), "got: {r}");
}

#[test]
fn json_error_blob_is_unavailable() {
    let r = unavailable_reason(r#"{"error":"not found"}"#);
    assert!(r.contains("following_since"), "got: {r}");
}

#[test]
fn non_object_body_is_unavailable() {
    assert!(matches!(parse_card("[]"), ProbeOutcome::Unavailable(_)));
}

#[test]
fn hostile_identifiers_are_rejected_before_the_request() {
    assert!(!is_safe_segment("../../admin"));
    assert!(!is_safe_segment("a/b"));
    assert!(!is_safe_segment(""));
    assert!(!is_safe_segment(&"x".repeat(65)));
    assert!(is_safe_segment("itztmgg"));
    assert!(is_safe_segment("TMGGchurros530"));
    assert!(is_safe_segment("Faizo_Ken"));
    assert!(is_safe_segment("faizo-ken"));
}

#[test]
fn dots_alone_name_no_channel_and_no_viewer() {
    assert!(!is_safe_segment("."));
    assert!(!is_safe_segment(".."));
    assert!(is_safe_segment("..."));
    assert!(is_safe_segment(".a"));
    assert!(is_safe_segment("a.."));
}

#[test]
fn cards_are_read_in_all_their_forms() {
    let f = facts(r#"{"following_since":" 2024-02-03T04:05:06.5 ","subscribed_for":"12","badges":[{"type":"FOUNDER"}]}"#);
    assert_eq!(f.following_since, Some(Timestamp { secs: 1_706_933_106, nanos: 500_000_000 }));
    assert_eq!(f.subscribed_for_months, 12);
    assert!(f.is_subscriber && !f.is_moderator);
    let f = facts(r#"{"following_since":"","subscribed_for":-3,"badges":[{"kind":"vip"},{"type":"Moderator"}]}"#);
    assert!(f.is_following && f.following_since.is_none());
    assert_eq!(f.subscribed_for_months, 0);
    assert!(f.is_moderator && !f.is_vip && !f.is_subscriber);
    let f = facts(r#"{"data":7,"following_since":null,"subscribed_for":"many"}"#);
    assert!(!f.is_following && f.subscribed_for_months == 0);
}

#[test]
fn a_card_says_what_its_members_say() {
    let card = Json::object().with("following_since", Json::Null).with("subscribed_for", Json::Int(2));
    let since = Timestamp { secs: 5, nanos: 0 };
    let f = read_facts(&card, Some(since));
    assert!(!f.is_following && f.is_subscriber);
    assert_eq!(f.following_since, Some(since));
    assert!(matches!(read_card(Err("bad".into())), ProbeOutcome::Unavailable(r) if r == "non-JSON body: bad"));
    assert!(matches!(read_card(Ok(Json::Int(1))), ProbeOutcome::Unavailable(r) if r == "body was not a JSON object"));
}

#[test]
fn only_a_body_is_an_answer() {
    let reason = |r: CardResponse| match read_response(r) {
        ProbeOutcome::Unavailable(s) => s,
        ProbeOutcome::Usable(_) => panic!("no answer was expected"),
    };
    assert_eq!(reason(CardResponse::Failed("timeout".into())), "request failed: timeout");
    assert_eq!(reason(CardResponse::Refused("404 Not Found".into())), "http 404 Not Found");
    assert_eq!(reason(CardResponse::Unreadable("cut".into())), "body read failed: cut");
    let body = CardResponse::Body(r#"{"following_since":null}"#.into());
    assert!(matches!(read_response(body), ProbeOutcome::Usable(f) if !f.is_following));
}

#[test]
fn the_request_goes_to_the_card_of_the_viewer_on_the_channel() {
    let probe = FollowProbe::new("https://kick.com//".into(), 0);
    assert_eq!(probe.rpm, 1);
    assert_eq!(
        probe.request("faizo-ken", "Faizo_Ken").unwrap(),
        "https://kick.com/api/v2/channels/faizo-ken/users/Faizo_Ken"
    );
    match probe.request("../x", "me") {
        Err(ProbeOutcome::Unavailable(r)) => assert_eq!(r, "slug/username not URL-safe"),
        _ => panic!("a path must not be left"),
    }
    assert_eq!(FollowProbe::new("http://stub".into(), 600).rpm, 600);
}

#[test]
fn those_longest_unseen_come_first() {
    assert_eq!(RECHECK_AFTER_SECS, 3 * 24 * 60 * 60);
    assert_eq!(BACKFILL_RETRY_AFTER_SECS, 24 * 60 * 60);
    assert!(STALE_FOLLOWS.contains("WHERE cr.is_follower AND (cr.follow_probed_at IS NULL OR"));
    assert!(STALE_FOLLOWS.ends_with("ORDER BY min(cr.follow_probed_at) NULLS FIRST LIMIT $2"));
    assert!(UNPROBED.contains("WHERE cr.follow_probed_at IS NULL AND (cr.follow_probe_attempted_at IS NULL OR"));
    assert!(UNPROBED.ends_with("ORDER BY min(cr.follow_probe_attempted_at) NULLS FIRST LIMIT $2"));
}

#[test]
fn only_an_explicit_null_takes_a_follow_away() {
    let now = instant(Utc::now());
    let last = row(true, 2, Some(24));
    let body = |s: &str| CardResponse::Body(s.to_string());
    for response in [
        CardResponse::Failed("timeout".into()),
        CardResponse::Refused("404 Not Found".into()),
        CardResponse::Unreadable("cut off".into()),
        body("<html>Just a moment</html>"),
        body(r#"{"error":"not found"}"#),
        body(r#"{"data":{"username":"x"}}"#),
        body("[]"),
    ] {
        let mut report = ProbeReport::default();
        let w = take_outcome(&mut report, 9, &last, &read_response(response), 3, now);
        assert!(matches!(w, RowWrite::Attempt { kick_channel_id: 1, kick_user_id: 9 }));
        assert!(report.all_unavailable() && !report.changed);
    }
    let mut report = ProbeReport::default();
    let null = read_response(body(r#"{"following_since":null}"#));
    let w = take_outcome(&mut report, 9, &last, &null, 3, now);
    assert!(matches!(w, RowWrite::Update(u) if !u.is_follower));
    assert_eq!((report.removed, report.changed), (1, true));
}

#[test]
fn a_run_needs_a_probe_and_a_link_and_queues_where_a_fact_changed() {
    assert_eq!((begin_run(false), begin_run(true)), (RunStep::Finish, RunStep::FindLink));
    assert_eq!((with_link(false), with_link(true)), (RunStep::Finish, RunStep::ProbeChannels));
    let card = |body: &str| read_response(CardResponse::Body(body.into()));
    let now = Timestamp { secs: 1_000_000, nanos: 0 };
    let mut report = ProbeReport::default();
    assert_eq!(with_report(&report), RunStep::Finish);
    take_outcome(&mut report, 9, &row(false, 0, None), &card(r#"{"following_since":null}"#), 3, now);
    assert_eq!(with_report(&report), RunStep::Finish);
    take_outcome(&mut report, 9, &row(false, 0, None), &card(r#"{"following_since":"2025-11-02 18:04:11"}"#), 3, now);
    assert_eq!(with_report(&report), RunStep::QueueSync);
    take_outcome(&mut report, 9, &row(false, 0, None), &card("[]"), 3, now);
    assert_eq!(with_report(&report), RunStep::QueueSync);
    assert_eq!((report.attempted, report.usable, report.following), (3, 2, 1));
}
