use chrono::{DateTime, Duration, Utc};
use kick_channel_role::json::Json;
use kick_channel_role::models::condition::{
    Condition, ConditionOperator, ConditionOperator as Op, ConditionTarget as T, TargetKind,
};
use kick_channel_role::models::facts::Facts;
use kick_channel_role::models::rule::{ConditionGroup, RuleTree};
use kick_channel_role::services::condition_eval::{
    evaluate, evaluate_at, list_contains, string_match, string_match_given,
};
use kick_channel_role::services::rule_sql::{build_rule_where, escape_like, Bind};
use kick_channel_role::time::Timestamp;

fn instant(t: DateTime<Utc>) -> Timestamp {
    Timestamp { secs: t.timestamp(), nanos: t.timestamp_subsec_nanos() }
}

fn text(s: &str) -> Json {
    Json::Str(s.to_string())
}

fn texts(list: &[&str]) -> Json {
    Json::Array(list.iter().map(|s| text(s)).collect())
}

fn c(target: T, op: ConditionOperator, value: Json) -> Condition {
    Condition { target, operator: op, value, value_end: None }
}

fn cond(target: T, op: ConditionOperator, value: Json) -> Condition {
    c(target, op, value)
}

fn one_group(conds: Vec<Condition>) -> RuleTree {
    RuleTree { grant_on_any_relation: false, groups: vec![ConditionGroup { conditions: conds }] }
}

fn or_groups(g: Vec<Vec<Condition>>) -> RuleTree {
    RuleTree {
        grant_on_any_relation: false,
        groups: g.into_iter().map(|cs| ConditionGroup { conditions: cs }).collect(),
    }
}

fn facts() -> Facts {
    Facts::default()
}

#[test]
fn convention_42_no_groups_no_grant_means_nobody() {
    let t = RuleTree::default();
    assert!(!evaluate(&t, &facts()));
}

#[test]
fn grant_on_any_short_circuits_true() {
    let t = RuleTree { grant_on_any_relation: true, groups: vec![] };
    assert!(evaluate(&t, &facts()));
}

#[test]
fn empty_group_is_false_defensive() {
    let t = RuleTree { grant_on_any_relation: false, groups: vec![ConditionGroup { conditions: vec![] }] };
    assert!(!evaluate(&t, &facts()));
}

#[test]
fn and_all_conditions_required() {
    let t = one_group(vec![
        c(T::IsSubscriber, ConditionOperator::Eq, Json::Bool(true)),
        c(T::SubMonthsCumulative, ConditionOperator::Gte, Json::Int(3)),
    ]);
    let mut f = facts();
    f.is_subscriber = true;
    f.sub_months_cumulative = 5;
    assert!(evaluate(&t, &f));

    f.sub_months_cumulative = 2;
    assert!(!evaluate(&t, &f));
}

#[test]
fn or_any_group_satisfies() {
    let t = or_groups(vec![
        vec![
            c(T::IsSubscriber, ConditionOperator::Eq, Json::Bool(true)),
            c(T::SubMonthsCumulative, ConditionOperator::Gte, Json::Int(3)),
        ],
        vec![c(T::IsVip, ConditionOperator::Eq, Json::Bool(true))],
    ]);

    let mut f = facts();
    f.is_subscriber = true;
    f.sub_months_cumulative = 5;
    assert!(evaluate(&t, &f));

    f.is_subscriber = false;
    f.is_vip = true;
    assert!(evaluate(&t, &f));

    f.is_vip = false;
    assert!(!evaluate(&t, &f));
}

#[test]
fn between_inclusive() {
    let mut cond = c(T::SubMonthsCumulative, ConditionOperator::Between, Json::Int(3));
    cond.value_end = Some(Json::Int(12));
    let t = one_group(vec![cond]);

    let mut f = facts();
    f.sub_months_cumulative = 3;
    assert!(evaluate(&t, &f));
    f.sub_months_cumulative = 12;
    assert!(evaluate(&t, &f));
    f.sub_months_cumulative = 13;
    assert!(!evaluate(&t, &f));
    f.sub_months_cumulative = 2;
    assert!(!evaluate(&t, &f));
}

#[test]
fn follow_age_days_from_timestamp() {
    let t = one_group(vec![c(T::FollowAgeDays, ConditionOperator::Gte, Json::Int(30))]);
    let mut f = facts();
    f.followed_at = Some(instant(Utc::now() - Duration::days(45)));
    assert!(evaluate(&t, &f));
    f.followed_at = Some(instant(Utc::now() - Duration::days(15)));
    assert!(!evaluate(&t, &f));
}

#[test]
fn missing_int_fails_closed() {
    let t = one_group(vec![c(T::FollowAgeDays, ConditionOperator::Gte, Json::Int(0))]);
    let f = facts();
    assert!(!evaluate(&t, &f));
}

#[test]
fn regex_against_username() {
    let t = one_group(vec![c(T::Username, ConditionOperator::Regex, text(r"^streamer_\w+$"))]);
    let mut f = facts();
    f.username = "streamer_jack".into();
    assert!(evaluate(&t, &f));
    f.username = "jack".into();
    assert!(!evaluate(&t, &f));
}

#[test]
fn bad_regex_returns_false_not_panic() {
    let t = one_group(vec![c(T::Username, ConditionOperator::Regex, text("(("))]);
    let mut f = facts();
    f.username = "anything".into();
    assert!(!evaluate(&t, &f));
}

#[test]
fn country_in_list() {
    let t = one_group(vec![c(T::CountryCode, ConditionOperator::In, texts(&["US", "CA", "GB"]))]);
    let mut f = facts();
    f.country_code = Some("CA".into());
    assert!(evaluate(&t, &f));
    f.country_code = Some("FR".into());
    assert!(!evaluate(&t, &f));
}

#[test]
fn not_in_inverse() {
    let t = one_group(vec![c(T::CountryCode, ConditionOperator::NotIn, texts(&["US"]))]);
    let mut f = facts();
    f.country_code = Some("CA".into());
    assert!(evaluate(&t, &f));
    f.country_code = Some("US".into());
    assert!(!evaluate(&t, &f));
}

#[test]
fn null_country_neq_passes() {
    let t = one_group(vec![c(T::CountryCode, ConditionOperator::Neq, text("US"))]);
    let f = facts();
    assert!(evaluate(&t, &f));
}

#[test]
fn realistic_tier_rule() {
    let t = or_groups(vec![
        vec![
            c(T::IsSubscriber, ConditionOperator::Eq, Json::Bool(true)),
            c(T::SubMonthsCumulative, ConditionOperator::Gte, Json::Int(6)),
        ],
        vec![c(T::IsVip, ConditionOperator::Eq, Json::Bool(true))],
        vec![
            c(T::IsGiftRecipient, ConditionOperator::Eq, Json::Bool(true)),
            c(T::SubStreakMonths, ConditionOperator::Gte, Json::Int(3)),
        ],
    ]);

    let mut f = facts();
    f.is_subscriber = true;
    f.sub_months_cumulative = 12;
    assert!(evaluate(&t, &f));

    let mut f = facts();
    f.is_vip = true;
    assert!(evaluate(&t, &f));

    let mut f = facts();
    f.sub_is_gift = true;
    f.sub_streak_months = 3;
    assert!(evaluate(&t, &f));

    let mut f = facts();
    f.is_follower = true;
    assert!(!evaluate(&t, &f));
}

#[test]
fn grant_on_any_is_true() {
    let t = RuleTree { grant_on_any_relation: true, groups: vec![] };
    let (sql, binds) = build_rule_where(&t, 2);
    assert_eq!(sql, "TRUE");
    assert!(binds.is_empty());
}

#[test]
fn convention_42_empty_is_false() {
    let t = RuleTree::default();
    let (sql, _) = build_rule_where(&t, 2);
    assert_eq!(sql, "FALSE");
}

#[test]
fn single_group_ands() {
    let t = RuleTree {
        grant_on_any_relation: false,
        groups: vec![ConditionGroup {
            conditions: vec![
                cond(T::IsSubscriber, Op::Eq, Json::Bool(true)),
                cond(T::SubMonthsCumulative, Op::Gte, Json::Int(3)),
            ],
        }],
    };
    let (sql, binds) = build_rule_where(&t, 2);
    assert!(sql.contains(" AND "));
    assert!(sql.contains("COALESCE(cr.is_subscriber, false) = $3"));
    assert!(sql.contains(">= $4"));
    assert_eq!(binds.len(), 2);
    assert!(matches!(binds[0], Bind::Bool(true)));
    assert!(matches!(binds[1], Bind::Int(3)));
}

#[test]
fn multi_group_ors() {
    let t = RuleTree {
        grant_on_any_relation: false,
        groups: vec![
            ConditionGroup { conditions: vec![cond(T::IsSubscriber, Op::Eq, Json::Bool(true))] },
            ConditionGroup { conditions: vec![cond(T::IsVip, Op::Eq, Json::Bool(true))] },
        ],
    };
    let (sql, binds) = build_rule_where(&t, 2);
    assert!(sql.contains(" OR "));
    assert_eq!(binds.len(), 2);
}

#[test]
fn between_emits_two_binds() {
    let mut c = cond(T::SubMonthsCumulative, Op::Between, Json::Int(3));
    c.value_end = Some(Json::Int(12));
    let t = RuleTree { grant_on_any_relation: false, groups: vec![ConditionGroup { conditions: vec![c] }] };
    let (sql, binds) = build_rule_where(&t, 0);
    assert!(sql.contains(">= $1") && sql.contains("<= $2"));
    assert_eq!(binds.len(), 2);
}

#[test]
fn in_list_uses_text_array() {
    let t = RuleTree {
        grant_on_any_relation: false,
        groups: vec![ConditionGroup {
            conditions: vec![cond(T::CountryCode, Op::In, texts(&["US", "CA"]))],
        }],
    };
    let (sql, binds) = build_rule_where(&t, 2);
    assert!(sql.contains("= ANY($3::text[])"));
    assert!(matches!(&binds[0], Bind::TextArray(v) if v.len() == 2));
}

#[test]
fn like_escapes_wildcards() {
    let t = RuleTree {
        grant_on_any_relation: false,
        groups: vec![ConditionGroup {
            conditions: vec![cond(T::Username, Op::Contains, text("100%_real"))],
        }],
    };
    let (_, binds) = build_rule_where(&t, 2);
    match &binds[0] {
        Bind::Text(s) => assert_eq!(s, "%100\\%\\_real%"),
        _ => panic!("expected Text bind"),
    }
}

#[test]
fn every_operator_has_its_text() {
    let mut between = cond(T::FollowAgeDays, Op::Between, Json::Int(3));
    between.value_end = Some(Json::Int(9));
    let t = or_groups(vec![
        vec![
            cond(T::IsVip, Op::Eq, Json::Bool(true)),
            cond(T::GiftedSubsGiven, Op::Neq, Json::Int(0)),
            cond(T::CountryCode, Op::Neq, text("US")),
            cond(T::SubStreakMonths, Op::Gt, Json::Int(1)),
            between,
        ],
        vec![],
        vec![
            cond(T::Username, Op::Contains, text("a\\b")),
            cond(T::Username, Op::Regex, text("^x")),
            cond(T::CountryCode, Op::In, texts(&[])),
            cond(T::CountryCode, Op::NotIn, texts(&[])),
            cond(T::CountryCode, Op::NotIn, texts(&["US"])),
        ],
    ]);
    let (sql, binds) = build_rule_where(&t, 0);
    let age = "FLOOR(EXTRACT(EPOCH FROM (now() - cr.followed_at)) / 86400)";
    assert_eq!(
        sql,
        format!(
            "((COALESCE(cr.is_vip, false) = $1 AND COALESCE(cr.gifted_subs_given, 0) <> $2 AND \
             ku.country_code IS DISTINCT FROM $3 AND (COALESCE(cr.sub_streak_months, 0)) > $4 AND \
             (({age}) >= $5 AND ({age}) <= $6)) OR FALSE OR (ku.kick_username LIKE $7 AND \
             ku.kick_username ~ $8 AND FALSE AND ku.country_code IS NOT NULL AND (ku.country_code IS NOT NULL AND \
             ku.country_code <> ALL($9::text[]))))"
        )
    );
    assert_eq!(binds.len(), 9);
    assert!(matches!(&binds[6], Bind::Text(s) if s == "%a\\\\b%"));
    assert!(matches!(&binds[8], Bind::TextArray(v) if v == &vec!["US".to_string()]));
}

#[test]
fn a_range_without_an_end_holds_of_nobody() {
    let mut f = facts();
    f.sub_months_cumulative = 4;
    for end in [None, Some(text("9")), Some(Json::Null)] {
        let mut between = cond(T::SubMonthsCumulative, Op::Between, Json::Int(4));
        between.value_end = end;
        let t = one_group(vec![between, cond(T::SubMonthsCumulative, Op::Eq, Json::Int(4))]);
        let (sql, binds) = build_rule_where(&t, 0);
        assert_eq!(sql, "((FALSE AND COALESCE(cr.sub_months_cumulative, 0) = $1))");
        assert!(binds.len() == 1 && matches!(binds[0], Bind::Int(4)));
        assert!(!evaluate(&t, &f));
    }
}

#[test]
fn parameters_are_numbered_in_order_behind_the_offset() {
    let mut between = cond(T::FollowAgeDays, Op::Between, Json::Int(3));
    between.value_end = Some(Json::Int(9));
    let t = or_groups(vec![
        vec![between, cond(T::CountryCode, Op::NotIn, texts(&[]))],
        vec![],
        vec![cond(T::CountryCode, Op::NotIn, texts(&["US"])), cond(T::Username, Op::Regex, text("$7"))],
    ]);
    let numbers = |sql: &str| -> Vec<usize> {
        sql.split('$')
            .skip(1)
            .map(|s| s.chars().take_while(|c| c.is_ascii_digit()).collect::<String>().parse().unwrap())
            .collect()
    };
    let (plain, binds) = build_rule_where(&t, 0);
    let (shifted, same) = build_rule_where(&t, 98);
    assert_eq!(numbers(&plain), vec![1, 2, 3, 4]);
    assert_eq!(numbers(&shifted), vec![99, 100, 101, 102]);
    assert_eq!((binds.len(), same.len()), (4, 4));
    let mut raised = plain;
    for n in 1..=4 {
        raised = raised.replace(&format!("${n}"), &format!("${}", n + 98));
    }
    assert_eq!(raised, shifted);
}

#[test]
fn the_order_of_groups_and_conditions_does_not_matter() {
    let vip = || c(T::IsVip, Op::Eq, Json::Bool(true));
    let sub = || c(T::IsSubscriber, Op::Eq, Json::Bool(true));
    let og = || c(T::IsOg, Op::Eq, Json::Bool(true));
    let one = or_groups(vec![vec![vip(), sub()], vec![og()]]);
    let other = or_groups(vec![vec![og(), og()], vec![sub(), vip()]]);
    for bits in 0..8 {
        let mut f = facts();
        f.is_vip = bits & 1 > 0;
        f.is_subscriber = bits & 2 > 0;
        f.is_og = bits & 4 > 0;
        assert_eq!(evaluate(&one, &f), evaluate(&other, &f));
    }
}

#[test]
fn an_unset_country_is_in_none_of_no_strings_either() {
    let t = one_group(vec![cond(T::CountryCode, Op::NotIn, texts(&[]))]);
    let (sql, binds) = build_rule_where(&t, 3);
    assert_eq!(sql, "((ku.country_code IS NOT NULL))");
    assert!(binds.is_empty());
    let mut f = facts();
    assert!(!evaluate(&t, &f));
    f.country_code = Some("US".to_string());
    assert!(evaluate(&t, &f));
}

#[test]
fn escaping_puts_a_backslash_before_what_a_pattern_knows() {
    assert_eq!(escape_like("50% \\ a_b"), "50\\% \\\\ a\\_b");
    assert_eq!(escape_like("plain"), "plain");
}

#[test]
fn ages_are_whole_days_with_the_fraction_dropped() {
    let t = one_group(vec![c(T::FollowAgeDays, Op::Eq, Json::Int(1))]);
    let mut f = facts();
    f.followed_at = Some(Timestamp { secs: 1_000_000, nanos: 5 });
    let day = 86_400;
    assert!(!evaluate_at(&t, &f, Timestamp { secs: 1_000_000 + day, nanos: 4 }));
    assert!(evaluate_at(&t, &f, Timestamp { secs: 1_000_000 + day, nanos: 5 }));
    assert!(evaluate_at(&t, &f, Timestamp { secs: 1_000_000 + 2 * day, nanos: 4 }));
    assert!(!evaluate_at(&t, &f, Timestamp { secs: 1_000_000 + 2 * day, nanos: 5 }));
}

#[test]
fn a_future_instant_is_no_whole_day_away() {
    let t = one_group(vec![c(T::AccountAgeDays, Op::Eq, Json::Int(0))]);
    let mut f = facts();
    f.kick_created_at = Some(Timestamp { secs: 1_000_000 + 3_600, nanos: 0 });
    assert!(evaluate_at(&t, &f, Timestamp { secs: 1_000_000, nanos: 0 }));
}

#[test]
fn without_ages_the_clock_has_no_say() {
    let t = one_group(vec![c(T::IsVip, Op::Eq, Json::Bool(true))]);
    let mut f = facts();
    f.is_vip = true;
    for secs in [0, 1_000_000_000, 4_000_000_000] {
        assert!(evaluate_at(&t, &f, Timestamp { secs, nanos: 0 }));
    }
}

#[test]
fn another_group_only_adds_and_another_condition_only_narrows() {
    let mut f = facts();
    f.is_vip = true;
    let vip = || c(T::IsVip, Op::Eq, Json::Bool(true));
    let sub = || c(T::IsSubscriber, Op::Eq, Json::Bool(true));
    assert!(evaluate(&or_groups(vec![vec![vip()]]), &f));
    assert!(evaluate(&or_groups(vec![vec![vip()], vec![sub()]]), &f));
    assert!(!evaluate(&or_groups(vec![vec![vip(), sub()]]), &f));
}

#[test]
fn a_pattern_counts_as_what_its_match_came_to() {
    let cond = c(T::Username, Op::Regex, text("^a"));
    assert!(string_match(&cond, Some("abc")));
    assert!(!string_match(&cond, Some("bca")));
    assert!(string_match_given(&cond, Some("whatever"), Some(true)));
    assert!(!string_match_given(&cond, Some("whatever"), Some(false)));
    assert!(!string_match_given(&cond, Some("whatever"), None));
    assert!(!string_match_given(&cond, None, Some(true)));
}

#[test]
fn a_pattern_too_large_to_compile_matches_nothing() {
    let t = one_group(vec![c(T::Username, Op::Regex, text(r"(\w{1000}){1000}"))]);
    let mut f = facts();
    f.username = "a".repeat(1_000_000);
    assert!(!evaluate(&t, &f));
}

#[test]
fn only_strings_of_a_list_are_compared() {
    let list = Json::Array(vec![Json::Int(1), Json::Null, text("US")]);
    assert!(list_contains(&list, "US"));
    assert!(!list_contains(&list, "1"));
    assert!(!list_contains(&text("US"), "US"));
}

#[test]
fn an_unset_country_is_in_no_list_and_out_of_none() {
    let f = facts();
    assert!(!evaluate(&one_group(vec![c(T::CountryCode, Op::NotIn, texts(&["US"]))]), &f));
    assert!(!evaluate(&one_group(vec![c(T::CountryCode, Op::In, texts(&["US"]))]), &f));
    assert!(!evaluate(&one_group(vec![c(T::CountryCode, Op::Eq, text(""))]), &f));
}

#[test]
fn keys_name_targets_and_operators() {
    assert_eq!(T::from_key("gifted_subs_given"), Some(T::GiftedSubsGiven));
    assert_eq!(T::from_key("GIFTED"), None);
    assert_eq!(T::ChatMessages30d.as_str(), "chat_messages_30d");
    assert_eq!(Op::from_key("not_in"), Some(Op::NotIn));
    assert_eq!(Op::from_key(""), None);
    assert_eq!(Op::Between.as_str(), "between");
    assert_eq!(T::Username.kind(), TargetKind::String);
    assert!(Op::Regex.valid_for(TargetKind::String));
    assert!(!Op::Regex.valid_for(TargetKind::Int));
    assert!(!Op::Neq.valid_for(TargetKind::Bool));
}
