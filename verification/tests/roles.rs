use kick_channel_role::error::AppError;
use kick_channel_role::json::Json;
use kick_channel_role::models::condition::{Condition, ConditionOperator, ConditionTarget};
use kick_channel_role::models::facts::Facts;
use kick_channel_role::models::rule::{ConditionGroup, RuleTree};
use kick_channel_role::services::player_sync::{with_facts, with_guilds, with_links, PlayerStep};
use kick_channel_role::services::role_sync::{
    start, with_anyone, with_found, with_limit, with_members, with_uploaded, RoleStep,
};
use kick_channel_role::services::rule_sql::Bind;
use kick_channel_role::services::sync::{
    after_change, after_refused_info, after_upload, drains, is_assigned, members_query, needs_facts, plan_player,
    qualifies_at, unchanged, Action, FactsRow, Followup, RoleLink, FACTS_SELECT, LINKED_MEMBERS,
};
use kick_channel_role::time::Timestamp;

const NOW: Timestamp = Timestamp { secs: 1_767_225_600, nanos: 0 };

fn vip() -> RuleTree {
    RuleTree {
        grant_on_any_relation: false,
        groups: vec![ConditionGroup {
            conditions: vec![Condition {
                target: ConditionTarget::IsVip,
                operator: ConditionOperator::Eq,
                value: Json::Bool(true),
                value_end: None,
            }],
        }],
    }
}

fn anyone() -> RuleTree {
    RuleTree { grant_on_any_relation: true, groups: vec![] }
}

fn link(role: &str, channel: Option<i64>, tree: RuleTree) -> RoleLink {
    RoleLink {
        guild_id: "g".into(),
        role_id: role.into(),
        api_token: format!("t{role}"),
        kick_channel_id: channel,
        tree,
    }
}

fn vip_facts(is_vip: bool) -> Option<Facts> {
    Some(Facts { is_vip, ..Facts::default() })
}

fn strings(list: &[&str]) -> Vec<String> {
    list.iter().map(|s| s.to_string()).collect()
}

#[test]
fn facts_are_read_as_they_stand_in_the_row() {
    let row = FactsRow {
        is_follower: true,
        followed_at: Some(NOW),
        is_subscriber: false,
        sub_months_cumulative: i32::MAX,
        sub_streak_months: 2,
        sub_is_gift: true,
        gifted_subs_given: 3,
        is_vip: true,
        is_moderator: false,
        kicks_donated: 4,
        chat_messages_30d: 5,
        is_og: true,
        kick_created_at: NOW,
        country_code: Some("DE".into()),
        kick_username: "me".into(),
    };
    let f = Facts::from(row);
    assert!(f.is_follower && f.sub_is_gift && f.is_vip && f.is_og && !f.is_subscriber && !f.is_moderator);
    assert_eq!((f.sub_months_cumulative, f.sub_streak_months, f.gifted_subs_given), (i32::MAX as i64, 2, 3));
    assert_eq!((f.kicks_donated, f.chat_messages_30d), (4, 5));
    assert_eq!((f.followed_at, f.kick_created_at), (Some(NOW), Some(NOW)));
    assert_eq!((f.country_code.as_deref(), f.username.as_str()), (Some("DE"), "me"));
    assert!(FACTS_SELECT.ends_with("WHERE ku.discord_id = $1"));
}

#[test]
fn qualifying_needs_what_the_rule_asks_for() {
    assert!(qualifies_at(&link("r", None, anyone()), true, &None, NOW));
    assert!(!qualifies_at(&link("r", None, anyone()), false, &None, NOW));
    assert!(!qualifies_at(&link("r", None, vip()), true, &vip_facts(true), NOW));
    assert!(!qualifies_at(&link("r", Some(1), vip()), true, &None, NOW));
    assert!(!qualifies_at(&link("r", Some(1), vip()), true, &vip_facts(false), NOW));
    assert!(qualifies_at(&link("r", Some(1), vip()), true, &vip_facts(true), NOW));
    assert!(!needs_facts(&link("r", Some(1), anyone())));
    assert!(!needs_facts(&link("r", None, vip())));
    assert!(needs_facts(&link("r", Some(1), vip())));
}

#[test]
fn a_member_gets_what_is_due_and_loses_what_is_not() {
    let links = vec![
        link("add", Some(1), vip()),
        link("keep", None, anyone()),
        link("drop", Some(1), vip()),
        link("none", None, vip()),
    ];
    let facts = vec![vip_facts(true), None, vip_facts(false), None];
    let existing = vec![("g".to_string(), "keep".to_string()), ("g".to_string(), "drop".to_string())];
    let actions = plan_player(&links, &facts, &existing, true, NOW);
    assert_eq!(actions.len(), 2);
    assert!(matches!(&actions[0], Action::Add { guild_id, role_id, api_token }
        if guild_id == "g" && role_id == "add" && api_token == "tadd"));
    assert!(matches!(&actions[1], Action::Remove { role_id, api_token, .. } if role_id == "drop" && api_token == "tdrop"));
    assert!(is_assigned(&existing, "g", "keep"));
    assert!(!is_assigned(&existing, "h", "keep"));

    let settled = vec![("g".to_string(), "keep".to_string()), ("g".to_string(), "add".to_string())];
    assert!(plan_player(&links, &facts, &settled, true, NOW).is_empty());
}

#[test]
fn answers_of_the_role_service_are_followed_up() {
    assert!(matches!(after_change(Ok(())), Followup::Record));
    assert!(matches!(after_change(Err(AppError::RoleLinkNotFound)), Followup::DeleteOrphan));
    assert!(matches!(after_change(Err(AppError::UserLimitReached { limit: 3 })), Followup::Nothing));
    assert!(matches!(after_upload(Ok(())), Followup::Record));
    assert!(matches!(after_upload(Err(AppError::RoleLinkNotFound)), Followup::DeleteOrphan));
    assert!(matches!(after_upload(Err(AppError::Internal("x".into()))), Followup::Fail(AppError::Internal(_))));
    assert!(matches!(after_refused_info(AppError::RoleLinkNotFound), Followup::DeleteOrphan));
    assert!(matches!(after_refused_info(AppError::RoleLinkDisabled), Followup::Nothing));
    assert!(matches!(after_refused_info(AppError::KickApi("x".into())), Followup::Fail(AppError::KickApi(_))));
}

#[test]
fn the_statement_for_a_role_ends_with_its_limit() {
    let q = members_query(&link("r", Some(42), vip()));
    assert_eq!(
        q.text,
        "SELECT DISTINCT ku.discord_id FROM kick_users ku LEFT JOIN channel_relations cr \
         ON cr.kick_user_id = ku.kick_user_id AND cr.kick_channel_id = $1 \
         WHERE ku.discord_id = ANY($2::text[]) \
         AND (((COALESCE(cr.is_vip, false) = $3))) ORDER BY ku.discord_id LIMIT $4"
    );
    assert_eq!(q.channel, Some(42));
    assert!(matches!(q.binds.as_slice(), [Bind::Bool(true)]));
    let q = members_query(&link("r", Some(42), anyone()));
    assert_eq!(q.text, LINKED_MEMBERS);
    assert!(q.channel.is_none() && q.binds.is_empty());
}

#[test]
fn a_round_over_a_role_goes_step_by_step() {
    assert!(matches!(start(&None), RoleStep::Stop));
    assert!(matches!(start(&Some(link("r", None, vip()))), RoleStep::CheckAnyone));
    assert!(matches!(start(&Some(link("r", Some(1), RuleTree::default()))), RoleStep::CheckAnyone));
    assert!(matches!(start(&Some(link("r", Some(1), vip()))), RoleStep::FetchMembers));
    assert!(drains(&link("r", None, vip())) && !drains(&link("r", None, anyone())));

    assert!(matches!(with_members(Ok(0)), RoleStep::CheckAnyone));
    assert!(matches!(with_members(Ok(3)), RoleStep::FetchLimit));
    assert!(matches!(with_members(Err(AppError::Internal("gateway".into()))), RoleStep::Fail(_)));

    let l = link("r", Some(1), vip());
    assert!(matches!(with_limit(&l, Ok(100)), RoleStep::Find { limit: 100, .. }));
    assert!(matches!(with_limit(&l, Err(AppError::RoleLinkNotFound)), RoleStep::DeleteOrphan));
    assert!(matches!(with_limit(&l, Err(AppError::RoleLinkDisabled)), RoleStep::Stop));
    assert!(matches!(with_limit(&l, Err(AppError::Internal("x".into()))), RoleStep::Fail(_)));

    assert!(matches!(with_found(&strings(&["1", "2"]), &strings(&["1", "2"])), RoleStep::Stop));
    assert!(matches!(with_found(&strings(&["1"]), &strings(&["1", "2"])), RoleStep::Upload));
    assert!(!unchanged(&strings(&["1", "3"]), &strings(&["1", "2"])));
    assert!(matches!(with_anyone(false), RoleStep::Stop));
    assert!(matches!(with_anyone(true), RoleStep::UploadNobody));
    assert!(matches!(with_uploaded(Ok(()), false), RoleStep::Replace));
    assert!(matches!(with_uploaded(Ok(()), true), RoleStep::Clear));
    assert!(matches!(with_uploaded(Err(AppError::RoleLinkNotFound), false), RoleStep::DeleteOrphan));
    assert!(matches!(with_uploaded(Err(AppError::Internal("x".into())), true), RoleStep::Fail(_)));
}

#[test]
fn a_round_over_a_member_goes_step_by_step() {
    assert!(matches!(with_guilds(Err(AppError::Internal("gateway".into()))), PlayerStep::Fail(AppError::Internal(_))));
    assert!(matches!(with_guilds(Ok(0)), PlayerStep::Stop));
    assert!(matches!(with_guilds(Ok(2)), PlayerStep::LookAtRoles));
    assert!(matches!(with_links(&vec![]), PlayerStep::Stop));
    let links = vec![link("add", Some(1), vip()), link("drop", Some(1), vip()), link("keep", None, anyone())];
    assert!(matches!(with_links(&links), PlayerStep::LookAtFacts));

    let facts = vec![vip_facts(true), vip_facts(false), None];
    let existing = vec![("g".to_string(), "drop".to_string()), ("g".to_string(), "other".to_string())];
    let done = match with_facts(&links, &facts, &existing, true, NOW) {
        PlayerStep::Change(actions) => actions,
        other => panic!("changes were expected, got {other:?}"),
    };
    let mut after = existing;
    for action in done {
        match action {
            Action::Add { guild_id, role_id, .. } => after.push((guild_id, role_id)),
            Action::Remove { guild_id, role_id, .. } => after.retain(|r| *r != (guild_id.clone(), role_id.clone())),
        }
    }
    assert_eq!(
        after,
        [("g", "other"), ("g", "add"), ("g", "keep")].map(|(g, r)| (g.to_string(), r.to_string()))
    );
    assert!(matches!(with_facts(&links, &facts, &after, true, NOW), PlayerStep::Stop));
}
