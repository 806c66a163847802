//! Who gets a role and who loses one: for one member across all the roles, and for one role across
//! all the members.

use vstd::prelude::*;
use vstd::string::*;

use crate::error::{AppError, ErrorView};
use crate::models::facts::{Facts, FactsView};
use crate::models::rule::{RuleTree, RuleView};
use crate::services::condition_eval::{evaluate_at, evaluates};
use crate::services::rule_meaning::{
    law_clause_passes_whom_the_rule_holds_of, passes, same_dialect, sound, without_patterns, JoinedRow, Session,
};
use crate::services::rule_sql::{bound, build_rule_where, rule_binds, where_of, where_text, Bind};
use crate::text::{decimal, decimal_of, str_eq, texts};
use crate::time::Timestamp;

verus! {

/// A viewer's facts on a channel, as they are read.
#[derive(Debug)]
pub struct FactsRow {
    pub is_follower: bool,
    pub followed_at: Option<Timestamp>,
    pub is_subscriber: bool,
    pub sub_months_cumulative: i32,
    pub sub_streak_months: i32,
    pub sub_is_gift: bool,
    pub gifted_subs_given: i32,
    pub is_vip: bool,
    pub is_moderator: bool,
    pub kicks_donated: i32,
    pub chat_messages_30d: i32,
    pub is_og: bool,
    pub kick_created_at: Timestamp,
    pub country_code: Option<String>,
    pub kick_username: String,
}

impl From<FactsRow> for Facts {
    fn from(r: FactsRow) -> (f: Self) {
        Facts {
            is_follower: r.is_follower,
            followed_at: r.followed_at,
            is_subscriber: r.is_subscriber,
            sub_months_cumulative: r.sub_months_cumulative as i64,
            sub_streak_months: r.sub_streak_months as i64,
            sub_is_gift: r.sub_is_gift,
            gifted_subs_given: r.gifted_subs_given as i64,
            is_vip: r.is_vip,
            is_moderator: r.is_moderator,
            kicks_donated: r.kicks_donated as i64,
            chat_messages_30d: r.chat_messages_30d as i64,
            is_og: r.is_og,
            kick_created_at: Some(r.kick_created_at),
            country_code: r.country_code,
            username: r.kick_username,
        }
    }
}

impl vstd::std_specs::convert::FromSpecImpl<FactsRow> for Facts {
    open spec fn obeys_from_spec() -> bool {
        true
    }

    open spec fn from_spec(r: FactsRow) -> Facts {
        Facts {
            is_follower: r.is_follower,
            followed_at: r.followed_at,
            is_subscriber: r.is_subscriber,
            sub_months_cumulative: r.sub_months_cumulative as i64,
            sub_streak_months: r.sub_streak_months as i64,
            sub_is_gift: r.sub_is_gift,
            gifted_subs_given: r.gifted_subs_given as i64,
            is_vip: r.is_vip,
            is_moderator: r.is_moderator,
            kicks_donated: r.kicks_donated as i64,
            chat_messages_30d: r.chat_messages_30d as i64,
            is_og: r.is_og,
            kick_created_at: Some(r.kick_created_at),
            country_code: r.country_code,
            username: r.kick_username,
        }
    }
}

/// The statement that reads a member's facts on a channel; `$1` is the member, `$2` the channel.
pub const FACTS_SELECT: &'static str = "SELECT \
    COALESCE(cr.is_follower, false)        AS is_follower, \
    cr.followed_at                         AS followed_at, \
    COALESCE(cr.is_subscriber, false)      AS is_subscriber, \
    COALESCE(cr.sub_months_cumulative, 0)  AS sub_months_cumulative, \
    COALESCE(cr.sub_streak_months, 0)      AS sub_streak_months, \
    COALESCE(cr.sub_is_gift, false)        AS sub_is_gift, \
    COALESCE(cr.gifted_subs_given, 0)      AS gifted_subs_given, \
    COALESCE(cr.is_vip, false)             AS is_vip, \
    COALESCE(cr.is_moderator, false)       AS is_moderator, \
    COALESCE(cr.kicks_donated, 0)          AS kicks_donated, \
    COALESCE(cr.chat_messages_30d, 0)      AS chat_messages_30d, \
    ku.is_og                               AS is_og, \
    ku.kick_created_at                     AS kick_created_at, \
    ku.country_code                        AS country_code, \
    ku.kick_username                       AS kick_username \
  FROM kick_users ku \
  LEFT JOIN channel_relations cr \
    ON cr.kick_user_id = ku.kick_user_id AND cr.kick_channel_id = $2 \
  WHERE ku.discord_id = $1";

/// A role with its rule.
#[derive(Debug)]
pub struct RoleLink {
    pub guild_id: String,
    pub role_id: String,
    pub api_token: String,
    pub kick_channel_id: Option<i64>,
    pub tree: RuleTree,
}

/// Whether the rule needs the member's facts on a channel: it does not grant to every linked
/// account, and a channel is bound to it.
pub open spec fn asks_facts(tree: RuleView, channel: Option<i64>) -> bool {
    !tree.grant_on_any_relation && channel is Some
}

/// Whether the rule needs the member's facts on a channel.
pub fn needs_facts(link: &RoleLink) -> (r: bool)
    ensures
        r == asks_facts(link.tree@, link.kick_channel_id),
{
    !link.tree.grant_on_any_relation && link.kick_channel_id.is_some()
}

/// Whether a member qualifies for a role, at the instant `now`. A rule that grants to every linked
/// account asks for no more than that; any other rule without a channel grants to nobody, and one
/// with a channel asks whether it holds of the member's facts there.
pub open spec fn qualifies(
    tree: RuleView,
    channel: Option<i64>,
    is_linked: bool,
    facts: Option<FactsView>,
    now: Timestamp,
) -> bool {
    if tree.grant_on_any_relation {
        is_linked
    } else if channel is None {
        false
    } else {
        match facts {
            Some(f) => evaluates(tree, f, now),
            None => false,
        }
    }
}

/// The facts, where there are some.
pub open spec fn facts_opt(facts: Option<Facts>) -> Option<FactsView> {
    match facts {
        Some(f) => Some(f@),
        None => None,
    }
}

/// Whether a member qualifies for a role, at the instant `now`.
pub fn qualifies_at(link: &RoleLink, is_linked: bool, facts: &Option<Facts>, now: Timestamp) -> (r: bool)
    ensures
        r == qualifies(link.tree@, link.kick_channel_id, is_linked, facts_opt(*facts), now),
{
    if link.tree.grant_on_any_relation {
        is_linked
    } else if link.kick_channel_id.is_none() {
        false
    } else {
        match facts {
            Some(f) => evaluate_at(&link.tree, f, now),
            None => false,
        }
    }
}

/// Whether a role is among those that a member has.
pub open spec fn among(existing: Seq<(String, String)>, guild_id: Seq<char>, role_id: Seq<char>) -> bool {
    exists|i: int|
        0 <= i < existing.len() && (#[trigger] existing[i]).0@ == guild_id && existing[i].1@ == role_id
}

/// Whether a role is among those that a member has.
pub fn is_assigned(existing: &Vec<(String, String)>, guild_id: &str, role_id: &str) -> (r: bool)
    ensures
        r == among(existing@, guild_id@, role_id@),
{
    let mut i: usize = 0;
    while i < existing.len()
        invariant
            i <= existing.len(),
            forall|j: int|
                0 <= j < i ==> !((#[trigger] existing@[j]).0@ == guild_id@ && existing@[j].1@ == role_id@),
        decreases existing.len() - i,
    {
        if str_eq(existing[i].0.as_str(), guild_id) && str_eq(existing[i].1.as_str(), role_id) {
            return true;
        }
        i = i + 1;
    }
    false
}

/// What is done about a member and a role.
#[derive(Debug)]
pub enum Action {
    Add { guild_id: String, role_id: String, api_token: String },
    Remove { guild_id: String, role_id: String, api_token: String },
}

/// What an action is.
pub enum ActionView {
    Add { guild_id: Seq<char>, role_id: Seq<char>, api_token: Seq<char> },
    Remove { guild_id: Seq<char>, role_id: Seq<char>, api_token: Seq<char> },
}

impl View for Action {
    type V = ActionView;

    open spec fn view(&self) -> ActionView {
        match *self {
            Action::Add { guild_id, role_id, api_token } => ActionView::Add {
                guild_id: guild_id@,
                role_id: role_id@,
                api_token: api_token@,
            },
            Action::Remove { guild_id, role_id, api_token } => ActionView::Remove {
                guild_id: guild_id@,
                role_id: role_id@,
                api_token: api_token@,
            },
        }
    }
}

/// What the actions of a list are.
pub open spec fn actions(list: Seq<Action>) -> Seq<ActionView> {
    list.map_values(|a: Action| a@)
}

/// What is done about a member who qualifies, or not, and has the role, or not.
pub open spec fn action_on(link: RoleLink, qualifies: bool, assigned: bool) -> Option<ActionView> {
    if qualifies && !assigned {
        Some(
            ActionView::Add {
                guild_id: link.guild_id@,
                role_id: link.role_id@,
                api_token: link.api_token@,
            },
        )
    } else if !qualifies && assigned {
        Some(
            ActionView::Remove {
                guild_id: link.guild_id@,
                role_id: link.role_id@,
                api_token: link.api_token@,
            },
        )
    } else {
        None
    }
}

/// What is known of a member.
pub struct MemberView {
    pub is_linked: bool,
    pub existing: Seq<(String, String)>,
}

/// What is done about a member and a role.
pub open spec fn action_for(link: RoleLink, facts: Option<Facts>, member: MemberView, now: Timestamp) -> Option<
    ActionView,
> {
    action_on(
        link,
        qualifies(link.tree@, link.kick_channel_id, member.is_linked, facts_opt(facts), now),
        among(member.existing, link.guild_id@, link.role_id@),
    )
}

/// What is done about a member, role by role.
pub open spec fn actions_for(
    links: Seq<RoleLink>,
    facts: Seq<Option<Facts>>,
    member: MemberView,
    now: Timestamp,
) -> Seq<ActionView>
    decreases links.len(),
{
    if links.len() == 0 {
        seq![]
    } else {
        let before = actions_for(links.drop_last(), facts.take(links.len() - 1), member, now);
        match action_for(links.last(), facts[links.len() - 1], member, now) {
            Some(a) => before.push(a),
            None => before,
        }
    }
}

/// What is done about a member: for each role that a rule stands for, given the member's facts
/// where the rule needs them, the roles that the member has, and whether an account is linked.
pub fn plan_player(
    links: &Vec<RoleLink>,
    facts: &Vec<Option<Facts>>,
    existing: &Vec<(String, String)>,
    is_linked: bool,
    now: Timestamp,
) -> (r: Vec<Action>)
    requires
        links.len() == facts.len(),
    ensures
        actions(r@) == actions_for(links@, facts@, (MemberView { is_linked, existing: existing@ }), now),
{
    let ghost member = MemberView { is_linked, existing: existing@ };
    let mut r: Vec<Action> = Vec::new();
    let mut i: usize = 0;
    assert(actions(r@) =~= seq![]);
    while i < links.len()
        invariant
            i <= links.len(),
            links.len() == facts.len(),
            member == (MemberView { is_linked, existing: existing@ }),
            actions(r@) == actions_for(links@.take(i as int), facts@.take(i as int), member, now),
        decreases links.len() - i,
    {
        proof {
            let l = links@.take(i + 1);
            let f = facts@.take(i + 1);
            assert(l.drop_last() =~= links@.take(i as int));
            assert(f.take(i as int) =~= facts@.take(i as int));
            assert(l.last() == links@[i as int]);
            assert(f[i as int] == facts@[i as int]);
        }
        let link = &links[i];
        let due = qualifies_at(link, is_linked, &facts[i], now);
        let assigned = is_assigned(existing, link.guild_id.as_str(), link.role_id.as_str());
        let ghost before = r@;
        if due && !assigned {
            let a = Action::Add {
                guild_id: link.guild_id.clone(),
                role_id: link.role_id.clone(),
                api_token: link.api_token.clone(),
            };
            r.push(a);
            assert(actions(r@) =~= actions(before).push(a@));
        } else if !due && assigned {
            let a = Action::Remove {
                guild_id: link.guild_id.clone(),
                role_id: link.role_id.clone(),
                api_token: link.api_token.clone(),
            };
            r.push(a);
            assert(actions(r@) =~= actions(before).push(a@));
        }
        i = i + 1;
    }
    assert(links@.take(i as int) =~= links@);
    assert(facts@.take(i as int) =~= facts@);
    r
}

/// What follows from an answer of the role service.
#[derive(Debug)]
pub enum Followup {
    /// Write down what was done.
    Record,
    /// The role is gone: take its link out.
    DeleteOrphan,
    /// Leave everything as it is.
    Nothing,
    /// Report the failure.
    Fail(AppError),
}

/// What follows from an answer of the role service.
pub enum FollowupView {
    Record,
    DeleteOrphan,
    Nothing,
    Fail(ErrorView),
}

impl View for Followup {
    type V = FollowupView;

    open spec fn view(&self) -> FollowupView {
        match *self {
            Followup::Record => FollowupView::Record,
            Followup::DeleteOrphan => FollowupView::DeleteOrphan,
            Followup::Nothing => FollowupView::Nothing,
            Followup::Fail(e) => FollowupView::Fail(e@),
        }
    }
}

/// What follows from adding one member to a role, or removing one: a failure is left to the next
/// look at the member.
pub fn after_change(answer: Result<(), AppError>) -> (r: Followup)
    ensures
        r@ == (match answer {
            Ok(_) => FollowupView::Record,
            Err(e) => if e@ is RoleLinkNotFound {
                FollowupView::DeleteOrphan
            } else {
                FollowupView::Nothing
            },
        }),
{
    match answer {
        Ok(_) => Followup::Record,
        Err(AppError::RoleLinkNotFound) => Followup::DeleteOrphan,
        Err(_) => Followup::Nothing,
    }
}

/// What follows from replacing all the members of a role.
pub fn after_upload(answer: Result<(), AppError>) -> (r: Followup)
    ensures
        r@ == (match answer {
            Ok(_) => FollowupView::Record,
            Err(e) => if e@ is RoleLinkNotFound {
                FollowupView::DeleteOrphan
            } else {
                FollowupView::Fail(e@)
            },
        }),
{
    match answer {
        Ok(_) => Followup::Record,
        Err(AppError::RoleLinkNotFound) => Followup::DeleteOrphan,
        Err(e) => Followup::Fail(e),
    }
}

/// What follows from asking how many members a role may have, where that failed.
pub fn after_refused_info(e: AppError) -> (r: Followup)
    ensures
        r@ == (match e@ {
            ErrorView::RoleLinkNotFound => FollowupView::DeleteOrphan,
            ErrorView::RoleLinkDisabled => FollowupView::Nothing,
            other => FollowupView::Fail(other),
        }),
{
    match e {
        AppError::RoleLinkNotFound => Followup::DeleteOrphan,
        AppError::RoleLinkDisabled => Followup::Nothing,
        e => Followup::Fail(e),
    }
}

/// Whether a rule holds of nobody for want of a channel or of groups.
pub open spec fn grants_nobody(tree: RuleView, channel: Option<i64>) -> bool {
    !tree.grant_on_any_relation && (channel is None || tree.groups.len() == 0)
}

/// Whether a rule holds of nobody for want of a channel or of groups: its role is emptied without
/// another look.
pub fn drains(link: &RoleLink) -> (r: bool)
    ensures
        r == grants_nobody(link.tree@, link.kick_channel_id),
{
    !link.tree.grant_on_any_relation && (link.kick_channel_id.is_none() || link.tree.groups.len() == 0)
}

/// A statement with the values of the rule's parameters.
#[derive(Debug)]
pub struct LinkQuery {
    pub text: String,
    /// The channel that the statement's first parameter is, where it has one.
    pub channel: Option<i64>,
    pub binds: Vec<Bind>,
}

/// The statement for a rule that grants to every linked account: `$1` is the guild's members, `$2`
/// how many there may be.
pub const LINKED_MEMBERS: &'static str = "SELECT discord_id FROM kick_users \
    WHERE discord_id = ANY($1::text[]) \
    ORDER BY discord_id LIMIT $2";

/// The statement for any other rule, up to the rule: `$1` is the channel, `$2` the guild's members.
pub const RULE_MEMBERS: &'static str = "SELECT DISTINCT ku.discord_id \
    FROM kick_users ku \
    LEFT JOIN channel_relations cr \
    ON cr.kick_user_id = ku.kick_user_id AND cr.kick_channel_id = $1 \
    WHERE ku.discord_id = ANY($2::text[]) \
    AND (";

/// How many parameters come before the rule's.
pub const RULE_OFFSET: usize = 2;

/// The statement that finds whom a rule holds of. The last parameter is how many there may be.
pub open spec fn members_statement(tree: RuleView) -> Seq<char> {
    if tree.grant_on_any_relation {
        LINKED_MEMBERS@
    } else {
        RULE_MEMBERS@ + where_text(where_of(tree, RULE_OFFSET as nat)) + ") ORDER BY ku.discord_id LIMIT $"@
            + decimal((RULE_OFFSET + rule_binds(tree).len() + 1) as nat)
    }
}

/// The statement that finds whom a rule holds of, among a guild's members.
pub fn members_query(link: &RoleLink) -> (r: LinkQuery)
    requires
        !grants_nobody(link.tree@, link.kick_channel_id),
        rule_binds(link.tree@).len() + 3 <= usize::MAX,
    ensures
        r.text@ == members_statement(link.tree@),
        bound(r.binds@) == rule_binds(link.tree@),
        r.channel == (if link.tree@.grant_on_any_relation {
            None
        } else {
            link.kick_channel_id
        }),
{
    if link.tree.grant_on_any_relation {
        let binds: Vec<Bind> = Vec::new();
        assert(bound(binds@) =~= seq![]);
        return LinkQuery { text: LINKED_MEMBERS.to_owned(), channel: None, binds };
    }
    let (rule, binds) = build_rule_where(&link.tree, RULE_OFFSET);
    assert(bound(binds@).len() == binds.len());
    let last: usize = RULE_OFFSET + binds.len() + 1;
    let last = decimal_of(last as u64);
    let text = RULE_MEMBERS.to_owned().concat(rule.as_str()).concat(") ORDER BY ku.discord_id LIMIT $").concat(
        last.as_str(),
    );
    LinkQuery { text, channel: link.kick_channel_id, binds }
}

/// Whether two lists hold the same texts in the same order: then a role is left alone.
pub fn unchanged(current: &Vec<String>, wanted: &Vec<String>) -> (r: bool)
    ensures
        r == (texts(current@) == texts(wanted@)),
{
    if current.len() != wanted.len() {
        assert(texts(current@).len() != texts(wanted@).len());
        return false;
    }
    let mut i: usize = 0;
    while i < current.len()
        invariant
            i <= current.len(),
            current.len() == wanted.len(),
            forall|j: int| 0 <= j < i ==> (#[trigger] current@[j])@ == wanted@[j]@,
        decreases current.len() - i,
    {
        if !str_eq(current[i].as_str(), wanted[i].as_str()) {
            assert(texts(current@)[i as int] != texts(wanted@)[i as int]);
            return false;
        }
        i = i + 1;
    }
    assert(texts(current@) =~= texts(wanted@));
    true
}

/// Whether a member has a role after what was done about it.
pub open spec fn assigned_after(action: Option<ActionView>, assigned: bool) -> bool {
    match action {
        Some(ActionView::Add { .. }) => true,
        Some(ActionView::Remove { .. }) => false,
        None => assigned,
    }
}

/// Once what is due has been done, a member has a role if and only if the member qualifies for
/// it; and then nothing more is due.
pub proof fn law_actions_bring_roles_in_line(link: RoleLink, due: bool, assigned: bool)
    ensures
        assigned_after(action_on(link, due, assigned), assigned) == due,
        action_on(link, due, due) is None,
{
}

/// Whoever has linked no account qualifies for nothing.
pub proof fn law_the_unlinked_qualify_for_nothing(tree: RuleView, channel: Option<i64>, now: Timestamp)
    ensures
        !qualifies(tree, channel, false, None, now),
{
}

/// A rule without a channel or without groups, unless it grants to every linked account, grants to
/// nobody.
pub proof fn law_unbound_rules_grant_nobody(
    tree: RuleView,
    channel: Option<i64>,
    is_linked: bool,
    facts: Option<FactsView>,
    now: Timestamp,
)
    requires
        grants_nobody(tree, channel),
    ensures
        !qualifies(tree, channel, is_linked, facts, now),
{
}

/// A look at one member and a look at all of them agree: whoever's row the statement's clause
/// passes qualifies, and nobody else does.
pub proof fn law_bulk_and_single_looks_agree(
    tree: RuleView,
    channel: Option<i64>,
    row: JoinedRow,
    now: Timestamp,
    matches: spec_fn(Seq<char>, Seq<char>) -> bool,
)
    requires
        !tree.grant_on_any_relation,
        channel is Some,
        sound(tree),
        row.past(now),
    ensures
        without_patterns(tree) || same_dialect(matches) ==> qualifies(tree, channel, true, Some(row.facts()), now)
            == passes(
            where_of(tree, RULE_OFFSET as nat),
            row,
            (Session { offset: RULE_OFFSET as nat, binds: rule_binds(tree), now, matches }),
        ),
{
    law_clause_passes_whom_the_rule_holds_of(tree, row, RULE_OFFSET as nat, now, matches);
}

} // verus!
