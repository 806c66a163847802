//! What values are known by in contracts is what they hold, field by field.

use vstd::prelude::*;

use crate::error::{AppError, ErrorView};
use crate::json::{Json, JsonView};
use crate::models::condition::Condition;
use crate::models::rule::{ConditionGroup, RuleTree};
use crate::routes::api_v1::UserFilter;
use crate::routes::delivery::{Step, StepView};
use crate::routes::sign_in::ViewerLink;
use crate::routes::webhooks::{EventOp, OpView};
use crate::services::kick_probe::{OutcomeView, ProbeOutcome};
use crate::services::player_sync::{PlayerStep, PlayerStepView};
use crate::services::role_sync::{RoleStep, RoleStepView};
use crate::services::rule_sql::{Bind, BindView};
use crate::services::sync::{Action, ActionView};

verus! {

/// A write is known by its kind and by all that it holds, each under its own name.
pub proof fn law_writes_are_known_by_what_they_hold(op: EventOp)
    ensures
        match op {
            EventOp::LiveStarted { channel, started_at } => op@ == (OpView::LiveStarted { channel, started_at }),
            EventOp::LiveEnded { channel } => op@ == (OpView::LiveEnded { channel }),
            EventOp::CategoryChanged { channel, category } => op@ == (OpView::CategoryChanged {
                channel,
                category: category@,
            }),
            EventOp::EnsureRelation { channel, user } => op@ == (OpView::EnsureRelation { channel, user }),
            EventOp::Followed { channel, user } => op@ == (OpView::Followed { channel, user }),
            EventOp::Subscribed { channel, user, created_at, expires_at, months } => op@ == (OpView::Subscribed {
                channel,
                user,
                created_at,
                expires_at,
                months,
            }),
            EventOp::Renewed { channel, user, months, expires_at } => op@ == (OpView::Renewed {
                channel,
                user,
                months,
                expires_at,
            }),
            EventOp::GiftsGiven { channel, user, count } => op@ == (OpView::GiftsGiven { channel, user, count }),
            EventOp::GiftReceived { channel, user, expires_at } => op@ == (OpView::GiftReceived {
                channel,
                user,
                expires_at,
            }),
            EventOp::ChatSeen { channel, user } => op@ == (OpView::ChatSeen { channel, user }),
            EventOp::Badges { channel, user, is_moderator, is_vip, is_og } => op@ == (OpView::Badges {
                channel,
                user,
                is_moderator,
                is_vip,
                is_og,
            }),
            EventOp::SubscriberBadge { channel, user, months } => op@ == (OpView::SubscriberBadge {
                channel,
                user,
                months,
            }),
            EventOp::GifterBadge { channel, user, gifted } => op@ == (OpView::GifterBadge { channel, user, gifted }),
            EventOp::KicksGifted { channel, user, amount } => op@ == (OpView::KicksGifted { channel, user, amount }),
            EventOp::SyncPlayer { user } => op@ == (OpView::SyncPlayer { user }),
            EventOp::SyncPlayerIfChanged { user } => op@ == (OpView::SyncPlayerIfChanged { user }),
        },
{
}

/// A failure is known by its kind and by what is said of it.
pub proof fn law_failures_are_known_by_what_they_say(e: AppError)
    ensures
        match e {
            AppError::BadRequest(s) => e@ == ErrorView::BadRequest(s@),
            AppError::UnauthorizedWith(s) => e@ == ErrorView::UnauthorizedWith(s@),
            AppError::Forbidden(s) => e@ == ErrorView::Forbidden(s@),
            AppError::NotFound(s) => e@ == ErrorView::NotFound(s@),
            AppError::Internal(s) => e@ == ErrorView::Internal(s@),
            AppError::KickApi(s) => e@ == ErrorView::KickApi(s@),
            AppError::RateLimited { retry_after } => e@ == (ErrorView::RateLimited { retry_after }),
            AppError::RoleLinkNotFound => e@ == ErrorView::RoleLinkNotFound,
            AppError::RoleLinkDisabled => e@ == ErrorView::RoleLinkDisabled,
            AppError::UserLimitReached { limit } => e@ == (ErrorView::UserLimitReached { limit }),
        },
{
}

/// A JSON value is known by its kind and by what it holds, elements and members in their order.
pub proof fn law_values_are_known_by_what_they_hold(v: Json)
    ensures
        match v {
            Json::Null => v@ == JsonView::Null,
            Json::Bool(b) => v@ == JsonView::Bool(b),
            Json::Int(n) => v@ == JsonView::Int(n),
            Json::Number => v@ == JsonView::Number,
            Json::Str(s) => v@ == JsonView::Str(s@),
            Json::Array(a) => {
                &&& v@ is Array
                &&& v@->Array_0.len() == a@.len()
                &&& forall|i: int| 0 <= i < a@.len() ==> #[trigger] v@->Array_0[i] == a@[i]@
            },
            Json::Object(m) => {
                &&& v@ is Object
                &&& v@->Object_0.len() == m@.len()
                &&& forall|i: int|
                    0 <= i < m@.len() ==> (#[trigger] v@->Object_0[i]).0 == m@[i].0@ && v@->Object_0[i].1 == m@[i].1@
            },
        },
{
}

/// A step with a delivery is known by what is to be done.
pub proof fn law_steps_are_known_by_what_is_to_be_done(s: Step, r: RoleStep, p: PlayerStep)
    ensures
        match s {
            Step::FetchKey { fresh } => s@ == (StepView::FetchKey { fresh }),
            Step::Record => s@ is Record,
            Step::Apply(list) => s@ is Apply && s@->Apply_0.len() == list@.len() && forall|i: int|
                0 <= i < list@.len() ==> #[trigger] s@->Apply_0[i] == list@[i]@,
            Step::Forget => s@ is Forget,
            Step::Reply { status, text } => s@ == (StepView::Reply { status, text: text@ }),
        },
        match r {
            RoleStep::Stop => r@ is Stop,
            RoleStep::Fail(e) => r@ == RoleStepView::Fail(e@),
            RoleStep::FetchMembers => r@ is FetchMembers,
            RoleStep::FetchLimit => r@ is FetchLimit,
            RoleStep::Find { query, limit } => r@ is Find && r@->statement == query.text@ && r@->channel
                == query.channel && r@->limit == limit && r@->binds.len() == query.binds@.len() && forall|i: int|
                0 <= i < query.binds@.len() ==> #[trigger] r@->binds[i] == query.binds@[i]@,
            RoleStep::CheckAnyone => r@ is CheckAnyone,
            RoleStep::Upload => r@ is Upload,
            RoleStep::UploadNobody => r@ is UploadNobody,
            RoleStep::Replace => r@ is Replace,
            RoleStep::Clear => r@ is Clear,
            RoleStep::DeleteOrphan => r@ is DeleteOrphan,
        },
        match p {
            PlayerStep::Stop => p@ is Stop,
            PlayerStep::Fail(e) => p@ == PlayerStepView::Fail(e@),
            PlayerStep::LookAtRoles => p@ is LookAtRoles,
            PlayerStep::LookAtFacts => p@ is LookAtFacts,
            PlayerStep::Change(list) => p@ is Change && p@->Change_0.len() == list@.len() && forall|i: int|
                0 <= i < list@.len() ==> #[trigger] p@->Change_0[i] == list@[i]@,
        },
{
}

/// An action is known by whether it gives or takes, and by the guild, the role and the token; a bound
/// value by its kind and itself.
pub proof fn law_actions_and_bound_values_are_known_by_what_they_hold(a: Action, b: Bind)
    ensures
        match a {
            Action::Add { guild_id, role_id, api_token } => a@ == (ActionView::Add {
                guild_id: guild_id@,
                role_id: role_id@,
                api_token: api_token@,
            }),
            Action::Remove { guild_id, role_id, api_token } => a@ == (ActionView::Remove {
                guild_id: guild_id@,
                role_id: role_id@,
                api_token: api_token@,
            }),
        },
        match b {
            Bind::Bool(x) => b@ == BindView::Bool(x),
            Bind::Int(n) => b@ == BindView::Int(n),
            Bind::Text(s) => b@ == BindView::Text(s@),
            Bind::TextArray(list) => b@ is TextArray && b@->TextArray_0.len() == list@.len() && forall|i: int|
                0 <= i < list@.len() ==> #[trigger] b@->TextArray_0[i] == list@[i]@,
        },
{
}

/// A rule is known by whether it grants on any relation and by its groups in their order, a group by its
/// conditions in theirs, and a condition by what it asks.
pub proof fn law_rules_are_known_by_what_they_ask(tree: RuleTree, g: ConditionGroup, c: Condition)
    ensures
        tree@.grant_on_any_relation == tree.grant_on_any_relation,
        tree@.groups.len() == tree.groups@.len(),
        forall|i: int| 0 <= i < tree.groups@.len() ==> #[trigger] tree@.groups[i] == tree.groups@[i]@,
        g@.len() == g.conditions@.len(),
        forall|i: int| 0 <= i < g.conditions@.len() ==> #[trigger] g@[i] == g.conditions@[i]@,
        c@.target == c.target,
        c@.operator == c.operator,
        c@.value == c.value@,
        c@.value_end is Some == c.value_end is Some,
        c.value_end is Some ==> c@.value_end->0 == c.value_end->0@,
{
}

/// A filter, a link and an outcome are known by what they hold, each under its own name.
pub proof fn law_records_are_known_by_what_they_hold(f: UserFilter, l: ViewerLink, o: ProbeOutcome)
    ensures
        f@.after is Some == f.after is Some,
        f.after is Some ==> f@.after->0 == f.after->0@,
        f@.updated_since == f.updated_since,
        f@.relation is Some == f.relation is Some,
        f.relation is Some ==> f@.relation->0 == f.relation->0@,
        f@.only_discord_id is Some == f.only_discord_id is Some,
        f.only_discord_id is Some ==> f@.only_discord_id->0 == f.only_discord_id->0@,
        f@.limit == f.limit,
        l@.discord_id == l.discord_id@,
        l@.kick_user_id == l.kick_user_id,
        l@.kick_username == l.kick_username@,
        l@.kick_created_at == l.kick_created_at,
        l@.is_og == l.is_og,
        l@.discord_name is Some == l.discord_name is Some,
        l.discord_name is Some ==> l@.discord_name->0 == l.discord_name->0@,
        match o {
            ProbeOutcome::Usable(facts) => o@ == OutcomeView::Usable(facts),
            ProbeOutcome::Unavailable(s) => o@ == OutcomeView::Unavailable(s@),
        },
{
}

} // verus!
