//! What roles come to: who gets one and who loses one, by which statement, and what follows from each
//! answer of the role service.

use vstd::prelude::*;
use vstd::std_specs::convert::FromSpec;
use vstd::string::*;

use crate::error::{AppError, ErrorView};
use crate::models::facts::{Facts, FactsView};
use crate::models::rule::RuleView;
use crate::services::condition_eval::evaluates;
use crate::services::player_sync::{facts_step, player_ending, PlayerStepView, PlayerWorld};
use crate::services::role_sync::{limit_step, role_ending, RoleStepView, RoleWorld};
use crate::services::rule_sql::{rule_binds, where_of, where_text};
use crate::services::sync::{
    action_on, actions_for, after_change, after_refused_info, after_upload, among, asks_facts, grants_nobody,
    members_statement, qualifies, ActionView, FactsRow, Followup, RoleLink, FACTS_SELECT, LINKED_MEMBERS,
    RULE_MEMBERS,
};
use crate::text::{contains_text, decimal, occurs_at};
use crate::time::Timestamp;

verus! {

/// A rule that grants on any relation is for whoever has linked an account; any other is for those of
/// whose facts, on the channel that is bound to it, it holds.
pub proof fn law_a_role_is_for_whom_its_rule_holds_of(
    tree: RuleView,
    channel: Option<i64>,
    is_linked: bool,
    facts: Option<FactsView>,
    now: Timestamp,
)
    ensures
        tree.grant_on_any_relation ==> qualifies(tree, channel, is_linked, facts, now) == is_linked,
        !tree.grant_on_any_relation && channel is Some && facts is Some ==> qualifies(
            tree,
            channel,
            is_linked,
            facts,
            now,
        ) == evaluates(tree, facts->0, now),
        !tree.grant_on_any_relation && (channel is None || facts is None) ==> !qualifies(
            tree,
            channel,
            is_linked,
            facts,
            now,
        ),
        asks_facts(tree, channel) == (!tree.grant_on_any_relation && channel is Some),
        grants_nobody(tree, channel) == (!tree.grant_on_any_relation && (channel is None || tree.groups.len() == 0)),
{
}

/// A role is given to who qualifies and does not have it, and taken from who has it and does not
/// qualify; it is that role of that guild, by the role's own token, and nothing else is done.
pub proof fn law_a_role_is_given_and_taken_as_its_own(link: RoleLink, due: bool, assigned: bool)
    ensures
        due && !assigned <==> action_on(link, due, assigned) == Some(
            ActionView::Add { guild_id: link.guild_id@, role_id: link.role_id@, api_token: link.api_token@ },
        ),
        !due && assigned <==> action_on(link, due, assigned) == Some(
            ActionView::Remove { guild_id: link.guild_id@, role_id: link.role_id@, api_token: link.api_token@ },
        ),
        due == assigned <==> action_on(link, due, assigned) is None,
{
}

/// Once a member was added or removed that is written down; a role that is gone has its link taken
/// out; any other failure is left to the next look.
pub proof fn law_a_change_is_followed_up(answer: Result<(), AppError>, r: Followup)
    requires
        call_ensures(after_change, (answer,), r),
    ensures
        r is Record <==> answer is Ok,
        r is DeleteOrphan <==> answer is Err && answer->Err_0 is RoleLinkNotFound,
        r is Nothing <==> answer is Err && !(answer->Err_0 is RoleLinkNotFound),
{
}

/// Once a role's members were replaced that is written down; a role that is gone has its link taken
/// out; any other failure is reported as it is.
pub proof fn law_an_upload_is_followed_up(answer: Result<(), AppError>, r: Followup)
    requires
        call_ensures(after_upload, (answer,), r),
    ensures
        r is Record <==> answer is Ok,
        r is DeleteOrphan <==> answer is Err && answer->Err_0 is RoleLinkNotFound,
        answer is Err && !(answer->Err_0 is RoleLinkNotFound) ==> r is Fail && r->Fail_0@ == answer->Err_0@,
{
}

/// Where a role does not tell how many members it may have: one that is gone has its link taken out,
/// one that is switched off is left alone, and any other failure is reported as it is.
pub proof fn law_a_refusal_is_followed_up(e: AppError, r: Followup)
    requires
        call_ensures(after_refused_info, (e,), r),
    ensures
        r is DeleteOrphan <==> e is RoleLinkNotFound,
        r is Nothing <==> e is RoleLinkDisabled,
        !(e is RoleLinkNotFound) && !(e is RoleLinkDisabled) ==> r is Fail && r->Fail_0@ == e@,
        !(r is Record),
{
}

/// A round over a role gives it to those whom the rule holds of, where they are not those who have it,
/// and writes that down once the role service took it up.
pub proof fn law_a_round_gives_the_role_to_whom_it_is_for(link: RoleLink, w: RoleWorld)
    requires
        !grants_nobody(link.tree@, link.kick_channel_id),
        w.members is Ok,
        w.members->Ok_0 > 0,
        w.limit is Ok,
        w.current != w.wanted,
    ensures
        role_ending(Some(link), w).given == Some(w.wanted),
        w.uploaded is Ok ==> role_ending(Some(link), w).last is Replace,
        w.uploaded == Err::<(), ErrorView>(ErrorView::RoleLinkNotFound) ==> role_ending(Some(link), w).last
            is DeleteOrphan,
        w.uploaded is Err && !(w.uploaded->Err_0 is RoleLinkNotFound) ==> role_ending(Some(link), w).last
            == RoleStepView::Fail(w.uploaded->Err_0),
{
}

/// A round over a role that nobody is to have, or in a guild without members, empties the role where
/// somebody has it, and writes down that nobody does.
pub proof fn law_a_round_empties_what_nobody_is_to_have(link: RoleLink, w: RoleWorld)
    requires
        grants_nobody(link.tree@, link.kick_channel_id) || w.members == Ok::<usize, ErrorView>(0usize),
    ensures
        w.anyone ==> role_ending(Some(link), w).given == Some(Seq::<Seq<char>>::empty()),
        !w.anyone ==> role_ending(Some(link), w).given is None && role_ending(Some(link), w).last is Stop,
        w.anyone && w.uploaded is Ok ==> role_ending(Some(link), w).last is Clear,
        w.anyone && w.uploaded == Err::<(), ErrorView>(ErrorView::RoleLinkNotFound) ==> role_ending(
            Some(link),
            w,
        ).last is DeleteOrphan,
        role_ending(None, w).given is None,
        role_ending(None, w).last is Stop,
{
}

/// A round over a role that does not tell how many members it may have touches nothing: a link is
/// taken out where the role is gone, and left where the role is switched off.
pub proof fn law_a_round_stops_at_a_refusal(link: RoleLink, w: RoleWorld)
    requires
        !grants_nobody(link.tree@, link.kick_channel_id),
        w.members is Ok,
        w.members->Ok_0 > 0,
        w.limit is Err,
    ensures
        role_ending(Some(link), w).given is None,
        role_ending(Some(link), w).last is DeleteOrphan <==> w.limit->Err_0 is RoleLinkNotFound,
        role_ending(Some(link), w).last is Stop <==> w.limit->Err_0 is RoleLinkDisabled,
        !(w.limit->Err_0 is RoleLinkNotFound) && !(w.limit->Err_0 is RoleLinkDisabled) ==> role_ending(
            Some(link),
            w,
        ).last == RoleStepView::Fail(w.limit->Err_0),
{
}

/// A round over a member in no guild, or with no roles, ends at once; any other does what is due.
pub proof fn law_a_round_does_what_is_due(w: PlayerWorld)
    ensures
        w.guilds is Err ==> player_ending(w) == PlayerStepView::Fail(w.guilds->Err_0),
        w.guilds == Ok::<usize, ErrorView>(0usize) || w.links.len() == 0 && w.guilds is Ok ==> player_ending(w) is Stop,
        w.guilds is Ok && w.guilds->Ok_0 > 0 && w.links.len() > 0 ==> {
            let due = actions_for(w.links, w.facts, w.member, w.now);
            &&& due.len() == 0 ==> player_ending(w) is Stop
            &&& due.len() > 0 ==> player_ending(w) == PlayerStepView::Change(due)
        },
        facts_step(w.links, w.facts, w.member, w.now) is Stop || facts_step(w.links, w.facts, w.member, w.now)
            is Change,
{
}

/// The facts are those that the row was read with, each under its own name.
pub proof fn law_facts_are_read_by_name(r: FactsRow)
    ensures
        ({
            let f = <Facts as FromSpec<FactsRow>>::from_spec(r);
            &&& f.is_follower == r.is_follower
            &&& f.followed_at == r.followed_at
            &&& f.is_subscriber == r.is_subscriber
            &&& f.sub_months_cumulative == r.sub_months_cumulative
            &&& f.sub_streak_months == r.sub_streak_months
            &&& f.sub_is_gift == r.sub_is_gift
            &&& f.gifted_subs_given == r.gifted_subs_given
            &&& f.is_vip == r.is_vip
            &&& f.is_moderator == r.is_moderator
            &&& f.kicks_donated == r.kicks_donated
            &&& f.chat_messages_30d == r.chat_messages_30d
            &&& f.is_og == r.is_og
            &&& f.kick_created_at == Some(r.kick_created_at)
            &&& f.country_code == r.country_code
            &&& f.username == r.kick_username
            &&& f@.is_vip == f.is_vip
            &&& f@.is_moderator == f.is_moderator
            &&& f@.is_og == f.is_og
            &&& f@.is_follower == f.is_follower
            &&& f@.is_subscriber == f.is_subscriber
            &&& f@.sub_is_gift == f.sub_is_gift
            &&& f@.sub_months_cumulative == f.sub_months_cumulative
            &&& f@.sub_streak_months == f.sub_streak_months
            &&& f@.gifted_subs_given == f.gifted_subs_given
            &&& f@.kicks_donated == f.kicks_donated
            &&& f@.chat_messages_30d == f.chat_messages_30d
            &&& f@.followed_at == f.followed_at
            &&& f@.kick_created_at == f.kick_created_at
            &&& f@.username == f.username@
        }),
{
}

/// The statements that read facts and find members do so by the columns' own names, for the member,
/// the channel and the guild's members that they are given.
#[verifier::spinoff_prover]
#[verifier::rlimit(100)]
pub proof fn law_facts_and_members_are_read_by_name()
    ensures
        FACTS_SELECT@.len() == 999,
        LINKED_MEMBERS@.len() == 97,
        RULE_MEMBERS@.len() == 188,
        contains_text(FACTS_SELECT@, "COALESCE(cr.is_follower, false)        AS is_follower, "@),
        contains_text(FACTS_SELECT@, "cr.followed_at                         AS followed_at, "@),
        contains_text(FACTS_SELECT@, "COALESCE(cr.is_subscriber, false)      AS is_subscriber, "@),
        contains_text(FACTS_SELECT@, "COALESCE(cr.sub_months_cumulative, 0)  AS sub_months_cumulative, "@),
        contains_text(FACTS_SELECT@, "COALESCE(cr.sub_streak_months, 0)      AS sub_streak_months, "@),
        contains_text(FACTS_SELECT@, "COALESCE(cr.sub_is_gift, false)        AS sub_is_gift, "@),
        contains_text(FACTS_SELECT@, "COALESCE(cr.gifted_subs_given, 0)      AS gifted_subs_given, "@),
        contains_text(FACTS_SELECT@, "COALESCE(cr.is_vip, false)             AS is_vip, "@),
        contains_text(FACTS_SELECT@, "COALESCE(cr.is_moderator, false)       AS is_moderator, "@),
        contains_text(FACTS_SELECT@, "COALESCE(cr.kicks_donated, 0)          AS kicks_donated, "@),
        contains_text(FACTS_SELECT@, "COALESCE(cr.chat_messages_30d, 0)      AS chat_messages_30d, "@),
        contains_text(FACTS_SELECT@, "ku.is_og                               AS is_og, "@),
        contains_text(FACTS_SELECT@, "ku.kick_created_at                     AS kick_created_at, "@),
        contains_text(FACTS_SELECT@, "ku.country_code                        AS country_code, "@),
        contains_text(FACTS_SELECT@, "ku.kick_username                       AS kick_username "@),
        contains_text(FACTS_SELECT@, "FROM kick_users ku "@),
        contains_text(FACTS_SELECT@, "ON cr.kick_user_id = ku.kick_user_id AND cr.kick_channel_id = $2 "@),
        contains_text(FACTS_SELECT@, "WHERE ku.discord_id = $1"@),
        contains_text(LINKED_MEMBERS@, "SELECT discord_id FROM kick_users "@),
        contains_text(LINKED_MEMBERS@, "WHERE discord_id = ANY($1::text[]) "@),
        contains_text(LINKED_MEMBERS@, "ORDER BY discord_id LIMIT $2"@),
        contains_text(RULE_MEMBERS@, "SELECT DISTINCT ku.discord_id FROM kick_users ku "@),
        contains_text(RULE_MEMBERS@, "LEFT JOIN channel_relations cr "@),
        contains_text(RULE_MEMBERS@, "ON cr.kick_user_id = ku.kick_user_id AND cr.kick_channel_id = $1 "@),
        contains_text(RULE_MEMBERS@, "WHERE ku.discord_id = ANY($2::text[]) AND ("@),
{
    assert(FACTS_SELECT@.len() == 999) by {
        reveal_strlit("SELECT COALESCE(cr.is_follower, false)        AS is_follower, cr.followed_at                         AS followed_at, COALESCE(cr.is_subscriber, false)      AS is_subscriber, COALESCE(cr.sub_months_cumulative, 0)  AS sub_months_cumulative, COALESCE(cr.sub_streak_months, 0)      AS sub_streak_months, COALESCE(cr.sub_is_gift, false)        AS sub_is_gift, COALESCE(cr.gifted_subs_given, 0)      AS gifted_subs_given, COALESCE(cr.is_vip, false)             AS is_vip, COALESCE(cr.is_moderator, false)       AS is_moderator, COALESCE(cr.kicks_donated, 0)          AS kicks_donated, COALESCE(cr.chat_messages_30d, 0)      AS chat_messages_30d, ku.is_og                               AS is_og, ku.kick_created_at                     AS kick_created_at, ku.country_code                        AS country_code, ku.kick_username                       AS kick_username FROM kick_users ku LEFT JOIN channel_relations cr ON cr.kick_user_id = ku.kick_user_id AND cr.kick_channel_id = $2 WHERE ku.discord_id = $1");
    }
    assert(LINKED_MEMBERS@.len() == 97) by {
        reveal_strlit("SELECT discord_id FROM kick_users WHERE discord_id = ANY($1::text[]) ORDER BY discord_id LIMIT $2");
    }
    assert(RULE_MEMBERS@.len() == 188) by {
        reveal_strlit("SELECT DISTINCT ku.discord_id FROM kick_users ku LEFT JOIN channel_relations cr ON cr.kick_user_id = ku.kick_user_id AND cr.kick_channel_id = $1 WHERE ku.discord_id = ANY($2::text[]) AND (");
    }
    assert(occurs_at(FACTS_SELECT@, "COALESCE(cr.is_follower, false)        AS is_follower, "@, 7)) by {
        reveal_strlit("SELECT COALESCE(cr.is_follower, false)        AS is_follower, cr.followed_at                         AS followed_at, COALESCE(cr.is_subscriber, false)      AS is_subscriber, COALESCE(cr.sub_months_cumulative, 0)  AS sub_months_cumulative, COALESCE(cr.sub_streak_months, 0)      AS sub_streak_months, COALESCE(cr.sub_is_gift, false)        AS sub_is_gift, COALESCE(cr.gifted_subs_given, 0)      AS gifted_subs_given, COALESCE(cr.is_vip, false)             AS is_vip, COALESCE(cr.is_moderator, false)       AS is_moderator, COALESCE(cr.kicks_donated, 0)          AS kicks_donated, COALESCE(cr.chat_messages_30d, 0)      AS chat_messages_30d, ku.is_og                               AS is_og, ku.kick_created_at                     AS kick_created_at, ku.country_code                        AS country_code, ku.kick_username                       AS kick_username FROM kick_users ku LEFT JOIN channel_relations cr ON cr.kick_user_id = ku.kick_user_id AND cr.kick_channel_id = $2 WHERE ku.discord_id = $1");
        reveal_strlit("COALESCE(cr.is_follower, false)        AS is_follower, ");
        assert(FACTS_SELECT@.subrange(7, 62) =~= "COALESCE(cr.is_follower, false)        AS is_follower, "@);
    }
    assert(occurs_at(FACTS_SELECT@, "cr.followed_at                         AS followed_at, "@, 62)) by {
        reveal_strlit("SELECT COALESCE(cr.is_follower, false)        AS is_follower, cr.followed_at                         AS followed_at, COALESCE(cr.is_subscriber, false)      AS is_subscriber, COALESCE(cr.sub_months_cumulative, 0)  AS sub_months_cumulative, COALESCE(cr.sub_streak_months, 0)      AS sub_streak_months, COALESCE(cr.sub_is_gift, false)        AS sub_is_gift, COALESCE(cr.gifted_subs_given, 0)      AS gifted_subs_given, COALESCE(cr.is_vip, false)             AS is_vip, COALESCE(cr.is_moderator, false)       AS is_moderator, COALESCE(cr.kicks_donated, 0)          AS kicks_donated, COALESCE(cr.chat_messages_30d, 0)      AS chat_messages_30d, ku.is_og                               AS is_og, ku.kick_created_at                     AS kick_created_at, ku.country_code                        AS country_code, ku.kick_username                       AS kick_username FROM kick_users ku LEFT JOIN channel_relations cr ON cr.kick_user_id = ku.kick_user_id AND cr.kick_channel_id = $2 WHERE ku.discord_id = $1");
        reveal_strlit("cr.followed_at                         AS followed_at, ");
        assert(FACTS_SELECT@.subrange(62, 117) =~= "cr.followed_at                         AS followed_at, "@);
    }
    assert(occurs_at(FACTS_SELECT@, "COALESCE(cr.is_subscriber, false)      AS is_subscriber, "@, 117)) by {
        reveal_strlit("SELECT COALESCE(cr.is_follower, false)        AS is_follower, cr.followed_at                         AS followed_at, COALESCE(cr.is_subscriber, false)      AS is_subscriber, COALESCE(cr.sub_months_cumulative, 0)  AS sub_months_cumulative, COALESCE(cr.sub_streak_months, 0)      AS sub_streak_months, COALESCE(cr.sub_is_gift, false)        AS sub_is_gift, COALESCE(cr.gifted_subs_given, 0)      AS gifted_subs_given, COALESCE(cr.is_vip, false)             AS is_vip, COALESCE(cr.is_moderator, false)       AS is_moderator, COALESCE(cr.kicks_donated, 0)          AS kicks_donated, COALESCE(cr.chat_messages_30d, 0)      AS chat_messages_30d, ku.is_og                               AS is_og, ku.kick_created_at                     AS kick_created_at, ku.country_code                        AS country_code, ku.kick_username                       AS kick_username FROM kick_users ku LEFT JOIN channel_relations cr ON cr.kick_user_id = ku.kick_user_id AND cr.kick_channel_id = $2 WHERE ku.discord_id = $1");
        reveal_strlit("COALESCE(cr.is_subscriber, false)      AS is_subscriber, ");
        assert(FACTS_SELECT@.subrange(117, 174) =~= "COALESCE(cr.is_subscriber, false)      AS is_subscriber, "@);
    }
    assert(occurs_at(FACTS_SELECT@, "COALESCE(cr.sub_months_cumulative, 0)  AS sub_months_cumulative, "@, 174)) by {
        reveal_strlit("SELECT COALESCE(cr.is_follower, false)        AS is_follower, cr.followed_at                         AS followed_at, COALESCE(cr.is_subscriber, false)      AS is_subscriber, COALESCE(cr.sub_months_cumulative, 0)  AS sub_months_cumulative, COALESCE(cr.sub_streak_months, 0)      AS sub_streak_months, COALESCE(cr.sub_is_gift, false)        AS sub_is_gift, COALESCE(cr.gifted_subs_given, 0)      AS gifted_subs_given, COALESCE(cr.is_vip, false)             AS is_vip, COALESCE(cr.is_moderator, false)       AS is_moderator, COALESCE(cr.kicks_donated, 0)          AS kicks_donated, COALESCE(cr.chat_messages_30d, 0)      AS chat_messages_30d, ku.is_og                               AS is_og, ku.kick_created_at                     AS kick_created_at, ku.country_code                        AS country_code, ku.kick_username                       AS kick_username FROM kick_users ku LEFT JOIN channel_relations cr ON cr.kick_user_id = ku.kick_user_id AND cr.kick_channel_id = $2 WHERE ku.discord_id = $1");
        reveal_strlit("COALESCE(cr.sub_months_cumulative, 0)  AS sub_months_cumulative, ");
        assert(FACTS_SELECT@.subrange(174, 239) =~= "COALESCE(cr.sub_months_cumulative, 0)  AS sub_months_cumulative, "@);
    }
    assert(occurs_at(FACTS_SELECT@, "COALESCE(cr.sub_streak_months, 0)      AS sub_streak_months, "@, 239)) by {
        reveal_strlit("SELECT COALESCE(cr.is_follower, false)        AS is_follower, cr.followed_at                         AS followed_at, COALESCE(cr.is_subscriber, false)      AS is_subscriber, COALESCE(cr.sub_months_cumulative, 0)  AS sub_months_cumulative, COALESCE(cr.sub_streak_months, 0)      AS sub_streak_months, COALESCE(cr.sub_is_gift, false)        AS sub_is_gift, COALESCE(cr.gifted_subs_given, 0)      AS gifted_subs_given, COALESCE(cr.is_vip, false)             AS is_vip, COALESCE(cr.is_moderator, false)       AS is_moderator, COALESCE(cr.kicks_donated, 0)          AS kicks_donated, COALESCE(cr.chat_messages_30d, 0)      AS chat_messages_30d, ku.is_og                               AS is_og, ku.kick_created_at                     AS kick_created_at, ku.country_code                        AS country_code, ku.kick_username                       AS kick_username FROM kick_users ku LEFT JOIN channel_relations cr ON cr.kick_user_id = ku.kick_user_id AND cr.kick_channel_id = $2 WHERE ku.discord_id = $1");
        reveal_strlit("COALESCE(cr.sub_streak_months, 0)      AS sub_streak_months, ");
        assert(FACTS_SELECT@.subrange(239, 300) =~= "COALESCE(cr.sub_streak_months, 0)      AS sub_streak_months, "@);
    }
    assert(occurs_at(FACTS_SELECT@, "COALESCE(cr.sub_is_gift, false)        AS sub_is_gift, "@, 300)) by {
        reveal_strlit("SELECT COALESCE(cr.is_follower, false)        AS is_follower, cr.followed_at                         AS followed_at, COALESCE(cr.is_subscriber, false)      AS is_subscriber, COALESCE(cr.sub_months_cumulative, 0)  AS sub_months_cumulative, COALESCE(cr.sub_streak_months, 0)      AS sub_streak_months, COALESCE(cr.sub_is_gift, false)        AS sub_is_gift, COALESCE(cr.gifted_subs_given, 0)      AS gifted_subs_given, COALESCE(cr.is_vip, false)             AS is_vip, COALESCE(cr.is_moderator, false)       AS is_moderator, COALESCE(cr.kicks_donated, 0)          AS kicks_donated, COALESCE(cr.chat_messages_30d, 0)      AS chat_messages_30d, ku.is_og                               AS is_og, ku.kick_created_at                     AS kick_created_at, ku.country_code                        AS country_code, ku.kick_username                       AS kick_username FROM kick_users ku LEFT JOIN channel_relations cr ON cr.kick_user_id = ku.kick_user_id AND cr.kick_channel_id = $2 WHERE ku.discord_id = $1");
        reveal_strlit("COALESCE(cr.sub_is_gift, false)        AS sub_is_gift, ");
        assert(FACTS_SELECT@.subrange(300, 355) =~= "COALESCE(cr.sub_is_gift, false)        AS sub_is_gift, "@);
    }
    assert(occurs_at(FACTS_SELECT@, "COALESCE(cr.gifted_subs_given, 0)      AS gifted_subs_given, "@, 355)) by {
        reveal_strlit("SELECT COALESCE(cr.is_follower, false)        AS is_follower, cr.followed_at                         AS followed_at, COALESCE(cr.is_subscriber, false)      AS is_subscriber, COALESCE(cr.sub_months_cumulative, 0)  AS sub_months_cumulative, COALESCE(cr.sub_streak_months, 0)      AS sub_streak_months, COALESCE(cr.sub_is_gift, false)        AS sub_is_gift, COALESCE(cr.gifted_subs_given, 0)      AS gifted_subs_given, COALESCE(cr.is_vip, false)             AS is_vip, COALESCE(cr.is_moderator, false)       AS is_moderator, COALESCE(cr.kicks_donated, 0)          AS kicks_donated, COALESCE(cr.chat_messages_30d, 0)      AS chat_messages_30d, ku.is_og                               AS is_og, ku.kick_created_at                     AS kick_created_at, ku.country_code                        AS country_code, ku.kick_username                       AS kick_username FROM kick_users ku LEFT JOIN channel_relations cr ON cr.kick_user_id = ku.kick_user_id AND cr.kick_channel_id = $2 WHERE ku.discord_id = $1");
        reveal_strlit("COALESCE(cr.gifted_subs_given, 0)      AS gifted_subs_given, ");
        assert(FACTS_SELECT@.subrange(355, 416) =~= "COALESCE(cr.gifted_subs_given, 0)      AS gifted_subs_given, "@);
    }
    assert(occurs_at(FACTS_SELECT@, "COALESCE(cr.is_vip, false)             AS is_vip, "@, 416)) by {
        reveal_strlit("SELECT COALESCE(cr.is_follower, false)        AS is_follower, cr.followed_at                         AS followed_at, COALESCE(cr.is_subscriber, false)      AS is_subscriber, COALESCE(cr.sub_months_cumulative, 0)  AS sub_months_cumulative, COALESCE(cr.sub_streak_months, 0)      AS sub_streak_months, COALESCE(cr.sub_is_gift, false)        AS sub_is_gift, COALESCE(cr.gifted_subs_given, 0)      AS gifted_subs_given, COALESCE(cr.is_vip, false)             AS is_vip, COALESCE(cr.is_moderator, false)       AS is_moderator, COALESCE(cr.kicks_donated, 0)          AS kicks_donated, COALESCE(cr.chat_messages_30d, 0)      AS chat_messages_30d, ku.is_og                               AS is_og, ku.kick_created_at                     AS kick_created_at, ku.country_code                        AS country_code, ku.kick_username                       AS kick_username FROM kick_users ku LEFT JOIN channel_relations cr ON cr.kick_user_id = ku.kick_user_id AND cr.kick_channel_id = $2 WHERE ku.discord_id = $1");
        reveal_strlit("COALESCE(cr.is_vip, false)             AS is_vip, ");
        assert(FACTS_SELECT@.subrange(416, 466) =~= "COALESCE(cr.is_vip, false)             AS is_vip, "@);
    }
    assert(occurs_at(FACTS_SELECT@, "COALESCE(cr.is_moderator, false)       AS is_moderator, "@, 466)) by {
        reveal_strlit("SELECT COALESCE(cr.is_follower, false)        AS is_follower, cr.followed_at                         AS followed_at, COALESCE(cr.is_subscriber, false)      AS is_subscriber, COALESCE(cr.sub_months_cumulative, 0)  AS sub_months_cumulative, COALESCE(cr.sub_streak_months, 0)      AS sub_streak_months, COALESCE(cr.sub_is_gift, false)        AS sub_is_gift, COALESCE(cr.gifted_subs_given, 0)      AS gifted_subs_given, COALESCE(cr.is_vip, false)             AS is_vip, COALESCE(cr.is_moderator, false)       AS is_moderator, COALESCE(cr.kicks_donated, 0)          AS kicks_donated, COALESCE(cr.chat_messages_30d, 0)      AS chat_messages_30d, ku.is_og                               AS is_og, ku.kick_created_at                     AS kick_created_at, ku.country_code                        AS country_code, ku.kick_username                       AS kick_username FROM kick_users ku LEFT JOIN channel_relations cr ON cr.kick_user_id = ku.kick_user_id AND cr.kick_channel_id = $2 WHERE ku.discord_id = $1");
        reveal_strlit("COALESCE(cr.is_moderator, false)       AS is_moderator, ");
        assert(FACTS_SELECT@.subrange(466, 522) =~= "COALESCE(cr.is_moderator, false)       AS is_moderator, "@);
    }
    assert(occurs_at(FACTS_SELECT@, "COALESCE(cr.kicks_donated, 0)          AS kicks_donated, "@, 522)) by {
        reveal_strlit("SELECT COALESCE(cr.is_follower, false)        AS is_follower, cr.followed_at                         AS followed_at, COALESCE(cr.is_subscriber, false)      AS is_subscriber, COALESCE(cr.sub_months_cumulative, 0)  AS sub_months_cumulative, COALESCE(cr.sub_streak_months, 0)      AS sub_streak_months, COALESCE(cr.sub_is_gift, false)        AS sub_is_gift, COALESCE(cr.gifted_subs_given, 0)      AS gifted_subs_given, COALESCE(cr.is_vip, false)             AS is_vip, COALESCE(cr.is_moderator, false)       AS is_moderator, COALESCE(cr.kicks_donated, 0)          AS kicks_donated, COALESCE(cr.chat_messages_30d, 0)      AS chat_messages_30d, ku.is_og                               AS is_og, ku.kick_created_at                     AS kick_created_at, ku.country_code                        AS country_code, ku.kick_username                       AS kick_username FROM kick_users ku LEFT JOIN channel_relations cr ON cr.kick_user_id = ku.kick_user_id AND cr.kick_channel_id = $2 WHERE ku.discord_id = $1");
        reveal_strlit("COALESCE(cr.kicks_donated, 0)          AS kicks_donated, ");
        assert(FACTS_SELECT@.subrange(522, 579) =~= "COALESCE(cr.kicks_donated, 0)          AS kicks_donated, "@);
    }
    assert(occurs_at(FACTS_SELECT@, "COALESCE(cr.chat_messages_30d, 0)      AS chat_messages_30d, "@, 579)) by {
        reveal_strlit("SELECT COALESCE(cr.is_follower, false)        AS is_follower, cr.followed_at                         AS followed_at, COALESCE(cr.is_subscriber, false)      AS is_subscriber, COALESCE(cr.sub_months_cumulative, 0)  AS sub_months_cumulative, COALESCE(cr.sub_streak_months, 0)      AS sub_streak_months, COALESCE(cr.sub_is_gift, false)        AS sub_is_gift, COALESCE(cr.gifted_subs_given, 0)      AS gifted_subs_given, COALESCE(cr.is_vip, false)             AS is_vip, COALESCE(cr.is_moderator, false)       AS is_moderator, COALESCE(cr.kicks_donated, 0)          AS kicks_donated, COALESCE(cr.chat_messages_30d, 0)      AS chat_messages_30d, ku.is_og                               AS is_og, ku.kick_created_at                     AS kick_created_at, ku.country_code                        AS country_code, ku.kick_username                       AS kick_username FROM kick_users ku LEFT JOIN channel_relations cr ON cr.kick_user_id = ku.kick_user_id AND cr.kick_channel_id = $2 WHERE ku.discord_id = $1");
        reveal_strlit("COALESCE(cr.chat_messages_30d, 0)      AS chat_messages_30d, ");
        assert(FACTS_SELECT@.subrange(579, 640) =~= "COALESCE(cr.chat_messages_30d, 0)      AS chat_messages_30d, "@);
    }
    assert(occurs_at(FACTS_SELECT@, "ku.is_og                               AS is_og, "@, 640)) by {
        reveal_strlit("SELECT COALESCE(cr.is_follower, false)        AS is_follower, cr.followed_at                         AS followed_at, COALESCE(cr.is_subscriber, false)      AS is_subscriber, COALESCE(cr.sub_months_cumulative, 0)  AS sub_months_cumulative, COALESCE(cr.sub_streak_months, 0)      AS sub_streak_months, COALESCE(cr.sub_is_gift, false)        AS sub_is_gift, COALESCE(cr.gifted_subs_given, 0)      AS gifted_subs_given, COALESCE(cr.is_vip, false)             AS is_vip, COALESCE(cr.is_moderator, false)       AS is_moderator, COALESCE(cr.kicks_donated, 0)          AS kicks_donated, COALESCE(cr.chat_messages_30d, 0)      AS chat_messages_30d, ku.is_og                               AS is_og, ku.kick_created_at                     AS kick_created_at, ku.country_code                        AS country_code, ku.kick_username                       AS kick_username FROM kick_users ku LEFT JOIN channel_relations cr ON cr.kick_user_id = ku.kick_user_id AND cr.kick_channel_id = $2 WHERE ku.discord_id = $1");
        reveal_strlit("ku.is_og                               AS is_og, ");
        assert(FACTS_SELECT@.subrange(640, 689) =~= "ku.is_og                               AS is_og, "@);
    }
    assert(occurs_at(FACTS_SELECT@, "ku.kick_created_at                     AS kick_created_at, "@, 689)) by {
        reveal_strlit("SELECT COALESCE(cr.is_follower, false)        AS is_follower, cr.followed_at                         AS followed_at, COALESCE(cr.is_subscriber, false)      AS is_subscriber, COALESCE(cr.sub_months_cumulative, 0)  AS sub_months_cumulative, COALESCE(cr.sub_streak_months, 0)      AS sub_streak_months, COALESCE(cr.sub_is_gift, false)        AS sub_is_gift, COALESCE(cr.gifted_subs_given, 0)      AS gifted_subs_given, COALESCE(cr.is_vip, false)             AS is_vip, COALESCE(cr.is_moderator, false)       AS is_moderator, COALESCE(cr.kicks_donated, 0)          AS kicks_donated, COALESCE(cr.chat_messages_30d, 0)      AS chat_messages_30d, ku.is_og                               AS is_og, ku.kick_created_at                     AS kick_created_at, ku.country_code                        AS country_code, ku.kick_username                       AS kick_username FROM kick_users ku LEFT JOIN channel_relations cr ON cr.kick_user_id = ku.kick_user_id AND cr.kick_channel_id = $2 WHERE ku.discord_id = $1");
        reveal_strlit("ku.kick_created_at                     AS kick_created_at, ");
        assert(FACTS_SELECT@.subrange(689, 748) =~= "ku.kick_created_at                     AS kick_created_at, "@);
    }
    assert(occurs_at(FACTS_SELECT@, "ku.country_code                        AS country_code, "@, 748)) by {
        reveal_strlit("SELECT COALESCE(cr.is_follower, false)        AS is_follower, cr.followed_at                         AS followed_at, COALESCE(cr.is_subscriber, false)      AS is_subscriber, COALESCE(cr.sub_months_cumulative, 0)  AS sub_months_cumulative, COALESCE(cr.sub_streak_months, 0)      AS sub_streak_months, COALESCE(cr.sub_is_gift, false)        AS sub_is_gift, COALESCE(cr.gifted_subs_given, 0)      AS gifted_subs_given, COALESCE(cr.is_vip, false)             AS is_vip, COALESCE(cr.is_moderator, false)       AS is_moderator, COALESCE(cr.kicks_donated, 0)          AS kicks_donated, COALESCE(cr.chat_messages_30d, 0)      AS chat_messages_30d, ku.is_og                               AS is_og, ku.kick_created_at                     AS kick_created_at, ku.country_code                        AS country_code, ku.kick_username                       AS kick_username FROM kick_users ku LEFT JOIN channel_relations cr ON cr.kick_user_id = ku.kick_user_id AND cr.kick_channel_id = $2 WHERE ku.discord_id = $1");
        reveal_strlit("ku.country_code                        AS country_code, ");
        assert(FACTS_SELECT@.subrange(748, 804) =~= "ku.country_code                        AS country_code, "@);
    }
    assert(occurs_at(FACTS_SELECT@, "ku.kick_username                       AS kick_username "@, 804)) by {
        reveal_strlit("SELECT COALESCE(cr.is_follower, false)        AS is_follower, cr.followed_at                         AS followed_at, COALESCE(cr.is_subscriber, false)      AS is_subscriber, COALESCE(cr.sub_months_cumulative, 0)  AS sub_months_cumulative, COALESCE(cr.sub_streak_months, 0)      AS sub_streak_months, COALESCE(cr.sub_is_gift, false)        AS sub_is_gift, COALESCE(cr.gifted_subs_given, 0)      AS gifted_subs_given, COALESCE(cr.is_vip, false)             AS is_vip, COALESCE(cr.is_moderator, false)       AS is_moderator, COALESCE(cr.kicks_donated, 0)          AS kicks_donated, COALESCE(cr.chat_messages_30d, 0)      AS chat_messages_30d, ku.is_og                               AS is_og, ku.kick_created_at                     AS kick_created_at, ku.country_code                        AS country_code, ku.kick_username                       AS kick_username FROM kick_users ku LEFT JOIN channel_relations cr ON cr.kick_user_id = ku.kick_user_id AND cr.kick_channel_id = $2 WHERE ku.discord_id = $1");
        reveal_strlit("ku.kick_username                       AS kick_username ");
        assert(FACTS_SELECT@.subrange(804, 860) =~= "ku.kick_username                       AS kick_username "@);
    }
    assert(occurs_at(FACTS_SELECT@, "FROM kick_users ku "@, 860)) by {
        reveal_strlit("SELECT COALESCE(cr.is_follower, false)        AS is_follower, cr.followed_at                         AS followed_at, COALESCE(cr.is_subscriber, false)      AS is_subscriber, COALESCE(cr.sub_months_cumulative, 0)  AS sub_months_cumulative, COALESCE(cr.sub_streak_months, 0)      AS sub_streak_months, COALESCE(cr.sub_is_gift, false)        AS sub_is_gift, COALESCE(cr.gifted_subs_given, 0)      AS gifted_subs_given, COALESCE(cr.is_vip, false)             AS is_vip, COALESCE(cr.is_moderator, false)       AS is_moderator, COALESCE(cr.kicks_donated, 0)          AS kicks_donated, COALESCE(cr.chat_messages_30d, 0)      AS chat_messages_30d, ku.is_og                               AS is_og, ku.kick_created_at                     AS kick_created_at, ku.country_code                        AS country_code, ku.kick_username                       AS kick_username FROM kick_users ku LEFT JOIN channel_relations cr ON cr.kick_user_id = ku.kick_user_id AND cr.kick_channel_id = $2 WHERE ku.discord_id = $1");
        reveal_strlit("FROM kick_users ku ");
        assert(FACTS_SELECT@.subrange(860, 879) =~= "FROM kick_users ku "@);
    }
    assert(occurs_at(FACTS_SELECT@, "ON cr.kick_user_id = ku.kick_user_id AND cr.kick_channel_id = $2 "@, 910)) by {
        reveal_strlit("SELECT COALESCE(cr.is_follower, false)        AS is_follower, cr.followed_at                         AS followed_at, COALESCE(cr.is_subscriber, false)      AS is_subscriber, COALESCE(cr.sub_months_cumulative, 0)  AS sub_months_cumulative, COALESCE(cr.sub_streak_months, 0)      AS sub_streak_months, COALESCE(cr.sub_is_gift, false)        AS sub_is_gift, COALESCE(cr.gifted_subs_given, 0)      AS gifted_subs_given, COALESCE(cr.is_vip, false)             AS is_vip, COALESCE(cr.is_moderator, false)       AS is_moderator, COALESCE(cr.kicks_donated, 0)          AS kicks_donated, COALESCE(cr.chat_messages_30d, 0)      AS chat_messages_30d, ku.is_og                               AS is_og, ku.kick_created_at                     AS kick_created_at, ku.country_code                        AS country_code, ku.kick_username                       AS kick_username FROM kick_users ku LEFT JOIN channel_relations cr ON cr.kick_user_id = ku.kick_user_id AND cr.kick_channel_id = $2 WHERE ku.discord_id = $1");
        reveal_strlit("ON cr.kick_user_id = ku.kick_user_id AND cr.kick_channel_id = $2 ");
        assert(FACTS_SELECT@.subrange(910, 975) =~= "ON cr.kick_user_id = ku.kick_user_id AND cr.kick_channel_id = $2 "@);
    }
    assert(occurs_at(FACTS_SELECT@, "WHERE ku.discord_id = $1"@, 975)) by {
        reveal_strlit("SELECT COALESCE(cr.is_follower, false)        AS is_follower, cr.followed_at                         AS followed_at, COALESCE(cr.is_subscriber, false)      AS is_subscriber, COALESCE(cr.sub_months_cumulative, 0)  AS sub_months_cumulative, COALESCE(cr.sub_streak_months, 0)      AS sub_streak_months, COALESCE(cr.sub_is_gift, false)        AS sub_is_gift, COALESCE(cr.gifted_subs_given, 0)      AS gifted_subs_given, COALESCE(cr.is_vip, false)             AS is_vip, COALESCE(cr.is_moderator, false)       AS is_moderator, COALESCE(cr.kicks_donated, 0)          AS kicks_donated, COALESCE(cr.chat_messages_30d, 0)      AS chat_messages_30d, ku.is_og                               AS is_og, ku.kick_created_at                     AS kick_created_at, ku.country_code                        AS country_code, ku.kick_username                       AS kick_username FROM kick_users ku LEFT JOIN channel_relations cr ON cr.kick_user_id = ku.kick_user_id AND cr.kick_channel_id = $2 WHERE ku.discord_id = $1");
        reveal_strlit("WHERE ku.discord_id = $1");
        assert(FACTS_SELECT@.subrange(975, 999) =~= "WHERE ku.discord_id = $1"@);
    }
    assert(occurs_at(LINKED_MEMBERS@, "SELECT discord_id FROM kick_users "@, 0)) by {
        reveal_strlit("SELECT discord_id FROM kick_users WHERE discord_id = ANY($1::text[]) ORDER BY discord_id LIMIT $2");
        reveal_strlit("SELECT discord_id FROM kick_users ");
        assert(LINKED_MEMBERS@.subrange(0, 34) =~= "SELECT discord_id FROM kick_users "@);
    }
    assert(occurs_at(LINKED_MEMBERS@, "WHERE discord_id = ANY($1::text[]) "@, 34)) by {
        reveal_strlit("SELECT discord_id FROM kick_users WHERE discord_id = ANY($1::text[]) ORDER BY discord_id LIMIT $2");
        reveal_strlit("WHERE discord_id = ANY($1::text[]) ");
        assert(LINKED_MEMBERS@.subrange(34, 69) =~= "WHERE discord_id = ANY($1::text[]) "@);
    }
    assert(occurs_at(LINKED_MEMBERS@, "ORDER BY discord_id LIMIT $2"@, 69)) by {
        reveal_strlit("SELECT discord_id FROM kick_users WHERE discord_id = ANY($1::text[]) ORDER BY discord_id LIMIT $2");
        reveal_strlit("ORDER BY discord_id LIMIT $2");
        assert(LINKED_MEMBERS@.subrange(69, 97) =~= "ORDER BY discord_id LIMIT $2"@);
    }
    assert(occurs_at(RULE_MEMBERS@, "SELECT DISTINCT ku.discord_id FROM kick_users ku "@, 0)) by {
        reveal_strlit("SELECT DISTINCT ku.discord_id FROM kick_users ku LEFT JOIN channel_relations cr ON cr.kick_user_id = ku.kick_user_id AND cr.kick_channel_id = $1 WHERE ku.discord_id = ANY($2::text[]) AND (");
        reveal_strlit("SELECT DISTINCT ku.discord_id FROM kick_users ku ");
        assert(RULE_MEMBERS@.subrange(0, 49) =~= "SELECT DISTINCT ku.discord_id FROM kick_users ku "@);
    }
    assert(occurs_at(RULE_MEMBERS@, "LEFT JOIN channel_relations cr "@, 49)) by {
        reveal_strlit("SELECT DISTINCT ku.discord_id FROM kick_users ku LEFT JOIN channel_relations cr ON cr.kick_user_id = ku.kick_user_id AND cr.kick_channel_id = $1 WHERE ku.discord_id = ANY($2::text[]) AND (");
        reveal_strlit("LEFT JOIN channel_relations cr ");
        assert(RULE_MEMBERS@.subrange(49, 80) =~= "LEFT JOIN channel_relations cr "@);
    }
    assert(occurs_at(RULE_MEMBERS@, "ON cr.kick_user_id = ku.kick_user_id AND cr.kick_channel_id = $1 "@, 80)) by {
        reveal_strlit("SELECT DISTINCT ku.discord_id FROM kick_users ku LEFT JOIN channel_relations cr ON cr.kick_user_id = ku.kick_user_id AND cr.kick_channel_id = $1 WHERE ku.discord_id = ANY($2::text[]) AND (");
        reveal_strlit("ON cr.kick_user_id = ku.kick_user_id AND cr.kick_channel_id = $1 ");
        assert(RULE_MEMBERS@.subrange(80, 145) =~= "ON cr.kick_user_id = ku.kick_user_id AND cr.kick_channel_id = $1 "@);
    }
    assert(occurs_at(RULE_MEMBERS@, "WHERE ku.discord_id = ANY($2::text[]) AND ("@, 145)) by {
        reveal_strlit("SELECT DISTINCT ku.discord_id FROM kick_users ku LEFT JOIN channel_relations cr ON cr.kick_user_id = ku.kick_user_id AND cr.kick_channel_id = $1 WHERE ku.discord_id = ANY($2::text[]) AND (");
        reveal_strlit("WHERE ku.discord_id = ANY($2::text[]) AND (");
        assert(RULE_MEMBERS@.subrange(145, 188) =~= "WHERE ku.discord_id = ANY($2::text[]) AND ("@);
    }
}

/// The statement for a rule that grants on any relation is the one for all who are linked; that for
/// any other has the rule's clause, whose parameters come behind the channel and the members, and the
/// number of rows as the parameter behind those.
pub proof fn law_members_are_found_by_the_rules_clause(tree: RuleView)
    ensures
        tree.grant_on_any_relation ==> members_statement(tree) == LINKED_MEMBERS@,
        !tree.grant_on_any_relation ==> members_statement(tree) == RULE_MEMBERS@ + where_text(where_of(tree, 2))
            + ") ORDER BY ku.discord_id LIMIT $"@ + decimal(rule_binds(tree).len() + 3),
{
}

/// Whom a rule holds of is found by the rule's statement, with the channel that is bound to it, the
/// values of the rule's own parameters, and no more than the role may have; a rule that grants on any
/// relation asks no channel.
pub proof fn law_members_are_found_up_to_the_limit(link: RoleLink, limit: u64)
    ensures
        limit_step(link, Ok(limit)) == (RoleStepView::Find {
            statement: members_statement(link.tree@),
            channel: if link.tree@.grant_on_any_relation {
                None
            } else {
                link.kick_channel_id
            },
            binds: rule_binds(link.tree@),
            limit,
        }),
{
}

/// A member has a role where that role of that guild is among the member's; what else is, neither gives
/// nor takes it.
pub proof fn law_roles_are_told_apart_by_guild_and_role(
    existing: Seq<(String, String)>,
    more: (String, String),
    guild_id: Seq<char>,
    role_id: Seq<char>,
)
    ensures
        among(existing.push(more), guild_id, role_id) == (among(existing, guild_id, role_id) || (more.0@ == guild_id
            && more.1@ == role_id)),
        !among(seq![], guild_id, role_id),
{
    let all = existing.push(more);
    assert(all[existing.len() as int] == more);
    if among(existing, guild_id, role_id) {
        let i = choose|i: int|
            0 <= i < existing.len() && (#[trigger] existing[i]).0@ == guild_id && existing[i].1@ == role_id;
        assert(all[i] == existing[i]);
    }
    if among(all, guild_id, role_id) {
        let i = choose|i: int| 0 <= i < all.len() && (#[trigger] all[i]).0@ == guild_id && all[i].1@ == role_id;
        if i < existing.len() {
            assert(existing[i] == all[i]);
        }
    }
}

} // verus!
