//! What callers of the API are told, name by name, and that a page holds whom it was asked for.

use vstd::prelude::*;
use vstd::string::*;

use crate::error::{AppError, ErrorView};
use crate::json::{string_opt, Json, JsonView};
use crate::routes::api_v1::{
    filter_column, guild_json, index_json, list_filter, list_json, page_size, paginate, read_query, relation_column,
    single_body, single_filter, single_json, strings_json, time_json, time_or_null, users_json, users_sql, users_statement,
    whoami_json, ListQuery, Page, UserFilter, UserRow, USERS_FROM, USERS_SELECT,
};
use crate::services::api_key::ApiKeyContext;
use crate::text::{contains_text, occurs_at, texts};
use crate::time::{rfc3339, Timestamp};

verus! {

/// A relation is filtered by the column of its name behind `is_`, and there are five of them.
pub proof fn law_a_relation_is_filtered_by_the_column_of_its_name(name: Seq<char>)
    ensures
        relation_column(name) is Some <==> {
            ||| name == "follower"@
            ||| name == "subscriber"@
            ||| name == "vip"@
            ||| name == "og"@
            ||| name == "moderator"@
        },
        relation_column(name) matches Some(column) ==> column == "is_"@ + name,
        relation_column(name) is Some ==> filter_column(Some(name)) == Ok::<Option<Seq<char>>, ErrorView>(
            Some("is_"@ + name),
        ),
        relation_column(name) is None ==> filter_column(Some(name)) is Err,
        filter_column(None) == Ok::<Option<Seq<char>>, ErrorView>(None),
{
    assert("is_follower"@ =~= "is_"@ + "follower"@) by {
        reveal_strlit("is_");
        reveal_strlit("follower");
        reveal_strlit("is_follower");
    }
    assert("is_subscriber"@ =~= "is_"@ + "subscriber"@) by {
        reveal_strlit("is_");
        reveal_strlit("subscriber");
        reveal_strlit("is_subscriber");
    }
    assert("is_vip"@ =~= "is_"@ + "vip"@) by {
        reveal_strlit("is_");
        reveal_strlit("vip");
        reveal_strlit("is_vip");
    }
    assert("is_og"@ =~= "is_"@ + "og"@) by {
        reveal_strlit("is_");
        reveal_strlit("og");
        reveal_strlit("is_og");
    }
    assert("is_moderator"@ =~= "is_"@ + "moderator"@) by {
        reveal_strlit("is_");
        reveal_strlit("moderator");
        reveal_strlit("is_moderator");
    }
    reveal_strlit("follower");
    reveal_strlit("subscriber");
    reveal_strlit("vip");
    reveal_strlit("og");
    reveal_strlit("moderator");
    assert("follower"@.len() == 8 && "subscriber"@.len() == 10 && "vip"@.len() == 3 && "og"@.len() == 2
        && "moderator"@.len() == 9);
}

/// Different relations are filtered by different columns.
pub proof fn law_different_relations_have_different_columns(a: Seq<char>, b: Seq<char>)
    requires
        relation_column(a) is Some,
        relation_column(a) == relation_column(b),
    ensures
        a == b,
{
    law_a_relation_is_filtered_by_the_column_of_its_name(a);
    law_a_relation_is_filtered_by_the_column_of_its_name(b);
    assert(a =~= ("is_"@ + a).skip("is_"@.len() as int));
    assert(b =~= ("is_"@ + b).skip("is_"@.len() as int));
}

/// The text of a filter by a column stands before the order: of the relations to the guild's
/// channels, one must have the column set. Without a filter it is not there.
pub proof fn law_a_filter_keeps_whom_one_channel_knows(column: Seq<char>)
    ensures
        exists|head: Seq<char>|
            {
                &&& users_statement(None) == #[trigger] (head + " ORDER BY ku.discord_id ASC LIMIT $5"@)
                &&& users_statement(Some(column)) == head + (" AND COALESCE(bool_or(cr."@ + column + "), false)"@)
                    + " ORDER BY ku.discord_id ASC LIMIT $5"@
            },
{
    let order = " ORDER BY ku.discord_id ASC LIMIT $5"@;
    let none = users_statement(None);
    let head = none.take(none.len() - order.len());
    let some = users_statement(Some(column));
    let filter = " AND COALESCE(bool_or(cr."@ + column + "), false)"@;
    assert(none =~= head + order);
    assert(some =~= head + filter + order);
}

/// The columns that a page's users are read from: each relation and count from the column of its
/// name, taken over the guild's channels, for members who are linked and lie behind the cursor.
#[verifier::spinoff_prover]
#[verifier::rlimit(100)]
pub proof fn law_users_are_read_by_name()
    ensures
        USERS_SELECT@.len() == 652,
        USERS_FROM@.len() == 459,
        contains_text(USERS_SELECT@, "SELECT ku.discord_id, "@),
        contains_text(USERS_SELECT@, " ku.discord_name, "@),
        contains_text(USERS_SELECT@, " ku.kick_username, "@),
        contains_text(USERS_SELECT@, " ku.kick_user_id, "@),
        contains_text(USERS_SELECT@, "COALESCE(bool_or(cr.is_follower),   false) AS is_follower, "@),
        contains_text(USERS_SELECT@, "COALESCE(bool_or(cr.is_subscriber), false) AS is_subscriber, "@),
        contains_text(USERS_SELECT@, "COALESCE(bool_or(cr.is_vip),        false) AS is_vip, "@),
        contains_text(USERS_SELECT@, "COALESCE(bool_or(cr.is_og),         false) AS is_og, "@),
        contains_text(USERS_SELECT@, "COALESCE(bool_or(cr.is_moderator),  false) AS is_moderator, "@),
        contains_text(USERS_SELECT@, "COALESCE(max(cr.sub_months_cumulative), 0) AS sub_months_cumulative, "@),
        contains_text(USERS_SELECT@, "COALESCE(max(cr.sub_streak_months),    0) AS sub_streak_months, "@),
        contains_text(USERS_SELECT@, "COALESCE(sum(cr.gifted_subs_given),    0)::int AS gifted_subs_given, "@),
        contains_text(USERS_SELECT@, "min(cr.followed_at)  AS followed_at, "@),
        contains_text(USERS_SELECT@, "max(cr.last_seen_at) AS last_seen_at, "@),
        contains_text(USERS_SELECT@, " ku.linked_at, "@),
        contains_text(USERS_FROM@, " AS updated_at "@),
        contains_text(USERS_FROM@, " FROM kick_users ku "@),
        contains_text(USERS_FROM@, " gb.guild_id = $1 "@),
        contains_text(USERS_FROM@, " cr.kick_user_id = ku.kick_user_id "@),
        contains_text(USERS_FROM@, " cr.kick_channel_id = gb.kick_channel_id "@),
        contains_text(USERS_FROM@, "WHERE ku.discord_id = ANY($2) "@),
        contains_text(USERS_FROM@, "AND ($3::text IS NULL OR ku.discord_id > $3) "@),
        contains_text(USERS_FROM@, "AND ($6::text IS NULL OR ku.discord_id = $6) "@),
        contains_text(USERS_FROM@, "HAVING ($4::timestamptz IS NULL OR "@),
{
    assert(USERS_SELECT@.len() == 652) by {
        reveal_strlit("SELECT ku.discord_id, ku.discord_name, ku.kick_username, ku.kick_user_id, COALESCE(bool_or(cr.is_follower),   false) AS is_follower, COALESCE(bool_or(cr.is_subscriber), false) AS is_subscriber, COALESCE(bool_or(cr.is_vip),        false) AS is_vip, COALESCE(bool_or(cr.is_og),         false) AS is_og, COALESCE(bool_or(cr.is_moderator),  false) AS is_moderator, COALESCE(max(cr.sub_months_cumulative), 0) AS sub_months_cumulative, COALESCE(max(cr.sub_streak_months),    0) AS sub_streak_months, COALESCE(sum(cr.gifted_subs_given),    0)::int AS gifted_subs_given, min(cr.followed_at)  AS followed_at, max(cr.last_seen_at) AS last_seen_at, ku.linked_at, ");
    }
    assert(USERS_FROM@.len() == 459) by {
        reveal_strlit(" AS updated_at FROM kick_users ku LEFT JOIN guild_broadcasters gb ON gb.guild_id = $1 LEFT JOIN channel_relations cr ON cr.kick_user_id = ku.kick_user_id AND cr.kick_channel_id = gb.kick_channel_id WHERE ku.discord_id = ANY($2) AND ($3::text IS NULL OR ku.discord_id > $3) AND ($6::text IS NULL OR ku.discord_id = $6) GROUP BY ku.discord_id, ku.discord_name, ku.kick_username, ku.kick_user_id, ku.linked_at, ku.refreshed_at HAVING ($4::timestamptz IS NULL OR ");
    }
    assert(occurs_at(USERS_SELECT@, "SELECT ku.discord_id, "@, 0)) by {
        reveal_strlit("SELECT ku.discord_id, ku.discord_name, ku.kick_username, ku.kick_user_id, COALESCE(bool_or(cr.is_follower),   false) AS is_follower, COALESCE(bool_or(cr.is_subscriber), false) AS is_subscriber, COALESCE(bool_or(cr.is_vip),        false) AS is_vip, COALESCE(bool_or(cr.is_og),         false) AS is_og, COALESCE(bool_or(cr.is_moderator),  false) AS is_moderator, COALESCE(max(cr.sub_months_cumulative), 0) AS sub_months_cumulative, COALESCE(max(cr.sub_streak_months),    0) AS sub_streak_months, COALESCE(sum(cr.gifted_subs_given),    0)::int AS gifted_subs_given, min(cr.followed_at)  AS followed_at, max(cr.last_seen_at) AS last_seen_at, ku.linked_at, ");
        reveal_strlit("SELECT ku.discord_id, ");
        assert(USERS_SELECT@.subrange(0, 22) =~= "SELECT ku.discord_id, "@);
    }
    assert(occurs_at(USERS_SELECT@, " ku.discord_name, "@, 21)) by {
        reveal_strlit("SELECT ku.discord_id, ku.discord_name, ku.kick_username, ku.kick_user_id, COALESCE(bool_or(cr.is_follower),   false) AS is_follower, COALESCE(bool_or(cr.is_subscriber), false) AS is_subscriber, COALESCE(bool_or(cr.is_vip),        false) AS is_vip, COALESCE(bool_or(cr.is_og),         false) AS is_og, COALESCE(bool_or(cr.is_moderator),  false) AS is_moderator, COALESCE(max(cr.sub_months_cumulative), 0) AS sub_months_cumulative, COALESCE(max(cr.sub_streak_months),    0) AS sub_streak_months, COALESCE(sum(cr.gifted_subs_given),    0)::int AS gifted_subs_given, min(cr.followed_at)  AS followed_at, max(cr.last_seen_at) AS last_seen_at, ku.linked_at, ");
        reveal_strlit(" ku.discord_name, ");
        assert(USERS_SELECT@.subrange(21, 39) =~= " ku.discord_name, "@);
    }
    assert(occurs_at(USERS_SELECT@, " ku.kick_username, "@, 38)) by {
        reveal_strlit("SELECT ku.discord_id, ku.discord_name, ku.kick_username, ku.kick_user_id, COALESCE(bool_or(cr.is_follower),   false) AS is_follower, COALESCE(bool_or(cr.is_subscriber), false) AS is_subscriber, COALESCE(bool_or(cr.is_vip),        false) AS is_vip, COALESCE(bool_or(cr.is_og),         false) AS is_og, COALESCE(bool_or(cr.is_moderator),  false) AS is_moderator, COALESCE(max(cr.sub_months_cumulative), 0) AS sub_months_cumulative, COALESCE(max(cr.sub_streak_months),    0) AS sub_streak_months, COALESCE(sum(cr.gifted_subs_given),    0)::int AS gifted_subs_given, min(cr.followed_at)  AS followed_at, max(cr.last_seen_at) AS last_seen_at, ku.linked_at, ");
        reveal_strlit(" ku.kick_username, ");
        assert(USERS_SELECT@.subrange(38, 57) =~= " ku.kick_username, "@);
    }
    assert(occurs_at(USERS_SELECT@, " ku.kick_user_id, "@, 56)) by {
        reveal_strlit("SELECT ku.discord_id, ku.discord_name, ku.kick_username, ku.kick_user_id, COALESCE(bool_or(cr.is_follower),   false) AS is_follower, COALESCE(bool_or(cr.is_subscriber), false) AS is_subscriber, COALESCE(bool_or(cr.is_vip),        false) AS is_vip, COALESCE(bool_or(cr.is_og),         false) AS is_og, COALESCE(bool_or(cr.is_moderator),  false) AS is_moderator, COALESCE(max(cr.sub_months_cumulative), 0) AS sub_months_cumulative, COALESCE(max(cr.sub_streak_months),    0) AS sub_streak_months, COALESCE(sum(cr.gifted_subs_given),    0)::int AS gifted_subs_given, min(cr.followed_at)  AS followed_at, max(cr.last_seen_at) AS last_seen_at, ku.linked_at, ");
        reveal_strlit(" ku.kick_user_id, ");
        assert(USERS_SELECT@.subrange(56, 74) =~= " ku.kick_user_id, "@);
    }
    assert(occurs_at(USERS_SELECT@, "COALESCE(bool_or(cr.is_follower),   false) AS is_follower, "@, 74)) by {
        reveal_strlit("SELECT ku.discord_id, ku.discord_name, ku.kick_username, ku.kick_user_id, COALESCE(bool_or(cr.is_follower),   false) AS is_follower, COALESCE(bool_or(cr.is_subscriber), false) AS is_subscriber, COALESCE(bool_or(cr.is_vip),        false) AS is_vip, COALESCE(bool_or(cr.is_og),         false) AS is_og, COALESCE(bool_or(cr.is_moderator),  false) AS is_moderator, COALESCE(max(cr.sub_months_cumulative), 0) AS sub_months_cumulative, COALESCE(max(cr.sub_streak_months),    0) AS sub_streak_months, COALESCE(sum(cr.gifted_subs_given),    0)::int AS gifted_subs_given, min(cr.followed_at)  AS followed_at, max(cr.last_seen_at) AS last_seen_at, ku.linked_at, ");
        reveal_strlit("COALESCE(bool_or(cr.is_follower),   false) AS is_follower, ");
        assert(USERS_SELECT@.subrange(74, 133) =~= "COALESCE(bool_or(cr.is_follower),   false) AS is_follower, "@);
    }
    assert(occurs_at(USERS_SELECT@, "COALESCE(bool_or(cr.is_subscriber), false) AS is_subscriber, "@, 133)) by {
        reveal_strlit("SELECT ku.discord_id, ku.discord_name, ku.kick_username, ku.kick_user_id, COALESCE(bool_or(cr.is_follower),   false) AS is_follower, COALESCE(bool_or(cr.is_subscriber), false) AS is_subscriber, COALESCE(bool_or(cr.is_vip),        false) AS is_vip, COALESCE(bool_or(cr.is_og),         false) AS is_og, COALESCE(bool_or(cr.is_moderator),  false) AS is_moderator, COALESCE(max(cr.sub_months_cumulative), 0) AS sub_months_cumulative, COALESCE(max(cr.sub_streak_months),    0) AS sub_streak_months, COALESCE(sum(cr.gifted_subs_given),    0)::int AS gifted_subs_given, min(cr.followed_at)  AS followed_at, max(cr.last_seen_at) AS last_seen_at, ku.linked_at, ");
        reveal_strlit("COALESCE(bool_or(cr.is_subscriber), false) AS is_subscriber, ");
        assert(USERS_SELECT@.subrange(133, 194) =~= "COALESCE(bool_or(cr.is_subscriber), false) AS is_subscriber, "@);
    }
    assert(occurs_at(USERS_SELECT@, "COALESCE(bool_or(cr.is_vip),        false) AS is_vip, "@, 194)) by {
        reveal_strlit("SELECT ku.discord_id, ku.discord_name, ku.kick_username, ku.kick_user_id, COALESCE(bool_or(cr.is_follower),   false) AS is_follower, COALESCE(bool_or(cr.is_subscriber), false) AS is_subscriber, COALESCE(bool_or(cr.is_vip),        false) AS is_vip, COALESCE(bool_or(cr.is_og),         false) AS is_og, COALESCE(bool_or(cr.is_moderator),  false) AS is_moderator, COALESCE(max(cr.sub_months_cumulative), 0) AS sub_months_cumulative, COALESCE(max(cr.sub_streak_months),    0) AS sub_streak_months, COALESCE(sum(cr.gifted_subs_given),    0)::int AS gifted_subs_given, min(cr.followed_at)  AS followed_at, max(cr.last_seen_at) AS last_seen_at, ku.linked_at, ");
        reveal_strlit("COALESCE(bool_or(cr.is_vip),        false) AS is_vip, ");
        assert(USERS_SELECT@.subrange(194, 248) =~= "COALESCE(bool_or(cr.is_vip),        false) AS is_vip, "@);
    }
    assert(occurs_at(USERS_SELECT@, "COALESCE(bool_or(cr.is_og),         false) AS is_og, "@, 248)) by {
        reveal_strlit("SELECT ku.discord_id, ku.discord_name, ku.kick_username, ku.kick_user_id, COALESCE(bool_or(cr.is_follower),   false) AS is_follower, COALESCE(bool_or(cr.is_subscriber), false) AS is_subscriber, COALESCE(bool_or(cr.is_vip),        false) AS is_vip, COALESCE(bool_or(cr.is_og),         false) AS is_og, COALESCE(bool_or(cr.is_moderator),  false) AS is_moderator, COALESCE(max(cr.sub_months_cumulative), 0) AS sub_months_cumulative, COALESCE(max(cr.sub_streak_months),    0) AS sub_streak_months, COALESCE(sum(cr.gifted_subs_given),    0)::int AS gifted_subs_given, min(cr.followed_at)  AS followed_at, max(cr.last_seen_at) AS last_seen_at, ku.linked_at, ");
        reveal_strlit("COALESCE(bool_or(cr.is_og),         false) AS is_og, ");
        assert(USERS_SELECT@.subrange(248, 301) =~= "COALESCE(bool_or(cr.is_og),         false) AS is_og, "@);
    }
    assert(occurs_at(USERS_SELECT@, "COALESCE(bool_or(cr.is_moderator),  false) AS is_moderator, "@, 301)) by {
        reveal_strlit("SELECT ku.discord_id, ku.discord_name, ku.kick_username, ku.kick_user_id, COALESCE(bool_or(cr.is_follower),   false) AS is_follower, COALESCE(bool_or(cr.is_subscriber), false) AS is_subscriber, COALESCE(bool_or(cr.is_vip),        false) AS is_vip, COALESCE(bool_or(cr.is_og),         false) AS is_og, COALESCE(bool_or(cr.is_moderator),  false) AS is_moderator, COALESCE(max(cr.sub_months_cumulative), 0) AS sub_months_cumulative, COALESCE(max(cr.sub_streak_months),    0) AS sub_streak_months, COALESCE(sum(cr.gifted_subs_given),    0)::int AS gifted_subs_given, min(cr.followed_at)  AS followed_at, max(cr.last_seen_at) AS last_seen_at, ku.linked_at, ");
        reveal_strlit("COALESCE(bool_or(cr.is_moderator),  false) AS is_moderator, ");
        assert(USERS_SELECT@.subrange(301, 361) =~= "COALESCE(bool_or(cr.is_moderator),  false) AS is_moderator, "@);
    }
    assert(occurs_at(USERS_SELECT@, "COALESCE(max(cr.sub_months_cumulative), 0) AS sub_months_cumulative, "@, 361)) by {
        reveal_strlit("SELECT ku.discord_id, ku.discord_name, ku.kick_username, ku.kick_user_id, COALESCE(bool_or(cr.is_follower),   false) AS is_follower, COALESCE(bool_or(cr.is_subscriber), false) AS is_subscriber, COALESCE(bool_or(cr.is_vip),        false) AS is_vip, COALESCE(bool_or(cr.is_og),         false) AS is_og, COALESCE(bool_or(cr.is_moderator),  false) AS is_moderator, COALESCE(max(cr.sub_months_cumulative), 0) AS sub_months_cumulative, COALESCE(max(cr.sub_streak_months),    0) AS sub_streak_months, COALESCE(sum(cr.gifted_subs_given),    0)::int AS gifted_subs_given, min(cr.followed_at)  AS followed_at, max(cr.last_seen_at) AS last_seen_at, ku.linked_at, ");
        reveal_strlit("COALESCE(max(cr.sub_months_cumulative), 0) AS sub_months_cumulative, ");
        assert(USERS_SELECT@.subrange(361, 430) =~= "COALESCE(max(cr.sub_months_cumulative), 0) AS sub_months_cumulative, "@);
    }
    assert(occurs_at(USERS_SELECT@, "COALESCE(max(cr.sub_streak_months),    0) AS sub_streak_months, "@, 430)) by {
        reveal_strlit("SELECT ku.discord_id, ku.discord_name, ku.kick_username, ku.kick_user_id, COALESCE(bool_or(cr.is_follower),   false) AS is_follower, COALESCE(bool_or(cr.is_subscriber), false) AS is_subscriber, COALESCE(bool_or(cr.is_vip),        false) AS is_vip, COALESCE(bool_or(cr.is_og),         false) AS is_og, COALESCE(bool_or(cr.is_moderator),  false) AS is_moderator, COALESCE(max(cr.sub_months_cumulative), 0) AS sub_months_cumulative, COALESCE(max(cr.sub_streak_months),    0) AS sub_streak_months, COALESCE(sum(cr.gifted_subs_given),    0)::int AS gifted_subs_given, min(cr.followed_at)  AS followed_at, max(cr.last_seen_at) AS last_seen_at, ku.linked_at, ");
        reveal_strlit("COALESCE(max(cr.sub_streak_months),    0) AS sub_streak_months, ");
        assert(USERS_SELECT@.subrange(430, 494) =~= "COALESCE(max(cr.sub_streak_months),    0) AS sub_streak_months, "@);
    }
    assert(occurs_at(USERS_SELECT@, "COALESCE(sum(cr.gifted_subs_given),    0)::int AS gifted_subs_given, "@, 494)) by {
        reveal_strlit("SELECT ku.discord_id, ku.discord_name, ku.kick_username, ku.kick_user_id, COALESCE(bool_or(cr.is_follower),   false) AS is_follower, COALESCE(bool_or(cr.is_subscriber), false) AS is_subscriber, COALESCE(bool_or(cr.is_vip),        false) AS is_vip, COALESCE(bool_or(cr.is_og),         false) AS is_og, COALESCE(bool_or(cr.is_moderator),  false) AS is_moderator, COALESCE(max(cr.sub_months_cumulative), 0) AS sub_months_cumulative, COALESCE(max(cr.sub_streak_months),    0) AS sub_streak_months, COALESCE(sum(cr.gifted_subs_given),    0)::int AS gifted_subs_given, min(cr.followed_at)  AS followed_at, max(cr.last_seen_at) AS last_seen_at, ku.linked_at, ");
        reveal_strlit("COALESCE(sum(cr.gifted_subs_given),    0)::int AS gifted_subs_given, ");
        assert(USERS_SELECT@.subrange(494, 563) =~= "COALESCE(sum(cr.gifted_subs_given),    0)::int AS gifted_subs_given, "@);
    }
    assert(occurs_at(USERS_SELECT@, "min(cr.followed_at)  AS followed_at, "@, 563)) by {
        reveal_strlit("SELECT ku.discord_id, ku.discord_name, ku.kick_username, ku.kick_user_id, COALESCE(bool_or(cr.is_follower),   false) AS is_follower, COALESCE(bool_or(cr.is_subscriber), false) AS is_subscriber, COALESCE(bool_or(cr.is_vip),        false) AS is_vip, COALESCE(bool_or(cr.is_og),         false) AS is_og, COALESCE(bool_or(cr.is_moderator),  false) AS is_moderator, COALESCE(max(cr.sub_months_cumulative), 0) AS sub_months_cumulative, COALESCE(max(cr.sub_streak_months),    0) AS sub_streak_months, COALESCE(sum(cr.gifted_subs_given),    0)::int AS gifted_subs_given, min(cr.followed_at)  AS followed_at, max(cr.last_seen_at) AS last_seen_at, ku.linked_at, ");
        reveal_strlit("min(cr.followed_at)  AS followed_at, ");
        assert(USERS_SELECT@.subrange(563, 600) =~= "min(cr.followed_at)  AS followed_at, "@);
    }
    assert(occurs_at(USERS_SELECT@, "max(cr.last_seen_at) AS last_seen_at, "@, 600)) by {
        reveal_strlit("SELECT ku.discord_id, ku.discord_name, ku.kick_username, ku.kick_user_id, COALESCE(bool_or(cr.is_follower),   false) AS is_follower, COALESCE(bool_or(cr.is_subscriber), false) AS is_subscriber, COALESCE(bool_or(cr.is_vip),        false) AS is_vip, COALESCE(bool_or(cr.is_og),         false) AS is_og, COALESCE(bool_or(cr.is_moderator),  false) AS is_moderator, COALESCE(max(cr.sub_months_cumulative), 0) AS sub_months_cumulative, COALESCE(max(cr.sub_streak_months),    0) AS sub_streak_months, COALESCE(sum(cr.gifted_subs_given),    0)::int AS gifted_subs_given, min(cr.followed_at)  AS followed_at, max(cr.last_seen_at) AS last_seen_at, ku.linked_at, ");
        reveal_strlit("max(cr.last_seen_at) AS last_seen_at, ");
        assert(USERS_SELECT@.subrange(600, 638) =~= "max(cr.last_seen_at) AS last_seen_at, "@);
    }
    assert(occurs_at(USERS_SELECT@, " ku.linked_at, "@, 637)) by {
        reveal_strlit("SELECT ku.discord_id, ku.discord_name, ku.kick_username, ku.kick_user_id, COALESCE(bool_or(cr.is_follower),   false) AS is_follower, COALESCE(bool_or(cr.is_subscriber), false) AS is_subscriber, COALESCE(bool_or(cr.is_vip),        false) AS is_vip, COALESCE(bool_or(cr.is_og),         false) AS is_og, COALESCE(bool_or(cr.is_moderator),  false) AS is_moderator, COALESCE(max(cr.sub_months_cumulative), 0) AS sub_months_cumulative, COALESCE(max(cr.sub_streak_months),    0) AS sub_streak_months, COALESCE(sum(cr.gifted_subs_given),    0)::int AS gifted_subs_given, min(cr.followed_at)  AS followed_at, max(cr.last_seen_at) AS last_seen_at, ku.linked_at, ");
        reveal_strlit(" ku.linked_at, ");
        assert(USERS_SELECT@.subrange(637, 652) =~= " ku.linked_at, "@);
    }
    assert(occurs_at(USERS_FROM@, " AS updated_at "@, 0)) by {
        reveal_strlit(" AS updated_at FROM kick_users ku LEFT JOIN guild_broadcasters gb ON gb.guild_id = $1 LEFT JOIN channel_relations cr ON cr.kick_user_id = ku.kick_user_id AND cr.kick_channel_id = gb.kick_channel_id WHERE ku.discord_id = ANY($2) AND ($3::text IS NULL OR ku.discord_id > $3) AND ($6::text IS NULL OR ku.discord_id = $6) GROUP BY ku.discord_id, ku.discord_name, ku.kick_username, ku.kick_user_id, ku.linked_at, ku.refreshed_at HAVING ($4::timestamptz IS NULL OR ");
        reveal_strlit(" AS updated_at ");
        assert(USERS_FROM@.subrange(0, 15) =~= " AS updated_at "@);
    }
    assert(occurs_at(USERS_FROM@, " FROM kick_users ku "@, 14)) by {
        reveal_strlit(" AS updated_at FROM kick_users ku LEFT JOIN guild_broadcasters gb ON gb.guild_id = $1 LEFT JOIN channel_relations cr ON cr.kick_user_id = ku.kick_user_id AND cr.kick_channel_id = gb.kick_channel_id WHERE ku.discord_id = ANY($2) AND ($3::text IS NULL OR ku.discord_id > $3) AND ($6::text IS NULL OR ku.discord_id = $6) GROUP BY ku.discord_id, ku.discord_name, ku.kick_username, ku.kick_user_id, ku.linked_at, ku.refreshed_at HAVING ($4::timestamptz IS NULL OR ");
        reveal_strlit(" FROM kick_users ku ");
        assert(USERS_FROM@.subrange(14, 34) =~= " FROM kick_users ku "@);
    }
    assert(occurs_at(USERS_FROM@, " gb.guild_id = $1 "@, 68)) by {
        reveal_strlit(" AS updated_at FROM kick_users ku LEFT JOIN guild_broadcasters gb ON gb.guild_id = $1 LEFT JOIN channel_relations cr ON cr.kick_user_id = ku.kick_user_id AND cr.kick_channel_id = gb.kick_channel_id WHERE ku.discord_id = ANY($2) AND ($3::text IS NULL OR ku.discord_id > $3) AND ($6::text IS NULL OR ku.discord_id = $6) GROUP BY ku.discord_id, ku.discord_name, ku.kick_username, ku.kick_user_id, ku.linked_at, ku.refreshed_at HAVING ($4::timestamptz IS NULL OR ");
        reveal_strlit(" gb.guild_id = $1 ");
        assert(USERS_FROM@.subrange(68, 86) =~= " gb.guild_id = $1 "@);
    }
    assert(occurs_at(USERS_FROM@, " cr.kick_user_id = ku.kick_user_id "@, 119)) by {
        reveal_strlit(" AS updated_at FROM kick_users ku LEFT JOIN guild_broadcasters gb ON gb.guild_id = $1 LEFT JOIN channel_relations cr ON cr.kick_user_id = ku.kick_user_id AND cr.kick_channel_id = gb.kick_channel_id WHERE ku.discord_id = ANY($2) AND ($3::text IS NULL OR ku.discord_id > $3) AND ($6::text IS NULL OR ku.discord_id = $6) GROUP BY ku.discord_id, ku.discord_name, ku.kick_username, ku.kick_user_id, ku.linked_at, ku.refreshed_at HAVING ($4::timestamptz IS NULL OR ");
        reveal_strlit(" cr.kick_user_id = ku.kick_user_id ");
        assert(USERS_FROM@.subrange(119, 154) =~= " cr.kick_user_id = ku.kick_user_id "@);
    }
    assert(occurs_at(USERS_FROM@, " cr.kick_channel_id = gb.kick_channel_id "@, 157)) by {
        reveal_strlit(" AS updated_at FROM kick_users ku LEFT JOIN guild_broadcasters gb ON gb.guild_id = $1 LEFT JOIN channel_relations cr ON cr.kick_user_id = ku.kick_user_id AND cr.kick_channel_id = gb.kick_channel_id WHERE ku.discord_id = ANY($2) AND ($3::text IS NULL OR ku.discord_id > $3) AND ($6::text IS NULL OR ku.discord_id = $6) GROUP BY ku.discord_id, ku.discord_name, ku.kick_username, ku.kick_user_id, ku.linked_at, ku.refreshed_at HAVING ($4::timestamptz IS NULL OR ");
        reveal_strlit(" cr.kick_channel_id = gb.kick_channel_id ");
        assert(USERS_FROM@.subrange(157, 198) =~= " cr.kick_channel_id = gb.kick_channel_id "@);
    }
    assert(occurs_at(USERS_FROM@, "WHERE ku.discord_id = ANY($2) "@, 198)) by {
        reveal_strlit(" AS updated_at FROM kick_users ku LEFT JOIN guild_broadcasters gb ON gb.guild_id = $1 LEFT JOIN channel_relations cr ON cr.kick_user_id = ku.kick_user_id AND cr.kick_channel_id = gb.kick_channel_id WHERE ku.discord_id = ANY($2) AND ($3::text IS NULL OR ku.discord_id > $3) AND ($6::text IS NULL OR ku.discord_id = $6) GROUP BY ku.discord_id, ku.discord_name, ku.kick_username, ku.kick_user_id, ku.linked_at, ku.refreshed_at HAVING ($4::timestamptz IS NULL OR ");
        reveal_strlit("WHERE ku.discord_id = ANY($2) ");
        assert(USERS_FROM@.subrange(198, 228) =~= "WHERE ku.discord_id = ANY($2) "@);
    }
    assert(occurs_at(USERS_FROM@, "AND ($3::text IS NULL OR ku.discord_id > $3) "@, 228)) by {
        reveal_strlit(" AS updated_at FROM kick_users ku LEFT JOIN guild_broadcasters gb ON gb.guild_id = $1 LEFT JOIN channel_relations cr ON cr.kick_user_id = ku.kick_user_id AND cr.kick_channel_id = gb.kick_channel_id WHERE ku.discord_id = ANY($2) AND ($3::text IS NULL OR ku.discord_id > $3) AND ($6::text IS NULL OR ku.discord_id = $6) GROUP BY ku.discord_id, ku.discord_name, ku.kick_username, ku.kick_user_id, ku.linked_at, ku.refreshed_at HAVING ($4::timestamptz IS NULL OR ");
        reveal_strlit("AND ($3::text IS NULL OR ku.discord_id > $3) ");
        assert(USERS_FROM@.subrange(228, 273) =~= "AND ($3::text IS NULL OR ku.discord_id > $3) "@);
    }
    assert(occurs_at(USERS_FROM@, "AND ($6::text IS NULL OR ku.discord_id = $6) "@, 273)) by {
        reveal_strlit(" AS updated_at FROM kick_users ku LEFT JOIN guild_broadcasters gb ON gb.guild_id = $1 LEFT JOIN channel_relations cr ON cr.kick_user_id = ku.kick_user_id AND cr.kick_channel_id = gb.kick_channel_id WHERE ku.discord_id = ANY($2) AND ($3::text IS NULL OR ku.discord_id > $3) AND ($6::text IS NULL OR ku.discord_id = $6) GROUP BY ku.discord_id, ku.discord_name, ku.kick_username, ku.kick_user_id, ku.linked_at, ku.refreshed_at HAVING ($4::timestamptz IS NULL OR ");
        reveal_strlit("AND ($6::text IS NULL OR ku.discord_id = $6) ");
        assert(USERS_FROM@.subrange(273, 318) =~= "AND ($6::text IS NULL OR ku.discord_id = $6) "@);
    }
    assert(occurs_at(USERS_FROM@, "HAVING ($4::timestamptz IS NULL OR "@, 424)) by {
        reveal_strlit(" AS updated_at FROM kick_users ku LEFT JOIN guild_broadcasters gb ON gb.guild_id = $1 LEFT JOIN channel_relations cr ON cr.kick_user_id = ku.kick_user_id AND cr.kick_channel_id = gb.kick_channel_id WHERE ku.discord_id = ANY($2) AND ($3::text IS NULL OR ku.discord_id > $3) AND ($6::text IS NULL OR ku.discord_id = $6) GROUP BY ku.discord_id, ku.discord_name, ku.kick_username, ku.kick_user_id, ku.linked_at, ku.refreshed_at HAVING ($4::timestamptz IS NULL OR ");
        reveal_strlit("HAVING ($4::timestamptz IS NULL OR ");
        assert(USERS_FROM@.subrange(424, 459) =~= "HAVING ($4::timestamptz IS NULL OR "@);
    }
}

/// What a row was read with under a column's name.
pub open spec fn selected(row: UserRow, column: Seq<char>) -> bool {
    ||| column == "is_follower"@ && row.is_follower
    ||| column == "is_subscriber"@ && row.is_subscriber
    ||| column == "is_vip"@ && row.is_vip
    ||| column == "is_og"@ && row.is_og
    ||| column == "is_moderator"@ && row.is_moderator
}

/// Every user on a page that was asked for by a relation has that relation in the answer: what the
/// filter let through is told under the relation's own name, and nothing else under that name.
pub proof fn law_a_page_has_the_relation_asked_for(
    limit: Option<i64>,
    cursor: Option<Seq<char>>,
    since: Option<Seq<char>>,
    read: Option<Timestamp>,
    name: Seq<char>,
    row: UserRow,
)
    requires
        list_filter(limit, cursor, since, read, Some(name)) matches Ok(f) && f.relation is Some && selected(
            row,
            f.relation->0,
        ),
    ensures
        row.relation_json()->Object_0.contains(("is_"@ + name, JsonView::Bool(true))),
        forall|i: int|
            0 <= i < row.relation_json()->Object_0.len() && (#[trigger] row.relation_json()->Object_0[i]).0 == "is_"@
                + name ==> row.relation_json()->Object_0[i].1 == JsonView::Bool(true),
{
    law_a_relation_is_filtered_by_the_column_of_its_name(name);
    law_users_are_told_by_name(row);
    let m = row.relation_json()->Object_0;
    let column = "is_"@ + name;
    assert(column == m[0].0 || column == m[1].0 || column == m[2].0 || column == m[3].0 || column == m[4].0);
    assert("is_follower"@.len() == 11) by {
        reveal_strlit("is_follower");
    }
    assert("is_subscriber"@.len() == 13) by {
        reveal_strlit("is_subscriber");
    }
    assert("is_vip"@.len() == 6) by {
        reveal_strlit("is_vip");
    }
    assert("is_og"@.len() == 5) by {
        reveal_strlit("is_og");
    }
    assert("is_moderator"@.len() == 12) by {
        reveal_strlit("is_moderator");
    }
    assert("sub_months_cumulative"@.len() == 21) by {
        reveal_strlit("sub_months_cumulative");
    }
    assert("sub_streak_months"@.len() == 17) by {
        reveal_strlit("sub_streak_months");
    }
    assert("gifted_subs_given"@.len() == 17) by {
        reveal_strlit("gifted_subs_given");
    }
    assert("followed_at"@.len() == 11 && "followed_at"@[0] == 'f' && "is_follower"@[0] == 'i') by {
        reveal_strlit("followed_at");
        reveal_strlit("is_follower");
    }
    assert("last_seen_at"@.len() == 12 && "last_seen_at"@[0] == 'l' && "is_moderator"@[0] == 'i') by {
        reveal_strlit("last_seen_at");
        reveal_strlit("is_moderator");
    }
}

/// A caller is told of a member under the names of what the row holds, each once.
pub proof fn law_users_are_told_by_name(row: UserRow)
    ensures
        row.relation_json() is Object,
        row.relation_json()->Object_0 == seq![
            ("is_follower"@, JsonView::Bool(row.is_follower)),
            ("is_subscriber"@, JsonView::Bool(row.is_subscriber)),
            ("is_vip"@, JsonView::Bool(row.is_vip)),
            ("is_og"@, JsonView::Bool(row.is_og)),
            ("is_moderator"@, JsonView::Bool(row.is_moderator)),
            ("sub_months_cumulative"@, JsonView::Int(row.sub_months_cumulative as i64)),
            ("sub_streak_months"@, JsonView::Int(row.sub_streak_months as i64)),
            ("gifted_subs_given"@, JsonView::Int(row.gifted_subs_given as i64)),
            ("followed_at"@, time_or_null(row.followed_at)),
            ("last_seen_at"@, time_or_null(row.last_seen_at)),
        ],
        row.json() is Object,
        row.json()->Object_0.len() == 7,
        row.json()->Object_0.contains(("discord_id"@, JsonView::Str(row.discord_id@))),
        row.json()->Object_0.contains(
            (
                "discord_name"@,
                match row.discord_name {
                    Some(s) => JsonView::Str(s@),
                    None => JsonView::Null,
                },
            ),
        ),
        row.json()->Object_0.contains(("kick_user_id"@, JsonView::Int(row.kick_user_id))),
        row.json()->Object_0.contains(("kick_username"@, JsonView::Str(row.kick_username@))),
        row.json()->Object_0.contains(("linked_at"@, time_json(row.linked_at))),
        row.json()->Object_0.contains(("updated_at"@, time_json(row.updated_at))),
        row.json()->Object_0.contains(("relation"@, row.relation_json())),
{
    let m = row.json()->Object_0;
    assert(m[0].0 == "discord_id"@ && m[1].0 == "discord_name"@ && m[2].0 == "kick_user_id"@ && m[3].0
        == "kick_username"@ && m[4].0 == "linked_at"@ && m[5].0 == "updated_at"@ && m[6].0 == "relation"@);
}

proof fn lemma_users(rows: Seq<UserRow>)
    ensures
        users_json(rows) is Array,
        users_json(rows)->Array_0.len() == rows.len(),
        forall|i: int| 0 <= i < rows.len() ==> #[trigger] users_json(rows)->Array_0[i] == rows[i].json(),
    decreases rows.len(),
{
    if rows.len() > 0 {
        lemma_users(rows.drop_last());
    }
}

/// A page names its guild, lists its users in their order, and says how many it holds, how many it
/// was to hold, whether there are more, and where those begin.
pub proof fn law_a_page_says_what_it_holds(
    guild_id: Seq<char>,
    guild_name: Option<Seq<char>>,
    page: Page,
    limit: i64,
    users: JsonView,
    about: JsonView,
)
    requires
        users == users_json(page.rows@),
        list_json(guild_id, guild_name, page, limit)->Object_0.contains(("page"@, about)),
        page.rows@.len() <= i64::MAX,
    ensures
        list_json(guild_id, guild_name, page, limit)->Object_0.len() == 3,
        list_json(guild_id, guild_name, page, limit)->Object_0.contains(
            ("guild"@, guild_json(guild_id, guild_name)),
        ),
        list_json(guild_id, guild_name, page, limit)->Object_0.contains(("users"@, users)),
        users->Array_0.len() == page.rows@.len(),
        forall|i: int| 0 <= i < page.rows@.len() ==> #[trigger] users->Array_0[i] == page.rows@[i].json(),
        about->Object_0.len() == 4,
        about->Object_0.contains(("limit"@, JsonView::Int(limit))),
        about->Object_0.contains(("count"@, JsonView::Int(page.rows@.len() as i64))),
        about->Object_0.contains(("has_more"@, JsonView::Bool(page.has_more))),
        about->Object_0.contains(
            (
                "next_cursor"@,
                match page.next_cursor {
                    Some(s) => JsonView::Str(s@),
                    None => JsonView::Null,
                },
            ),
        ),
{
    lemma_users(page.rows@);
    let m = list_json(guild_id, guild_name, page, limit)->Object_0;
    assert(m[0].0 == "guild"@ && m[1].0 == "users"@ && m[2].0 == "page"@);
    reveal_strlit("guild");
    reveal_strlit("users");
    reveal_strlit("page");
    assert("guild"@.len() == 5 && "users"@.len() == 5 && "page"@.len() == 4);
    let k = choose|k: int| 0 <= k < m.len() && m[k] == ("page"@, about);
    assert(k == 2);
    let a = about->Object_0;
    assert(a[0].0 == "limit"@ && a[1].0 == "count"@ && a[2].0 == "has_more"@ && a[3].0 == "next_cursor"@);
}

/// An answer about one user has the guild and that user; what a key's holder is told of it has the
/// guild, the label and the scopes, in their order.
pub proof fn law_answers_are_told_by_name(
    guild_id: Seq<char>,
    guild_name: Option<Seq<char>>,
    row: UserRow,
    ctx: ApiKeyContext,
)
    ensures
        guild_json(guild_id, guild_name)->Object_0 == seq![
            ("id"@, JsonView::Str(guild_id)),
            (
                "name"@,
                match guild_name {
                    Some(s) => JsonView::Str(s),
                    None => JsonView::Null,
                },
            ),
        ],
        single_json(guild_id, guild_name, row)->Object_0 == seq![
            ("guild"@, guild_json(guild_id, guild_name)),
            ("user"@, row.json()),
        ],
        whoami_json(ctx, guild_name)->Object_0.len() == 2,
        whoami_json(ctx, guild_name)->Object_0[0] == ("guild"@, guild_json(ctx.guild_id@, guild_name)),
        whoami_json(ctx, guild_name)->Object_0[1].0 == "key"@,
        whoami_json(ctx, guild_name)->Object_0[1].1->Object_0 == seq![
            ("label"@, JsonView::Str(ctx.label@)),
            ("scopes"@, strings_json(texts(ctx.scopes@))),
        ],
        strings_json(texts(ctx.scopes@))->Array_0.len() == ctx.scopes@.len(),
        forall|i: int|
            0 <= i < ctx.scopes@.len() ==> #[trigger] strings_json(texts(ctx.scopes@))->Array_0[i] == JsonView::Str(
                ctx.scopes@[i]@,
            ),
{
    lemma_strings(texts(ctx.scopes@));
}

proof fn lemma_strings(list: Seq<Seq<char>>)
    ensures
        strings_json(list) is Array,
        strings_json(list)->Array_0.len() == list.len(),
        forall|i: int| 0 <= i < list.len() ==> #[trigger] strings_json(list)->Array_0[i] == JsonView::Str(list[i]),
    decreases list.len(),
{
    if list.len() > 0 {
        lemma_strings(list.drop_last());
    }
}

/// A page holds a hundred users where nothing is asked, and else as many as are asked for, but one
/// at least and five hundred at most.
pub proof fn law_pages_hold_what_is_asked_within_bounds(asked: Option<i64>)
    ensures
        asked is None ==> page_size(asked) == 100,
        1 <= page_size(asked) <= 500,
        asked is Some && 1 <= asked->0 <= 500 ==> page_size(asked) == asked->0,
        asked is Some && asked->0 < 1 ==> page_size(asked) == 1,
        asked is Some && asked->0 > 500 ==> page_size(asked) == 500,
{
}

/// A request is refused where its time does not read as one, or its relation is none of the five;
/// else what is read begins behind its cursor, is as late as its time, and is one row more than the
/// page holds.
pub proof fn law_requests_are_read_as_they_ask(
    limit: Option<i64>,
    cursor: Option<Seq<char>>,
    since: Option<Seq<char>>,
    read: Option<Timestamp>,
    relation: Option<Seq<char>>,
)
    ensures
        ({
            let r = list_filter(limit, cursor, since, read, relation);
            &&& r is Err <==> (since is Some && read is None) || (relation is Some && relation_column(relation->0)
                is None)
            &&& r is Err ==> r->Err_0 is BadRequest
            &&& r matches Ok(f) ==> {
                &&& f.after == cursor
                &&& f.updated_since == (if since is Some {
                    read
                } else {
                    None
                })
                &&& f.relation is Some == relation is Some
                &&& f.only_discord_id is None
                &&& f.limit == page_size(limit) + 1
            }
            &&& since is Some && read is None ==> contains_text(r->Err_0->BadRequest_0, since->0)
                && contains_text(r->Err_0->BadRequest_0, "`updated_since`"@)
            &&& !(since is Some && read is None) && relation is Some && relation_column(relation->0) is None
                ==> contains_text(r->Err_0->BadRequest_0, relation->0) && contains_text(
                r->Err_0->BadRequest_0,
                "`relation`"@,
            )
        }),
{
    let r = list_filter(limit, cursor, since, read, relation);
    if since is Some && read is None {
        let s = since->0;
        let head = "`updated_since` must be an RFC 3339 timestamp (e.g. 2026-07-27T00:00:00Z); got `"@;
        assert(occurs_at(r->Err_0->BadRequest_0, s, head.len() as int)) by {
            assert(r->Err_0->BadRequest_0.subrange(head.len() as int, (head.len() + s.len()) as int) =~= s);
        }
        assert(occurs_at(r->Err_0->BadRequest_0, "`updated_since`"@, 0)) by {
            reveal_strlit("`updated_since` must be an RFC 3339 timestamp (e.g. 2026-07-27T00:00:00Z); got `");
            reveal_strlit("`updated_since`");
            assert(r->Err_0->BadRequest_0.subrange(0, 15) =~= "`updated_since`"@);
        }
    } else if relation is Some && relation_column(relation->0) is None {
        let s = relation->0;
        let head = "Unknown `relation` filter `"@;
        assert(occurs_at(r->Err_0->BadRequest_0, s, head.len() as int)) by {
            assert(r->Err_0->BadRequest_0.subrange(head.len() as int, (head.len() + s.len()) as int) =~= s);
        }
        assert(occurs_at(r->Err_0->BadRequest_0, "`relation`"@, 8)) by {
            reveal_strlit("Unknown `relation` filter `");
            reveal_strlit("`relation`");
            assert(r->Err_0->BadRequest_0.subrange(8, 18) =~= "`relation`"@);
        }
    }
}

/// A page is the first rows that were read, as many as it holds; there is more where one row more was
/// read, and then it begins behind the last row on the page.
pub proof fn law_a_page_is_cut_behind_its_last_row(rows: Vec<UserRow>, limit: i64, r: Page)
    requires
        call_ensures(paginate, (rows, limit), r),
        1 <= limit,
    ensures
        r.has_more <==> rows@.len() > limit,
        r.rows@.len() <= limit,
        r.rows@.len() == (if rows@.len() > limit {
            limit as int
        } else {
            rows@.len() as int
        }),
        forall|i: int| 0 <= i < r.rows@.len() ==> #[trigger] r.rows@[i] == rows@[i],
        r.next_cursor is Some <==> r.has_more,
        r.next_cursor is Some ==> r.next_cursor->0@ == r.rows@.last().discord_id@,
{
}

/// One user is asked for by their identifier, without any other condition, and one row is enough.
pub proof fn law_one_user_is_asked_for_by_identifier(discord_id: &str, r: UserFilter)
    requires
        call_ensures(single_filter, (discord_id,), r),
    ensures
        r.only_discord_id is Some,
        r.only_discord_id->0@ == discord_id@,
        r.limit == 1,
        r.after is None,
        r.updated_since is None,
        r.relation is None,
{
}

/// A request for a page is read field by field: its cursor, its time, its relation as the column of
/// that name, and its limit.
pub proof fn law_a_query_is_read_field_by_field(q: ListQuery, r: Result<UserFilter, AppError>)
    requires
        call_ensures(read_query, (q,), r),
    ensures
        r matches Ok(f) ==> {
            &&& q.cursor is Some == f.after is Some
            &&& q.cursor is Some ==> f.after->0@ == q.cursor->0@
            &&& q.updated_since matches Some(s) ==> f.updated_since is Some && f.updated_since == rfc3339(s@)
            &&& q.updated_since is None ==> f.updated_since is None
            &&& q.relation matches Some(s) ==> f.relation is Some && f.relation->0@ == "is_"@ + s@
            &&& q.relation is None ==> f.relation is None
            &&& f.only_discord_id is None
            &&& q.limit is None ==> f.limit == 101
            &&& q.limit is Some && 1 <= q.limit->0 <= 500 ==> f.limit == q.limit->0 + 1
        },
        r is Err ==> r->Err_0 is BadRequest,
{
    if q.relation is Some {
        law_a_relation_is_filtered_by_the_column_of_its_name(q.relation->0@);
    }
}

/// A user who is not there is answered as not found, and one who is as the one that was read.
pub proof fn law_one_user_is_answered_or_not_found(
    guild_id: &str,
    guild_name: Option<String>,
    rows: Vec<UserRow>,
    r: Result<Json, AppError>,
)
    requires
        call_ensures(single_body, (guild_id, &guild_name, &rows), r),
        forall|i: int| 0 <= i < rows@.len() ==> (#[trigger] rows@[i]).valid(),
    ensures
        r is Ok <==> rows@.len() > 0,
        r is Ok ==> r->Ok_0@->Object_0.len() == 2 && r->Ok_0@->Object_0[0] == (
            "guild"@,
            guild_json(guild_id@, string_opt(guild_name)),
        ) && r->Ok_0@->Object_0[1] == ("user"@, rows@[0].json()),
        r is Err ==> r->Err_0 is NotFound,
{
}

/// The discovery document lists the three endpoints under the service's address, all of them read, and
/// says what a key may ask and how often.
pub proof fn law_the_discovery_document_lists_the_endpoints(base: Seq<char>)
    ensures
        ({
            let m = index_json(base)->Object_0;
            let endpoints = m[3].1->Array_0;
            &&& m.len() == 5
            &&& m[0] == ("service"@, JsonView::Str("kick-channel-role"@))
            &&& m[1] == ("version"@, JsonView::Str("v1"@))
            &&& m[2].0 == "auth"@
            &&& m[3].0 == "endpoints"@
            &&& m[4].0 == "limits"@
            &&& endpoints.len() == 3
            &&& endpoints[0]->Object_0[1] == ("path"@, JsonView::Str(base + "/api/v1/whoami"@))
            &&& endpoints[1]->Object_0[1] == ("path"@, JsonView::Str(base + "/api/v1/users"@))
            &&& endpoints[2]->Object_0[1] == ("path"@, JsonView::Str(base + "/api/v1/users/{discord_id}"@))
            &&& forall|i: int|
                0 <= i < 3 ==> (#[trigger] endpoints[i])->Object_0[0] == ("method"@, JsonView::Str("GET"@))
            &&& m[4].1->Object_0[0] == ("requests_per_minute"@, JsonView::Int(120))
            &&& m[4].1->Object_0[1] == ("burst"@, JsonView::Int(30))
        }),
{
}

/// The time that a page is filtered by is the one that it tells: when the user's own record was last
/// refreshed, or a relation of the user's last looked at, whichever was later.
pub proof fn law_users_are_filtered_by_the_time_that_is_told(column: Option<Seq<char>>)
    ensures
        exists|time: Seq<char>, tail: Seq<char>|
            {
                &&& users_statement(column) == #[trigger] (USERS_SELECT@ + time + USERS_FROM@ + time + " >= $4)"@ + tail)
                &&& time == "GREATEST(ku.refreshed_at, COALESCE(max(cr.last_synced_at), ku.refreshed_at))"@
            },
{
    let time = "GREATEST(ku.refreshed_at, COALESCE(max(cr.last_synced_at), ku.refreshed_at))"@;
    let all = users_statement(column);
    let front = USERS_SELECT@ + time + USERS_FROM@ + time + " >= $4)"@;
    let tail = all.skip(front.len() as int);
    assert(all =~= front + tail);
}

/// The statement that is read by is that of the filter's own column.
pub proof fn law_users_are_read_by_the_filters_statement(column: Option<&str>, r: String)
    requires
        call_ensures(users_sql, (column,), r),
    ensures
        column is None ==> r@ == users_statement(None),
        column matches Some(c) ==> r@ == users_statement(Some(c@)),
{
}

} // verus!
