//! What the statements of writes do to a row, read off their text.

use vstd::prelude::*;
use vstd::string::*;

use crate::routes::event_effects::{
    changes, effect, row_user, statement_of, BADGES, CATEGORY_CHANGED, CHAT_SEEN, ENSURE_RELATION, FOLLOWED, GIFTER_BADGE, GIFTS_GIVEN,
    GIFT_RECEIVED, KICKS_GIFTED, LIVE_ENDED, LIVE_STARTED, RENEWED, SUBSCRIBED, SUBSCRIBER_BADGE,
};
use crate::routes::webhooks::OpView;
use crate::services::follow_sync::{FollowUpdate, STAMP_ATTEMPT, UPDATE_RELATION};
use crate::services::relation::Relation;
use crate::sql::{
    assignment_text, both, brings, case, coalesce, coalesce_all, distinct, either, equal, expr_text, expr_value, flag,
    greatest, is_set, less, number, own, paren, plus, runs, set_to, time, update_text, updated_cell, Assignment, Column,
    Expr, Scene, SqlValue, Table, Update,
};
use crate::tasks::reconcile::{expired, EXPIRE_SUBSCRIPTIONS};
use crate::text::{decimal, joined};
use crate::time::Timestamp;

verus! {

/// What a relation's row holds, column by column.
pub open spec fn cells(row: Relation) -> spec_fn(Table, Column) -> SqlValue {
    |of: Table, column: Column|
        match column {
            Column::IsFollower => flag(row.is_follower),
            Column::FollowedAt => time(row.followed_at),
            Column::FollowConfirmedAt => time(row.follow_confirmed_at),
            Column::FollowProbedAt => time(row.follow_probed_at),
            Column::FollowProbeAttemptedAt => time(row.follow_probe_attempted_at),
            Column::FollowMissedAt => time(row.follow_missed_at),
            Column::FollowProbeMisses => SqlValue::Number(row.follow_probe_misses as int),
            Column::IsSubscriber => flag(row.is_subscriber),
            Column::SubscribedAt => time(row.subscribed_at),
            Column::SubExpiresAt => time(row.sub_expires_at),
            Column::SubMonthsCumulative => SqlValue::Number(row.sub_months_cumulative),
            Column::SubStreakMonths => SqlValue::Number(row.sub_streak_months),
            Column::SubIsGift => flag(row.sub_is_gift),
            Column::GiftedSubsGiven => SqlValue::Number(row.gifted_subs_given),
            Column::IsVip => flag(row.is_vip),
            Column::IsModerator => flag(row.is_moderator),
            Column::IsOg => flag(row.is_og),
            Column::KicksDonated => SqlValue::Number(row.kicks_donated),
            Column::ChatMessages30d => SqlValue::Number(row.chat_messages_30d),
            Column::LastSeenAt => time(row.last_seen_at),
            Column::LastSyncedAt => time(row.last_synced_at),
            _ => SqlValue::Null,
        }
}

/// Joins one part more.
proof fn lemma_next_part(whole: Seq<char>, parts: Seq<Seq<char>>, i: int, start: int, middle: int, end: int)
    requires
        0 < i < parts.len(),
        0 <= start <= middle <= end <= whole.len(),
        joined(parts.take(i), ", "@) == whole.subrange(start, middle),
        whole.subrange(middle, end) == ", "@ + parts[i],
    ensures
        joined(parts.take(i + 1), ", "@) == whole.subrange(start, end),
{
    assert(parts.take(i + 1).drop_last() =~= parts.take(i));
    assert(parts.take(i + 1).last() == parts[i]);
    assert(whole.subrange(start, end) =~= whole.subrange(start, middle) + whole.subrange(middle, end));
    assert(whole.subrange(start, middle) + (", "@ + parts[i]) =~= whole.subrange(start, middle) + ", "@ + parts[i]);
}

/// The structure of [`FOLLOWED`].
spec fn followed() -> Update {
    Update {
        table: "channel_relations"@,
        sets: seq![
            Assignment { column: Column::IsFollower, sign: "="@, value: Expr::True },
            Assignment { column: Column::FollowedAt, sign: "="@, value: coalesce(own(Column::FollowedAt), Expr::Now) },
            Assignment { column: Column::LastSyncedAt, sign: "="@, value: Expr::Now },
        ],
        key: "kick_channel_id=$1 AND kick_user_id=$2"@,
        only: None,
    }
}

proof fn lemma_set_is_follower()
    ensures
        assignment_text(
            Assignment { column: Column::IsFollower, sign: "="@, value: Expr::True },
        ) == "is_follower=true"@,
{
    let e0 = Expr::True;
    assert(expr_text(e0) =~= "true"@) by {
        reveal_strlit("true");
    }
    assert(assignment_text(Assignment { column: Column::IsFollower, sign: "="@, value: e0 }) =~= "is_follower=true"@) by {
        reveal_strlit("is_follower");
        reveal_strlit("=");
        reveal_strlit("true");
        reveal_strlit("is_follower=true");
    }
}

proof fn lemma_set_followed_at()
    ensures
        assignment_text(
            Assignment { column: Column::FollowedAt, sign: "="@, value: coalesce(own(Column::FollowedAt), Expr::Now) },
        ) == "followed_at=COALESCE(followed_at, now())"@,
{
    let e0 = own(Column::FollowedAt);
    assert(expr_text(e0) =~= "followed_at"@) by {
        reveal_strlit("followed_at");
    }
    let e1 = Expr::Now;
    assert(expr_text(e1) =~= "now()"@) by {
        reveal_strlit("now()");
    }
    let e2 = Expr::Coalesce(Box::new(e0), Box::new(e1));
    assert(expr_text(e2) =~= "COALESCE(followed_at, now())"@) by {
        reveal_strlit("COALESCE(");
        reveal_strlit(", ");
        reveal_strlit(")");
        reveal_strlit("followed_at");
        reveal_strlit("now()");
        reveal_strlit("COALESCE(followed_at, now())");
    }
    assert(assignment_text(Assignment { column: Column::FollowedAt, sign: "="@, value: e2 }) =~= "followed_at=COALESCE(followed_at, now())"@) by {
        reveal_strlit("followed_at");
        reveal_strlit("=");
        reveal_strlit("COALESCE(followed_at, now())");
        reveal_strlit("followed_at=COALESCE(followed_at, now())");
    }
}

proof fn lemma_set_last_synced_at()
    ensures
        assignment_text(
            Assignment { column: Column::LastSyncedAt, sign: "="@, value: Expr::Now },
        ) == "last_synced_at=now()"@,
{
    let e0 = Expr::Now;
    assert(expr_text(e0) =~= "now()"@) by {
        reveal_strlit("now()");
    }
    assert(assignment_text(Assignment { column: Column::LastSyncedAt, sign: "="@, value: e0 }) =~= "last_synced_at=now()"@) by {
        reveal_strlit("last_synced_at");
        reveal_strlit("=");
        reveal_strlit("now()");
        reveal_strlit("last_synced_at=now()");
    }
}

#[verifier::spinoff_prover]
#[verifier::rlimit(80)]
proof fn lemma_text_of_followed()
    ensures
        FOLLOWED@ == update_text(followed()),
{
    lemma_set_is_follower();
    lemma_set_followed_at();
    lemma_set_last_synced_at();
    let whole = FOLLOWED@;
    assert(whole.len() == 154) by {
        reveal_strlit("UPDATE channel_relations SET is_follower=true, followed_at=COALESCE(followed_at, now()), last_synced_at=now() WHERE kick_channel_id=$1 AND kick_user_id=$2");
    }
    let parts = seq![
        "is_follower=true"@,
        "followed_at=COALESCE(followed_at, now())"@,
        "last_synced_at=now()"@,
    ];
    let u = followed();
    assert(u.sets.map_values(|a: Assignment| assignment_text(a)) =~= parts);
    assert(whole.subrange(0, 29) =~= "UPDATE "@ + "channel_relations"@ + " SET "@) by {
        reveal_strlit("UPDATE channel_relations SET is_follower=true, followed_at=COALESCE(followed_at, now()), last_synced_at=now() WHERE kick_channel_id=$1 AND kick_user_id=$2");
        reveal_strlit("UPDATE ");
        reveal_strlit("channel_relations");
        reveal_strlit(" SET ");
    }
    assert(whole.subrange(29, 45) =~= "is_follower=true"@) by {
        reveal_strlit("UPDATE channel_relations SET is_follower=true, followed_at=COALESCE(followed_at, now()), last_synced_at=now() WHERE kick_channel_id=$1 AND kick_user_id=$2");
        reveal_strlit("is_follower=true");
    }
    assert(parts.take(1) =~= seq!["is_follower=true"@]);
    assert(joined(parts.take(1), ", "@) == whole.subrange(29, 45));
    assert(whole.subrange(45, 87) =~= ", "@ + "followed_at=COALESCE(followed_at, now())"@) by {
        reveal_strlit("UPDATE channel_relations SET is_follower=true, followed_at=COALESCE(followed_at, now()), last_synced_at=now() WHERE kick_channel_id=$1 AND kick_user_id=$2");
        reveal_strlit(", ");
        reveal_strlit("followed_at=COALESCE(followed_at, now())");
    }
    lemma_next_part(whole, parts, 1, 29, 45, 87);
    assert(whole.subrange(87, 109) =~= ", "@ + "last_synced_at=now()"@) by {
        reveal_strlit("UPDATE channel_relations SET is_follower=true, followed_at=COALESCE(followed_at, now()), last_synced_at=now() WHERE kick_channel_id=$1 AND kick_user_id=$2");
        reveal_strlit(", ");
        reveal_strlit("last_synced_at=now()");
    }
    lemma_next_part(whole, parts, 2, 29, 87, 109);
    assert(parts.take(3) =~= parts);
    assert(whole.subrange(109, 154) =~= " WHERE "@ + "kick_channel_id=$1 AND kick_user_id=$2"@) by {
        reveal_strlit("UPDATE channel_relations SET is_follower=true, followed_at=COALESCE(followed_at, now()), last_synced_at=now() WHERE kick_channel_id=$1 AND kick_user_id=$2");
        reveal_strlit(" WHERE ");
        reveal_strlit("kick_channel_id=$1 AND kick_user_id=$2");
    }
    assert(whole =~= whole.subrange(0, 29) + whole.subrange(29, 109) + whole.subrange(109, 154));
}

/// The structure of [`SUBSCRIBED`].
spec fn subscribed() -> Update {
    Update {
        table: "channel_relations"@,
        sets: seq![
            Assignment { column: Column::IsSubscriber, sign: "="@, value: Expr::True },
            Assignment { column: Column::SubscribedAt, sign: "="@, value: coalesce(own(Column::SubscribedAt), coalesce(Expr::Param(3), Expr::Now)) },
            Assignment { column: Column::SubExpiresAt, sign: "="@, value: coalesce(Expr::Param(4), own(Column::SubExpiresAt)) },
            Assignment { column: Column::SubMonthsCumulative, sign: "="@, value: greatest(own(Column::SubMonthsCumulative), coalesce(Expr::Param(5), Expr::Number(1))) },
            Assignment { column: Column::SubStreakMonths, sign: "="@, value: greatest(own(Column::SubStreakMonths), Expr::Number(1)) },
            Assignment { column: Column::LastSyncedAt, sign: "="@, value: Expr::Now },
        ],
        key: "kick_channel_id=$1 AND kick_user_id=$2"@,
        only: None,
    }
}

proof fn lemma_set_is_subscriber()
    ensures
        assignment_text(
            Assignment { column: Column::IsSubscriber, sign: "="@, value: Expr::True },
        ) == "is_subscriber=true"@,
{
    let e0 = Expr::True;
    assert(expr_text(e0) =~= "true"@) by {
        reveal_strlit("true");
    }
    assert(assignment_text(Assignment { column: Column::IsSubscriber, sign: "="@, value: e0 }) =~= "is_subscriber=true"@) by {
        reveal_strlit("is_subscriber");
        reveal_strlit("=");
        reveal_strlit("true");
        reveal_strlit("is_subscriber=true");
    }
}

#[verifier::spinoff_prover]
#[verifier::rlimit(80)]
proof fn lemma_set_subscribed_at()
    ensures
        assignment_text(
            Assignment { column: Column::SubscribedAt, sign: "="@, value: coalesce(own(Column::SubscribedAt), coalesce(Expr::Param(3), Expr::Now)) },
        ) == "subscribed_at=COALESCE(subscribed_at, COALESCE($3, now()))"@,
{
    let e0 = own(Column::SubscribedAt);
    assert(expr_text(e0) =~= "subscribed_at"@) by {
        reveal_strlit("subscribed_at");
    }
    let e1 = Expr::Param(3);
    assert(expr_text(e1) =~= "$3"@) by {
        reveal_strlit("$");
        reveal_strlit("$3");
        reveal_with_fuel(decimal, 3);
    }
    let e2 = Expr::Now;
    assert(expr_text(e2) =~= "now()"@) by {
        reveal_strlit("now()");
    }
    let e3 = Expr::Coalesce(Box::new(e1), Box::new(e2));
    assert(expr_text(e3) =~= "COALESCE($3, now())"@) by {
        reveal_strlit("COALESCE(");
        reveal_strlit(", ");
        reveal_strlit(")");
        reveal_strlit("$3");
        reveal_strlit("now()");
        reveal_strlit("COALESCE($3, now())");
    }
    let e4 = Expr::Coalesce(Box::new(e0), Box::new(e3));
    assert(expr_text(e4) =~= "COALESCE(subscribed_at, COALESCE($3, now()))"@) by {
        reveal_strlit("COALESCE(");
        reveal_strlit(", ");
        reveal_strlit(")");
        reveal_strlit("subscribed_at");
        reveal_strlit("COALESCE($3, now())");
        reveal_strlit("COALESCE(subscribed_at, COALESCE($3, now()))");
    }
    assert(assignment_text(Assignment { column: Column::SubscribedAt, sign: "="@, value: e4 }) =~= "subscribed_at=COALESCE(subscribed_at, COALESCE($3, now()))"@) by {
        reveal_strlit("subscribed_at");
        reveal_strlit("=");
        reveal_strlit("COALESCE(subscribed_at, COALESCE($3, now()))");
        reveal_strlit("subscribed_at=COALESCE(subscribed_at, COALESCE($3, now()))");
    }
}

proof fn lemma_set_sub_expires_at()
    ensures
        assignment_text(
            Assignment { column: Column::SubExpiresAt, sign: "="@, value: coalesce(Expr::Param(4), own(Column::SubExpiresAt)) },
        ) == "sub_expires_at=COALESCE($4, sub_expires_at)"@,
{
    let e0 = Expr::Param(4);
    assert(expr_text(e0) =~= "$4"@) by {
        reveal_strlit("$");
        reveal_strlit("$4");
        reveal_with_fuel(decimal, 3);
    }
    let e1 = own(Column::SubExpiresAt);
    assert(expr_text(e1) =~= "sub_expires_at"@) by {
        reveal_strlit("sub_expires_at");
    }
    let e2 = Expr::Coalesce(Box::new(e0), Box::new(e1));
    assert(expr_text(e2) =~= "COALESCE($4, sub_expires_at)"@) by {
        reveal_strlit("COALESCE(");
        reveal_strlit(", ");
        reveal_strlit(")");
        reveal_strlit("$4");
        reveal_strlit("sub_expires_at");
        reveal_strlit("COALESCE($4, sub_expires_at)");
    }
    assert(assignment_text(Assignment { column: Column::SubExpiresAt, sign: "="@, value: e2 }) =~= "sub_expires_at=COALESCE($4, sub_expires_at)"@) by {
        reveal_strlit("sub_expires_at");
        reveal_strlit("=");
        reveal_strlit("COALESCE($4, sub_expires_at)");
        reveal_strlit("sub_expires_at=COALESCE($4, sub_expires_at)");
    }
}

#[verifier::spinoff_prover]
#[verifier::rlimit(80)]
proof fn lemma_set_sub_months_cumulative()
    ensures
        assignment_text(
            Assignment { column: Column::SubMonthsCumulative, sign: "="@, value: greatest(own(Column::SubMonthsCumulative), coalesce(Expr::Param(5), Expr::Number(1))) },
        ) == "sub_months_cumulative=GREATEST(sub_months_cumulative, COALESCE($5, 1))"@,
{
    let e0 = own(Column::SubMonthsCumulative);
    assert(expr_text(e0) =~= "sub_months_cumulative"@) by {
        reveal_strlit("sub_months_cumulative");
    }
    let e1 = Expr::Param(5);
    assert(expr_text(e1) =~= "$5"@) by {
        reveal_strlit("$");
        reveal_strlit("$5");
        reveal_with_fuel(decimal, 3);
    }
    let e2 = Expr::Number(1);
    assert(expr_text(e2) =~= "1"@) by {
        reveal_strlit("1");
        reveal_with_fuel(decimal, 3);
    }
    let e3 = Expr::Coalesce(Box::new(e1), Box::new(e2));
    assert(expr_text(e3) =~= "COALESCE($5, 1)"@) by {
        reveal_strlit("COALESCE(");
        reveal_strlit(", ");
        reveal_strlit(")");
        reveal_strlit("$5");
        reveal_strlit("1");
        reveal_strlit("COALESCE($5, 1)");
    }
    let e4 = Expr::Greatest(Box::new(e0), Box::new(e3));
    assert(expr_text(e4) =~= "GREATEST(sub_months_cumulative, COALESCE($5, 1))"@) by {
        reveal_strlit("GREATEST(");
        reveal_strlit(", ");
        reveal_strlit(")");
        reveal_strlit("sub_months_cumulative");
        reveal_strlit("COALESCE($5, 1)");
        reveal_strlit("GREATEST(sub_months_cumulative, COALESCE($5, 1))");
    }
    assert(assignment_text(Assignment { column: Column::SubMonthsCumulative, sign: "="@, value: e4 }) =~= "sub_months_cumulative=GREATEST(sub_months_cumulative, COALESCE($5, 1))"@) by {
        reveal_strlit("sub_months_cumulative");
        reveal_strlit("=");
        reveal_strlit("GREATEST(sub_months_cumulative, COALESCE($5, 1))");
        reveal_strlit("sub_months_cumulative=GREATEST(sub_months_cumulative, COALESCE($5, 1))");
    }
}

proof fn lemma_set_sub_streak_months()
    ensures
        assignment_text(
            Assignment { column: Column::SubStreakMonths, sign: "="@, value: greatest(own(Column::SubStreakMonths), Expr::Number(1)) },
        ) == "sub_streak_months=GREATEST(sub_streak_months, 1)"@,
{
    let e0 = own(Column::SubStreakMonths);
    assert(expr_text(e0) =~= "sub_streak_months"@) by {
        reveal_strlit("sub_streak_months");
    }
    let e1 = Expr::Number(1);
    assert(expr_text(e1) =~= "1"@) by {
        reveal_strlit("1");
        reveal_with_fuel(decimal, 3);
    }
    let e2 = Expr::Greatest(Box::new(e0), Box::new(e1));
    assert(expr_text(e2) =~= "GREATEST(sub_streak_months, 1)"@) by {
        reveal_strlit("GREATEST(");
        reveal_strlit(", ");
        reveal_strlit(")");
        reveal_strlit("sub_streak_months");
        reveal_strlit("1");
        reveal_strlit("GREATEST(sub_streak_months, 1)");
    }
    assert(assignment_text(Assignment { column: Column::SubStreakMonths, sign: "="@, value: e2 }) =~= "sub_streak_months=GREATEST(sub_streak_months, 1)"@) by {
        reveal_strlit("sub_streak_months");
        reveal_strlit("=");
        reveal_strlit("GREATEST(sub_streak_months, 1)");
        reveal_strlit("sub_streak_months=GREATEST(sub_streak_months, 1)");
    }
}

#[verifier::spinoff_prover]
#[verifier::rlimit(80)]
proof fn lemma_text_of_subscribed()
    ensures
        SUBSCRIBED@ == update_text(subscribed()),
{
    lemma_set_is_subscriber();
    lemma_set_subscribed_at();
    lemma_set_sub_expires_at();
    lemma_set_sub_months_cumulative();
    lemma_set_sub_streak_months();
    lemma_set_last_synced_at();
    let whole = SUBSCRIBED@;
    assert(whole.len() == 341) by {
        reveal_strlit("UPDATE channel_relations SET is_subscriber=true, subscribed_at=COALESCE(subscribed_at, COALESCE($3, now())), sub_expires_at=COALESCE($4, sub_expires_at), sub_months_cumulative=GREATEST(sub_months_cumulative, COALESCE($5, 1)), sub_streak_months=GREATEST(sub_streak_months, 1), last_synced_at=now() WHERE kick_channel_id=$1 AND kick_user_id=$2");
    }
    let parts = seq![
        "is_subscriber=true"@,
        "subscribed_at=COALESCE(subscribed_at, COALESCE($3, now()))"@,
        "sub_expires_at=COALESCE($4, sub_expires_at)"@,
        "sub_months_cumulative=GREATEST(sub_months_cumulative, COALESCE($5, 1))"@,
        "sub_streak_months=GREATEST(sub_streak_months, 1)"@,
        "last_synced_at=now()"@,
    ];
    let u = subscribed();
    assert(u.sets.map_values(|a: Assignment| assignment_text(a)) =~= parts);
    assert(whole.subrange(0, 29) =~= "UPDATE "@ + "channel_relations"@ + " SET "@) by {
        reveal_strlit("UPDATE channel_relations SET is_subscriber=true, subscribed_at=COALESCE(subscribed_at, COALESCE($3, now())), sub_expires_at=COALESCE($4, sub_expires_at), sub_months_cumulative=GREATEST(sub_months_cumulative, COALESCE($5, 1)), sub_streak_months=GREATEST(sub_streak_months, 1), last_synced_at=now() WHERE kick_channel_id=$1 AND kick_user_id=$2");
        reveal_strlit("UPDATE ");
        reveal_strlit("channel_relations");
        reveal_strlit(" SET ");
    }
    assert(whole.subrange(29, 47) =~= "is_subscriber=true"@) by {
        reveal_strlit("UPDATE channel_relations SET is_subscriber=true, subscribed_at=COALESCE(subscribed_at, COALESCE($3, now())), sub_expires_at=COALESCE($4, sub_expires_at), sub_months_cumulative=GREATEST(sub_months_cumulative, COALESCE($5, 1)), sub_streak_months=GREATEST(sub_streak_months, 1), last_synced_at=now() WHERE kick_channel_id=$1 AND kick_user_id=$2");
        reveal_strlit("is_subscriber=true");
    }
    assert(parts.take(1) =~= seq!["is_subscriber=true"@]);
    assert(joined(parts.take(1), ", "@) == whole.subrange(29, 47));
    assert(whole.subrange(47, 107) =~= ", "@ + "subscribed_at=COALESCE(subscribed_at, COALESCE($3, now()))"@) by {
        reveal_strlit("UPDATE channel_relations SET is_subscriber=true, subscribed_at=COALESCE(subscribed_at, COALESCE($3, now())), sub_expires_at=COALESCE($4, sub_expires_at), sub_months_cumulative=GREATEST(sub_months_cumulative, COALESCE($5, 1)), sub_streak_months=GREATEST(sub_streak_months, 1), last_synced_at=now() WHERE kick_channel_id=$1 AND kick_user_id=$2");
        reveal_strlit(", ");
        reveal_strlit("subscribed_at=COALESCE(subscribed_at, COALESCE($3, now()))");
    }
    lemma_next_part(whole, parts, 1, 29, 47, 107);
    assert(whole.subrange(107, 152) =~= ", "@ + "sub_expires_at=COALESCE($4, sub_expires_at)"@) by {
        reveal_strlit("UPDATE channel_relations SET is_subscriber=true, subscribed_at=COALESCE(subscribed_at, COALESCE($3, now())), sub_expires_at=COALESCE($4, sub_expires_at), sub_months_cumulative=GREATEST(sub_months_cumulative, COALESCE($5, 1)), sub_streak_months=GREATEST(sub_streak_months, 1), last_synced_at=now() WHERE kick_channel_id=$1 AND kick_user_id=$2");
        reveal_strlit(", ");
        reveal_strlit("sub_expires_at=COALESCE($4, sub_expires_at)");
    }
    lemma_next_part(whole, parts, 2, 29, 107, 152);
    assert(whole.subrange(152, 224) =~= ", "@ + "sub_months_cumulative=GREATEST(sub_months_cumulative, COALESCE($5, 1))"@) by {
        reveal_strlit("UPDATE channel_relations SET is_subscriber=true, subscribed_at=COALESCE(subscribed_at, COALESCE($3, now())), sub_expires_at=COALESCE($4, sub_expires_at), sub_months_cumulative=GREATEST(sub_months_cumulative, COALESCE($5, 1)), sub_streak_months=GREATEST(sub_streak_months, 1), last_synced_at=now() WHERE kick_channel_id=$1 AND kick_user_id=$2");
        reveal_strlit(", ");
        reveal_strlit("sub_months_cumulative=GREATEST(sub_months_cumulative, COALESCE($5, 1))");
    }
    lemma_next_part(whole, parts, 3, 29, 152, 224);
    assert(whole.subrange(224, 274) =~= ", "@ + "sub_streak_months=GREATEST(sub_streak_months, 1)"@) by {
        reveal_strlit("UPDATE channel_relations SET is_subscriber=true, subscribed_at=COALESCE(subscribed_at, COALESCE($3, now())), sub_expires_at=COALESCE($4, sub_expires_at), sub_months_cumulative=GREATEST(sub_months_cumulative, COALESCE($5, 1)), sub_streak_months=GREATEST(sub_streak_months, 1), last_synced_at=now() WHERE kick_channel_id=$1 AND kick_user_id=$2");
        reveal_strlit(", ");
        reveal_strlit("sub_streak_months=GREATEST(sub_streak_months, 1)");
    }
    lemma_next_part(whole, parts, 4, 29, 224, 274);
    assert(whole.subrange(274, 296) =~= ", "@ + "last_synced_at=now()"@) by {
        reveal_strlit("UPDATE channel_relations SET is_subscriber=true, subscribed_at=COALESCE(subscribed_at, COALESCE($3, now())), sub_expires_at=COALESCE($4, sub_expires_at), sub_months_cumulative=GREATEST(sub_months_cumulative, COALESCE($5, 1)), sub_streak_months=GREATEST(sub_streak_months, 1), last_synced_at=now() WHERE kick_channel_id=$1 AND kick_user_id=$2");
        reveal_strlit(", ");
        reveal_strlit("last_synced_at=now()");
    }
    lemma_next_part(whole, parts, 5, 29, 274, 296);
    assert(parts.take(6) =~= parts);
    assert(whole.subrange(296, 341) =~= " WHERE "@ + "kick_channel_id=$1 AND kick_user_id=$2"@) by {
        reveal_strlit("UPDATE channel_relations SET is_subscriber=true, subscribed_at=COALESCE(subscribed_at, COALESCE($3, now())), sub_expires_at=COALESCE($4, sub_expires_at), sub_months_cumulative=GREATEST(sub_months_cumulative, COALESCE($5, 1)), sub_streak_months=GREATEST(sub_streak_months, 1), last_synced_at=now() WHERE kick_channel_id=$1 AND kick_user_id=$2");
        reveal_strlit(" WHERE ");
        reveal_strlit("kick_channel_id=$1 AND kick_user_id=$2");
    }
    assert(whole =~= whole.subrange(0, 29) + whole.subrange(29, 296) + whole.subrange(296, 341));
}

/// The structure of [`RENEWED`].
spec fn renewed() -> Update {
    Update {
        table: "channel_relations"@,
        sets: seq![
            Assignment { column: Column::IsSubscriber, sign: "="@, value: Expr::True },
            Assignment { column: Column::SubExpiresAt, sign: "="@, value: coalesce(Expr::Param(4), own(Column::SubExpiresAt)) },
            Assignment { column: Column::SubMonthsCumulative, sign: "="@, value: greatest(plus(own(Column::SubMonthsCumulative), Expr::Number(1)), coalesce(Expr::Param(3), Expr::Number(0))) },
            Assignment { column: Column::SubStreakMonths, sign: "="@, value: plus(own(Column::SubStreakMonths), Expr::Number(1)) },
            Assignment { column: Column::LastSyncedAt, sign: "="@, value: Expr::Now },
        ],
        key: "kick_channel_id=$1 AND kick_user_id=$2"@,
        only: None,
    }
}

#[verifier::spinoff_prover]
#[verifier::rlimit(80)]
proof fn lemma_set_sub_months_cumulative_2()
    ensures
        assignment_text(
            Assignment { column: Column::SubMonthsCumulative, sign: "="@, value: greatest(plus(own(Column::SubMonthsCumulative), Expr::Number(1)), coalesce(Expr::Param(3), Expr::Number(0))) },
        ) == "sub_months_cumulative=GREATEST(sub_months_cumulative + 1, COALESCE($3, 0))"@,
{
    let e0 = own(Column::SubMonthsCumulative);
    assert(expr_text(e0) =~= "sub_months_cumulative"@) by {
        reveal_strlit("sub_months_cumulative");
    }
    let e1 = Expr::Number(1);
    assert(expr_text(e1) =~= "1"@) by {
        reveal_strlit("1");
        reveal_with_fuel(decimal, 3);
    }
    let e2 = Expr::Plus(Box::new(e0), Box::new(e1));
    assert(expr_text(e2) =~= "sub_months_cumulative + 1"@) by {
        reveal_strlit(" + ");
        reveal_strlit("sub_months_cumulative");
        reveal_strlit("1");
        reveal_strlit("sub_months_cumulative + 1");
    }
    let e3 = Expr::Param(3);
    assert(expr_text(e3) =~= "$3"@) by {
        reveal_strlit("$");
        reveal_strlit("$3");
        reveal_with_fuel(decimal, 3);
    }
    let e4 = Expr::Number(0);
    assert(expr_text(e4) =~= "0"@) by {
        reveal_strlit("0");
        reveal_with_fuel(decimal, 3);
    }
    let e5 = Expr::Coalesce(Box::new(e3), Box::new(e4));
    assert(expr_text(e5) =~= "COALESCE($3, 0)"@) by {
        reveal_strlit("COALESCE(");
        reveal_strlit(", ");
        reveal_strlit(")");
        reveal_strlit("$3");
        reveal_strlit("0");
        reveal_strlit("COALESCE($3, 0)");
    }
    let e6 = Expr::Greatest(Box::new(e2), Box::new(e5));
    assert(expr_text(e6) =~= "GREATEST(sub_months_cumulative + 1, COALESCE($3, 0))"@) by {
        reveal_strlit("GREATEST(");
        reveal_strlit(", ");
        reveal_strlit(")");
        reveal_strlit("sub_months_cumulative + 1");
        reveal_strlit("COALESCE($3, 0)");
        reveal_strlit("GREATEST(sub_months_cumulative + 1, COALESCE($3, 0))");
    }
    assert(assignment_text(Assignment { column: Column::SubMonthsCumulative, sign: "="@, value: e6 }) =~= "sub_months_cumulative=GREATEST(sub_months_cumulative + 1, COALESCE($3, 0))"@) by {
        reveal_strlit("sub_months_cumulative");
        reveal_strlit("=");
        reveal_strlit("GREATEST(sub_months_cumulative + 1, COALESCE($3, 0))");
        reveal_strlit("sub_months_cumulative=GREATEST(sub_months_cumulative + 1, COALESCE($3, 0))");
    }
}

proof fn lemma_set_sub_streak_months_2()
    ensures
        assignment_text(
            Assignment { column: Column::SubStreakMonths, sign: "="@, value: plus(own(Column::SubStreakMonths), Expr::Number(1)) },
        ) == "sub_streak_months=sub_streak_months + 1"@,
{
    let e0 = own(Column::SubStreakMonths);
    assert(expr_text(e0) =~= "sub_streak_months"@) by {
        reveal_strlit("sub_streak_months");
    }
    let e1 = Expr::Number(1);
    assert(expr_text(e1) =~= "1"@) by {
        reveal_strlit("1");
        reveal_with_fuel(decimal, 3);
    }
    let e2 = Expr::Plus(Box::new(e0), Box::new(e1));
    assert(expr_text(e2) =~= "sub_streak_months + 1"@) by {
        reveal_strlit(" + ");
        reveal_strlit("sub_streak_months");
        reveal_strlit("1");
        reveal_strlit("sub_streak_months + 1");
    }
    assert(assignment_text(Assignment { column: Column::SubStreakMonths, sign: "="@, value: e2 }) =~= "sub_streak_months=sub_streak_months + 1"@) by {
        reveal_strlit("sub_streak_months");
        reveal_strlit("=");
        reveal_strlit("sub_streak_months + 1");
        reveal_strlit("sub_streak_months=sub_streak_months + 1");
    }
}

#[verifier::spinoff_prover]
#[verifier::rlimit(80)]
proof fn lemma_text_of_renewed()
    ensures
        RENEWED@ == update_text(renewed()),
{
    lemma_set_is_subscriber();
    lemma_set_sub_expires_at();
    lemma_set_sub_months_cumulative_2();
    lemma_set_sub_streak_months_2();
    lemma_set_last_synced_at();
    let whole = RENEWED@;
    assert(whole.len() == 276) by {
        reveal_strlit("UPDATE channel_relations SET is_subscriber=true, sub_expires_at=COALESCE($4, sub_expires_at), sub_months_cumulative=GREATEST(sub_months_cumulative + 1, COALESCE($3, 0)), sub_streak_months=sub_streak_months + 1, last_synced_at=now() WHERE kick_channel_id=$1 AND kick_user_id=$2");
    }
    let parts = seq![
        "is_subscriber=true"@,
        "sub_expires_at=COALESCE($4, sub_expires_at)"@,
        "sub_months_cumulative=GREATEST(sub_months_cumulative + 1, COALESCE($3, 0))"@,
        "sub_streak_months=sub_streak_months + 1"@,
        "last_synced_at=now()"@,
    ];
    let u = renewed();
    assert(u.sets.map_values(|a: Assignment| assignment_text(a)) =~= parts);
    assert(whole.subrange(0, 29) =~= "UPDATE "@ + "channel_relations"@ + " SET "@) by {
        reveal_strlit("UPDATE channel_relations SET is_subscriber=true, sub_expires_at=COALESCE($4, sub_expires_at), sub_months_cumulative=GREATEST(sub_months_cumulative + 1, COALESCE($3, 0)), sub_streak_months=sub_streak_months + 1, last_synced_at=now() WHERE kick_channel_id=$1 AND kick_user_id=$2");
        reveal_strlit("UPDATE ");
        reveal_strlit("channel_relations");
        reveal_strlit(" SET ");
    }
    assert(whole.subrange(29, 47) =~= "is_subscriber=true"@) by {
        reveal_strlit("UPDATE channel_relations SET is_subscriber=true, sub_expires_at=COALESCE($4, sub_expires_at), sub_months_cumulative=GREATEST(sub_months_cumulative + 1, COALESCE($3, 0)), sub_streak_months=sub_streak_months + 1, last_synced_at=now() WHERE kick_channel_id=$1 AND kick_user_id=$2");
        reveal_strlit("is_subscriber=true");
    }
    assert(parts.take(1) =~= seq!["is_subscriber=true"@]);
    assert(joined(parts.take(1), ", "@) == whole.subrange(29, 47));
    assert(whole.subrange(47, 92) =~= ", "@ + "sub_expires_at=COALESCE($4, sub_expires_at)"@) by {
        reveal_strlit("UPDATE channel_relations SET is_subscriber=true, sub_expires_at=COALESCE($4, sub_expires_at), sub_months_cumulative=GREATEST(sub_months_cumulative + 1, COALESCE($3, 0)), sub_streak_months=sub_streak_months + 1, last_synced_at=now() WHERE kick_channel_id=$1 AND kick_user_id=$2");
        reveal_strlit(", ");
        reveal_strlit("sub_expires_at=COALESCE($4, sub_expires_at)");
    }
    lemma_next_part(whole, parts, 1, 29, 47, 92);
    assert(whole.subrange(92, 168) =~= ", "@ + "sub_months_cumulative=GREATEST(sub_months_cumulative + 1, COALESCE($3, 0))"@) by {
        reveal_strlit("UPDATE channel_relations SET is_subscriber=true, sub_expires_at=COALESCE($4, sub_expires_at), sub_months_cumulative=GREATEST(sub_months_cumulative + 1, COALESCE($3, 0)), sub_streak_months=sub_streak_months + 1, last_synced_at=now() WHERE kick_channel_id=$1 AND kick_user_id=$2");
        reveal_strlit(", ");
        reveal_strlit("sub_months_cumulative=GREATEST(sub_months_cumulative + 1, COALESCE($3, 0))");
    }
    lemma_next_part(whole, parts, 2, 29, 92, 168);
    assert(whole.subrange(168, 209) =~= ", "@ + "sub_streak_months=sub_streak_months + 1"@) by {
        reveal_strlit("UPDATE channel_relations SET is_subscriber=true, sub_expires_at=COALESCE($4, sub_expires_at), sub_months_cumulative=GREATEST(sub_months_cumulative + 1, COALESCE($3, 0)), sub_streak_months=sub_streak_months + 1, last_synced_at=now() WHERE kick_channel_id=$1 AND kick_user_id=$2");
        reveal_strlit(", ");
        reveal_strlit("sub_streak_months=sub_streak_months + 1");
    }
    lemma_next_part(whole, parts, 3, 29, 168, 209);
    assert(whole.subrange(209, 231) =~= ", "@ + "last_synced_at=now()"@) by {
        reveal_strlit("UPDATE channel_relations SET is_subscriber=true, sub_expires_at=COALESCE($4, sub_expires_at), sub_months_cumulative=GREATEST(sub_months_cumulative + 1, COALESCE($3, 0)), sub_streak_months=sub_streak_months + 1, last_synced_at=now() WHERE kick_channel_id=$1 AND kick_user_id=$2");
        reveal_strlit(", ");
        reveal_strlit("last_synced_at=now()");
    }
    lemma_next_part(whole, parts, 4, 29, 209, 231);
    assert(parts.take(5) =~= parts);
    assert(whole.subrange(231, 276) =~= " WHERE "@ + "kick_channel_id=$1 AND kick_user_id=$2"@) by {
        reveal_strlit("UPDATE channel_relations SET is_subscriber=true, sub_expires_at=COALESCE($4, sub_expires_at), sub_months_cumulative=GREATEST(sub_months_cumulative + 1, COALESCE($3, 0)), sub_streak_months=sub_streak_months + 1, last_synced_at=now() WHERE kick_channel_id=$1 AND kick_user_id=$2");
        reveal_strlit(" WHERE ");
        reveal_strlit("kick_channel_id=$1 AND kick_user_id=$2");
    }
    assert(whole =~= whole.subrange(0, 29) + whole.subrange(29, 231) + whole.subrange(231, 276));
}

/// The structure of [`GIFTS_GIVEN`].
spec fn gifts_given() -> Update {
    Update {
        table: "channel_relations"@,
        sets: seq![
            Assignment { column: Column::GiftedSubsGiven, sign: " = "@, value: plus(own(Column::GiftedSubsGiven), Expr::Param(3)) },
            Assignment { column: Column::LastSyncedAt, sign: "="@, value: Expr::Now },
        ],
        key: "kick_channel_id=$1 AND kick_user_id=$2"@,
        only: None,
    }
}

proof fn lemma_set_gifted_subs_given()
    ensures
        assignment_text(
            Assignment { column: Column::GiftedSubsGiven, sign: " = "@, value: plus(own(Column::GiftedSubsGiven), Expr::Param(3)) },
        ) == "gifted_subs_given = gifted_subs_given + $3"@,
{
    let e0 = own(Column::GiftedSubsGiven);
    assert(expr_text(e0) =~= "gifted_subs_given"@) by {
        reveal_strlit("gifted_subs_given");
    }
    let e1 = Expr::Param(3);
    assert(expr_text(e1) =~= "$3"@) by {
        reveal_strlit("$");
        reveal_strlit("$3");
        reveal_with_fuel(decimal, 3);
    }
    let e2 = Expr::Plus(Box::new(e0), Box::new(e1));
    assert(expr_text(e2) =~= "gifted_subs_given + $3"@) by {
        reveal_strlit(" + ");
        reveal_strlit("gifted_subs_given");
        reveal_strlit("$3");
        reveal_strlit("gifted_subs_given + $3");
    }
    assert(assignment_text(Assignment { column: Column::GiftedSubsGiven, sign: " = "@, value: e2 }) =~= "gifted_subs_given = gifted_subs_given + $3"@) by {
        reveal_strlit("gifted_subs_given");
        reveal_strlit(" = ");
        reveal_strlit("gifted_subs_given + $3");
        reveal_strlit("gifted_subs_given = gifted_subs_given + $3");
    }
}

#[verifier::spinoff_prover]
#[verifier::rlimit(80)]
proof fn lemma_text_of_gifts_given()
    ensures
        GIFTS_GIVEN@ == update_text(gifts_given()),
{
    lemma_set_gifted_subs_given();
    lemma_set_last_synced_at();
    let whole = GIFTS_GIVEN@;
    assert(whole.len() == 138) by {
        reveal_strlit("UPDATE channel_relations SET gifted_subs_given = gifted_subs_given + $3, last_synced_at=now() WHERE kick_channel_id=$1 AND kick_user_id=$2");
    }
    let parts = seq![
        "gifted_subs_given = gifted_subs_given + $3"@,
        "last_synced_at=now()"@,
    ];
    let u = gifts_given();
    assert(u.sets.map_values(|a: Assignment| assignment_text(a)) =~= parts);
    assert(whole.subrange(0, 29) =~= "UPDATE "@ + "channel_relations"@ + " SET "@) by {
        reveal_strlit("UPDATE channel_relations SET gifted_subs_given = gifted_subs_given + $3, last_synced_at=now() WHERE kick_channel_id=$1 AND kick_user_id=$2");
        reveal_strlit("UPDATE ");
        reveal_strlit("channel_relations");
        reveal_strlit(" SET ");
    }
    assert(whole.subrange(29, 71) =~= "gifted_subs_given = gifted_subs_given + $3"@) by {
        reveal_strlit("UPDATE channel_relations SET gifted_subs_given = gifted_subs_given + $3, last_synced_at=now() WHERE kick_channel_id=$1 AND kick_user_id=$2");
        reveal_strlit("gifted_subs_given = gifted_subs_given + $3");
    }
    assert(parts.take(1) =~= seq!["gifted_subs_given = gifted_subs_given + $3"@]);
    assert(joined(parts.take(1), ", "@) == whole.subrange(29, 71));
    assert(whole.subrange(71, 93) =~= ", "@ + "last_synced_at=now()"@) by {
        reveal_strlit("UPDATE channel_relations SET gifted_subs_given = gifted_subs_given + $3, last_synced_at=now() WHERE kick_channel_id=$1 AND kick_user_id=$2");
        reveal_strlit(", ");
        reveal_strlit("last_synced_at=now()");
    }
    lemma_next_part(whole, parts, 1, 29, 71, 93);
    assert(parts.take(2) =~= parts);
    assert(whole.subrange(93, 138) =~= " WHERE "@ + "kick_channel_id=$1 AND kick_user_id=$2"@) by {
        reveal_strlit("UPDATE channel_relations SET gifted_subs_given = gifted_subs_given + $3, last_synced_at=now() WHERE kick_channel_id=$1 AND kick_user_id=$2");
        reveal_strlit(" WHERE ");
        reveal_strlit("kick_channel_id=$1 AND kick_user_id=$2");
    }
    assert(whole =~= whole.subrange(0, 29) + whole.subrange(29, 93) + whole.subrange(93, 138));
}

/// The structure of [`GIFT_RECEIVED`].
spec fn gift_received() -> Update {
    Update {
        table: "channel_relations"@,
        sets: seq![
            Assignment { column: Column::IsSubscriber, sign: "="@, value: Expr::True },
            Assignment { column: Column::SubIsGift, sign: "="@, value: Expr::True },
            Assignment { column: Column::SubscribedAt, sign: "="@, value: coalesce(own(Column::SubscribedAt), Expr::Now) },
            Assignment { column: Column::SubExpiresAt, sign: "="@, value: coalesce(Expr::Param(3), own(Column::SubExpiresAt)) },
            Assignment { column: Column::SubMonthsCumulative, sign: "="@, value: greatest(own(Column::SubMonthsCumulative), Expr::Number(1)) },
            Assignment { column: Column::SubStreakMonths, sign: "="@, value: greatest(own(Column::SubStreakMonths), Expr::Number(1)) },
            Assignment { column: Column::LastSyncedAt, sign: "="@, value: Expr::Now },
        ],
        key: "kick_channel_id=$1 AND kick_user_id=$2"@,
        only: None,
    }
}

proof fn lemma_set_sub_is_gift()
    ensures
        assignment_text(
            Assignment { column: Column::SubIsGift, sign: "="@, value: Expr::True },
        ) == "sub_is_gift=true"@,
{
    let e0 = Expr::True;
    assert(expr_text(e0) =~= "true"@) by {
        reveal_strlit("true");
    }
    assert(assignment_text(Assignment { column: Column::SubIsGift, sign: "="@, value: e0 }) =~= "sub_is_gift=true"@) by {
        reveal_strlit("sub_is_gift");
        reveal_strlit("=");
        reveal_strlit("true");
        reveal_strlit("sub_is_gift=true");
    }
}

proof fn lemma_set_subscribed_at_2()
    ensures
        assignment_text(
            Assignment { column: Column::SubscribedAt, sign: "="@, value: coalesce(own(Column::SubscribedAt), Expr::Now) },
        ) == "subscribed_at=COALESCE(subscribed_at, now())"@,
{
    let e0 = own(Column::SubscribedAt);
    assert(expr_text(e0) =~= "subscribed_at"@) by {
        reveal_strlit("subscribed_at");
    }
    let e1 = Expr::Now;
    assert(expr_text(e1) =~= "now()"@) by {
        reveal_strlit("now()");
    }
    let e2 = Expr::Coalesce(Box::new(e0), Box::new(e1));
    assert(expr_text(e2) =~= "COALESCE(subscribed_at, now())"@) by {
        reveal_strlit("COALESCE(");
        reveal_strlit(", ");
        reveal_strlit(")");
        reveal_strlit("subscribed_at");
        reveal_strlit("now()");
        reveal_strlit("COALESCE(subscribed_at, now())");
    }
    assert(assignment_text(Assignment { column: Column::SubscribedAt, sign: "="@, value: e2 }) =~= "subscribed_at=COALESCE(subscribed_at, now())"@) by {
        reveal_strlit("subscribed_at");
        reveal_strlit("=");
        reveal_strlit("COALESCE(subscribed_at, now())");
        reveal_strlit("subscribed_at=COALESCE(subscribed_at, now())");
    }
}

proof fn lemma_set_sub_expires_at_2()
    ensures
        assignment_text(
            Assignment { column: Column::SubExpiresAt, sign: "="@, value: coalesce(Expr::Param(3), own(Column::SubExpiresAt)) },
        ) == "sub_expires_at=COALESCE($3, sub_expires_at)"@,
{
    let e0 = Expr::Param(3);
    assert(expr_text(e0) =~= "$3"@) by {
        reveal_strlit("$");
        reveal_strlit("$3");
        reveal_with_fuel(decimal, 3);
    }
    let e1 = own(Column::SubExpiresAt);
    assert(expr_text(e1) =~= "sub_expires_at"@) by {
        reveal_strlit("sub_expires_at");
    }
    let e2 = Expr::Coalesce(Box::new(e0), Box::new(e1));
    assert(expr_text(e2) =~= "COALESCE($3, sub_expires_at)"@) by {
        reveal_strlit("COALESCE(");
        reveal_strlit(", ");
        reveal_strlit(")");
        reveal_strlit("$3");
        reveal_strlit("sub_expires_at");
        reveal_strlit("COALESCE($3, sub_expires_at)");
    }
    assert(assignment_text(Assignment { column: Column::SubExpiresAt, sign: "="@, value: e2 }) =~= "sub_expires_at=COALESCE($3, sub_expires_at)"@) by {
        reveal_strlit("sub_expires_at");
        reveal_strlit("=");
        reveal_strlit("COALESCE($3, sub_expires_at)");
        reveal_strlit("sub_expires_at=COALESCE($3, sub_expires_at)");
    }
}

proof fn lemma_set_sub_months_cumulative_3()
    ensures
        assignment_text(
            Assignment { column: Column::SubMonthsCumulative, sign: "="@, value: greatest(own(Column::SubMonthsCumulative), Expr::Number(1)) },
        ) == "sub_months_cumulative=GREATEST(sub_months_cumulative, 1)"@,
{
    let e0 = own(Column::SubMonthsCumulative);
    assert(expr_text(e0) =~= "sub_months_cumulative"@) by {
        reveal_strlit("sub_months_cumulative");
    }
    let e1 = Expr::Number(1);
    assert(expr_text(e1) =~= "1"@) by {
        reveal_strlit("1");
        reveal_with_fuel(decimal, 3);
    }
    let e2 = Expr::Greatest(Box::new(e0), Box::new(e1));
    assert(expr_text(e2) =~= "GREATEST(sub_months_cumulative, 1)"@) by {
        reveal_strlit("GREATEST(");
        reveal_strlit(", ");
        reveal_strlit(")");
        reveal_strlit("sub_months_cumulative");
        reveal_strlit("1");
        reveal_strlit("GREATEST(sub_months_cumulative, 1)");
    }
    assert(assignment_text(Assignment { column: Column::SubMonthsCumulative, sign: "="@, value: e2 }) =~= "sub_months_cumulative=GREATEST(sub_months_cumulative, 1)"@) by {
        reveal_strlit("sub_months_cumulative");
        reveal_strlit("=");
        reveal_strlit("GREATEST(sub_months_cumulative, 1)");
        reveal_strlit("sub_months_cumulative=GREATEST(sub_months_cumulative, 1)");
    }
}

#[verifier::spinoff_prover]
#[verifier::rlimit(80)]
proof fn lemma_text_of_gift_received()
    ensures
        GIFT_RECEIVED@ == update_text(gift_received()),
{
    lemma_set_is_subscriber();
    lemma_set_sub_is_gift();
    lemma_set_subscribed_at_2();
    lemma_set_sub_expires_at_2();
    lemma_set_sub_months_cumulative_3();
    lemma_set_sub_streak_months();
    lemma_set_last_synced_at();
    let whole = GIFT_RECEIVED@;
    assert(whole.len() == 331) by {
        reveal_strlit("UPDATE channel_relations SET is_subscriber=true, sub_is_gift=true, subscribed_at=COALESCE(subscribed_at, now()), sub_expires_at=COALESCE($3, sub_expires_at), sub_months_cumulative=GREATEST(sub_months_cumulative, 1), sub_streak_months=GREATEST(sub_streak_months, 1), last_synced_at=now() WHERE kick_channel_id=$1 AND kick_user_id=$2");
    }
    let parts = seq![
        "is_subscriber=true"@,
        "sub_is_gift=true"@,
        "subscribed_at=COALESCE(subscribed_at, now())"@,
        "sub_expires_at=COALESCE($3, sub_expires_at)"@,
        "sub_months_cumulative=GREATEST(sub_months_cumulative, 1)"@,
        "sub_streak_months=GREATEST(sub_streak_months, 1)"@,
        "last_synced_at=now()"@,
    ];
    let u = gift_received();
    assert(u.sets.map_values(|a: Assignment| assignment_text(a)) =~= parts);
    assert(whole.subrange(0, 29) =~= "UPDATE "@ + "channel_relations"@ + " SET "@) by {
        reveal_strlit("UPDATE channel_relations SET is_subscriber=true, sub_is_gift=true, subscribed_at=COALESCE(subscribed_at, now()), sub_expires_at=COALESCE($3, sub_expires_at), sub_months_cumulative=GREATEST(sub_months_cumulative, 1), sub_streak_months=GREATEST(sub_streak_months, 1), last_synced_at=now() WHERE kick_channel_id=$1 AND kick_user_id=$2");
        reveal_strlit("UPDATE ");
        reveal_strlit("channel_relations");
        reveal_strlit(" SET ");
    }
    assert(whole.subrange(29, 47) =~= "is_subscriber=true"@) by {
        reveal_strlit("UPDATE channel_relations SET is_subscriber=true, sub_is_gift=true, subscribed_at=COALESCE(subscribed_at, now()), sub_expires_at=COALESCE($3, sub_expires_at), sub_months_cumulative=GREATEST(sub_months_cumulative, 1), sub_streak_months=GREATEST(sub_streak_months, 1), last_synced_at=now() WHERE kick_channel_id=$1 AND kick_user_id=$2");
        reveal_strlit("is_subscriber=true");
    }
    assert(parts.take(1) =~= seq!["is_subscriber=true"@]);
    assert(joined(parts.take(1), ", "@) == whole.subrange(29, 47));
    assert(whole.subrange(47, 65) =~= ", "@ + "sub_is_gift=true"@) by {
        reveal_strlit("UPDATE channel_relations SET is_subscriber=true, sub_is_gift=true, subscribed_at=COALESCE(subscribed_at, now()), sub_expires_at=COALESCE($3, sub_expires_at), sub_months_cumulative=GREATEST(sub_months_cumulative, 1), sub_streak_months=GREATEST(sub_streak_months, 1), last_synced_at=now() WHERE kick_channel_id=$1 AND kick_user_id=$2");
        reveal_strlit(", ");
        reveal_strlit("sub_is_gift=true");
    }
    lemma_next_part(whole, parts, 1, 29, 47, 65);
    assert(whole.subrange(65, 111) =~= ", "@ + "subscribed_at=COALESCE(subscribed_at, now())"@) by {
        reveal_strlit("UPDATE channel_relations SET is_subscriber=true, sub_is_gift=true, subscribed_at=COALESCE(subscribed_at, now()), sub_expires_at=COALESCE($3, sub_expires_at), sub_months_cumulative=GREATEST(sub_months_cumulative, 1), sub_streak_months=GREATEST(sub_streak_months, 1), last_synced_at=now() WHERE kick_channel_id=$1 AND kick_user_id=$2");
        reveal_strlit(", ");
        reveal_strlit("subscribed_at=COALESCE(subscribed_at, now())");
    }
    lemma_next_part(whole, parts, 2, 29, 65, 111);
    assert(whole.subrange(111, 156) =~= ", "@ + "sub_expires_at=COALESCE($3, sub_expires_at)"@) by {
        reveal_strlit("UPDATE channel_relations SET is_subscriber=true, sub_is_gift=true, subscribed_at=COALESCE(subscribed_at, now()), sub_expires_at=COALESCE($3, sub_expires_at), sub_months_cumulative=GREATEST(sub_months_cumulative, 1), sub_streak_months=GREATEST(sub_streak_months, 1), last_synced_at=now() WHERE kick_channel_id=$1 AND kick_user_id=$2");
        reveal_strlit(", ");
        reveal_strlit("sub_expires_at=COALESCE($3, sub_expires_at)");
    }
    lemma_next_part(whole, parts, 3, 29, 111, 156);
    assert(whole.subrange(156, 214) =~= ", "@ + "sub_months_cumulative=GREATEST(sub_months_cumulative, 1)"@) by {
        reveal_strlit("UPDATE channel_relations SET is_subscriber=true, sub_is_gift=true, subscribed_at=COALESCE(subscribed_at, now()), sub_expires_at=COALESCE($3, sub_expires_at), sub_months_cumulative=GREATEST(sub_months_cumulative, 1), sub_streak_months=GREATEST(sub_streak_months, 1), last_synced_at=now() WHERE kick_channel_id=$1 AND kick_user_id=$2");
        reveal_strlit(", ");
        reveal_strlit("sub_months_cumulative=GREATEST(sub_months_cumulative, 1)");
    }
    lemma_next_part(whole, parts, 4, 29, 156, 214);
    assert(whole.subrange(214, 264) =~= ", "@ + "sub_streak_months=GREATEST(sub_streak_months, 1)"@) by {
        reveal_strlit("UPDATE channel_relations SET is_subscriber=true, sub_is_gift=true, subscribed_at=COALESCE(subscribed_at, now()), sub_expires_at=COALESCE($3, sub_expires_at), sub_months_cumulative=GREATEST(sub_months_cumulative, 1), sub_streak_months=GREATEST(sub_streak_months, 1), last_synced_at=now() WHERE kick_channel_id=$1 AND kick_user_id=$2");
        reveal_strlit(", ");
        reveal_strlit("sub_streak_months=GREATEST(sub_streak_months, 1)");
    }
    lemma_next_part(whole, parts, 5, 29, 214, 264);
    assert(whole.subrange(264, 286) =~= ", "@ + "last_synced_at=now()"@) by {
        reveal_strlit("UPDATE channel_relations SET is_subscriber=true, sub_is_gift=true, subscribed_at=COALESCE(subscribed_at, now()), sub_expires_at=COALESCE($3, sub_expires_at), sub_months_cumulative=GREATEST(sub_months_cumulative, 1), sub_streak_months=GREATEST(sub_streak_months, 1), last_synced_at=now() WHERE kick_channel_id=$1 AND kick_user_id=$2");
        reveal_strlit(", ");
        reveal_strlit("last_synced_at=now()");
    }
    lemma_next_part(whole, parts, 6, 29, 264, 286);
    assert(parts.take(7) =~= parts);
    assert(whole.subrange(286, 331) =~= " WHERE "@ + "kick_channel_id=$1 AND kick_user_id=$2"@) by {
        reveal_strlit("UPDATE channel_relations SET is_subscriber=true, sub_is_gift=true, subscribed_at=COALESCE(subscribed_at, now()), sub_expires_at=COALESCE($3, sub_expires_at), sub_months_cumulative=GREATEST(sub_months_cumulative, 1), sub_streak_months=GREATEST(sub_streak_months, 1), last_synced_at=now() WHERE kick_channel_id=$1 AND kick_user_id=$2");
        reveal_strlit(" WHERE ");
        reveal_strlit("kick_channel_id=$1 AND kick_user_id=$2");
    }
    assert(whole =~= whole.subrange(0, 29) + whole.subrange(29, 286) + whole.subrange(286, 331));
}

/// The structure of [`CHAT_SEEN`].
spec fn chat_seen() -> Update {
    Update {
        table: "channel_relations"@,
        sets: seq![
            Assignment { column: Column::ChatMessages30d, sign: " = "@, value: plus(own(Column::ChatMessages30d), Expr::Number(1)) },
            Assignment { column: Column::LastSeenAt, sign: " = "@, value: Expr::Now },
        ],
        key: "kick_channel_id=$1 AND kick_user_id=$2"@,
        only: None,
    }
}

proof fn lemma_set_chat_messages_30d()
    ensures
        assignment_text(
            Assignment { column: Column::ChatMessages30d, sign: " = "@, value: plus(own(Column::ChatMessages30d), Expr::Number(1)) },
        ) == "chat_messages_30d = chat_messages_30d + 1"@,
{
    let e0 = own(Column::ChatMessages30d);
    assert(expr_text(e0) =~= "chat_messages_30d"@) by {
        reveal_strlit("chat_messages_30d");
    }
    let e1 = Expr::Number(1);
    assert(expr_text(e1) =~= "1"@) by {
        reveal_strlit("1");
        reveal_with_fuel(decimal, 3);
    }
    let e2 = Expr::Plus(Box::new(e0), Box::new(e1));
    assert(expr_text(e2) =~= "chat_messages_30d + 1"@) by {
        reveal_strlit(" + ");
        reveal_strlit("chat_messages_30d");
        reveal_strlit("1");
        reveal_strlit("chat_messages_30d + 1");
    }
    assert(assignment_text(Assignment { column: Column::ChatMessages30d, sign: " = "@, value: e2 }) =~= "chat_messages_30d = chat_messages_30d + 1"@) by {
        reveal_strlit("chat_messages_30d");
        reveal_strlit(" = ");
        reveal_strlit("chat_messages_30d + 1");
        reveal_strlit("chat_messages_30d = chat_messages_30d + 1");
    }
}

proof fn lemma_set_last_seen_at()
    ensures
        assignment_text(
            Assignment { column: Column::LastSeenAt, sign: " = "@, value: Expr::Now },
        ) == "last_seen_at = now()"@,
{
    let e0 = Expr::Now;
    assert(expr_text(e0) =~= "now()"@) by {
        reveal_strlit("now()");
    }
    assert(assignment_text(Assignment { column: Column::LastSeenAt, sign: " = "@, value: e0 }) =~= "last_seen_at = now()"@) by {
        reveal_strlit("last_seen_at");
        reveal_strlit(" = ");
        reveal_strlit("now()");
        reveal_strlit("last_seen_at = now()");
    }
}

#[verifier::spinoff_prover]
#[verifier::rlimit(80)]
proof fn lemma_text_of_chat_seen()
    ensures
        CHAT_SEEN@ == update_text(chat_seen()),
{
    lemma_set_chat_messages_30d();
    lemma_set_last_seen_at();
    let whole = CHAT_SEEN@;
    assert(whole.len() == 137) by {
        reveal_strlit("UPDATE channel_relations SET chat_messages_30d = chat_messages_30d + 1, last_seen_at = now() WHERE kick_channel_id=$1 AND kick_user_id=$2");
    }
    let parts = seq![
        "chat_messages_30d = chat_messages_30d + 1"@,
        "last_seen_at = now()"@,
    ];
    let u = chat_seen();
    assert(u.sets.map_values(|a: Assignment| assignment_text(a)) =~= parts);
    assert(whole.subrange(0, 29) =~= "UPDATE "@ + "channel_relations"@ + " SET "@) by {
        reveal_strlit("UPDATE channel_relations SET chat_messages_30d = chat_messages_30d + 1, last_seen_at = now() WHERE kick_channel_id=$1 AND kick_user_id=$2");
        reveal_strlit("UPDATE ");
        reveal_strlit("channel_relations");
        reveal_strlit(" SET ");
    }
    assert(whole.subrange(29, 70) =~= "chat_messages_30d = chat_messages_30d + 1"@) by {
        reveal_strlit("UPDATE channel_relations SET chat_messages_30d = chat_messages_30d + 1, last_seen_at = now() WHERE kick_channel_id=$1 AND kick_user_id=$2");
        reveal_strlit("chat_messages_30d = chat_messages_30d + 1");
    }
    assert(parts.take(1) =~= seq!["chat_messages_30d = chat_messages_30d + 1"@]);
    assert(joined(parts.take(1), ", "@) == whole.subrange(29, 70));
    assert(whole.subrange(70, 92) =~= ", "@ + "last_seen_at = now()"@) by {
        reveal_strlit("UPDATE channel_relations SET chat_messages_30d = chat_messages_30d + 1, last_seen_at = now() WHERE kick_channel_id=$1 AND kick_user_id=$2");
        reveal_strlit(", ");
        reveal_strlit("last_seen_at = now()");
    }
    lemma_next_part(whole, parts, 1, 29, 70, 92);
    assert(parts.take(2) =~= parts);
    assert(whole.subrange(92, 137) =~= " WHERE "@ + "kick_channel_id=$1 AND kick_user_id=$2"@) by {
        reveal_strlit("UPDATE channel_relations SET chat_messages_30d = chat_messages_30d + 1, last_seen_at = now() WHERE kick_channel_id=$1 AND kick_user_id=$2");
        reveal_strlit(" WHERE ");
        reveal_strlit("kick_channel_id=$1 AND kick_user_id=$2");
    }
    assert(whole =~= whole.subrange(0, 29) + whole.subrange(29, 92) + whole.subrange(92, 137));
}

/// The structure of [`BADGES`].
spec fn badges() -> Update {
    Update {
        table: "channel_relations"@,
        sets: seq![
            Assignment { column: Column::IsModerator, sign: "="@, value: Expr::Param(3) },
            Assignment { column: Column::IsVip, sign: "="@, value: Expr::Param(4) },
            Assignment { column: Column::IsOg, sign: "="@, value: Expr::Param(5) },
            Assignment { column: Column::LastSyncedAt, sign: "="@, value: Expr::Now },
        ],
        key: "kick_channel_id=$1 AND kick_user_id=$2"@,
        only: Some(paren(either(either(distinct(own(Column::IsModerator), Expr::Param(3)), distinct(own(Column::IsVip), Expr::Param(4))), distinct(own(Column::IsOg), Expr::Param(5))))),
    }
}

proof fn lemma_set_is_moderator()
    ensures
        assignment_text(
            Assignment { column: Column::IsModerator, sign: "="@, value: Expr::Param(3) },
        ) == "is_moderator=$3"@,
{
    let e0 = Expr::Param(3);
    assert(expr_text(e0) =~= "$3"@) by {
        reveal_strlit("$");
        reveal_strlit("$3");
        reveal_with_fuel(decimal, 3);
    }
    assert(assignment_text(Assignment { column: Column::IsModerator, sign: "="@, value: e0 }) =~= "is_moderator=$3"@) by {
        reveal_strlit("is_moderator");
        reveal_strlit("=");
        reveal_strlit("$3");
        reveal_strlit("is_moderator=$3");
    }
}

proof fn lemma_set_is_vip()
    ensures
        assignment_text(
            Assignment { column: Column::IsVip, sign: "="@, value: Expr::Param(4) },
        ) == "is_vip=$4"@,
{
    let e0 = Expr::Param(4);
    assert(expr_text(e0) =~= "$4"@) by {
        reveal_strlit("$");
        reveal_strlit("$4");
        reveal_with_fuel(decimal, 3);
    }
    assert(assignment_text(Assignment { column: Column::IsVip, sign: "="@, value: e0 }) =~= "is_vip=$4"@) by {
        reveal_strlit("is_vip");
        reveal_strlit("=");
        reveal_strlit("$4");
        reveal_strlit("is_vip=$4");
    }
}

proof fn lemma_set_is_og()
    ensures
        assignment_text(
            Assignment { column: Column::IsOg, sign: "="@, value: Expr::Param(5) },
        ) == "is_og=$5"@,
{
    let e0 = Expr::Param(5);
    assert(expr_text(e0) =~= "$5"@) by {
        reveal_strlit("$");
        reveal_strlit("$5");
        reveal_with_fuel(decimal, 3);
    }
    assert(assignment_text(Assignment { column: Column::IsOg, sign: "="@, value: e0 }) =~= "is_og=$5"@) by {
        reveal_strlit("is_og");
        reveal_strlit("=");
        reveal_strlit("$5");
        reveal_strlit("is_og=$5");
    }
}

#[verifier::spinoff_prover]
#[verifier::rlimit(80)]
proof fn lemma_badges_only()
    ensures
        expr_text(paren(either(either(distinct(own(Column::IsModerator), Expr::Param(3)), distinct(own(Column::IsVip), Expr::Param(4))), distinct(own(Column::IsOg), Expr::Param(5))))) == "(is_moderator IS DISTINCT FROM $3 OR is_vip IS DISTINCT FROM $4 OR is_og IS DISTINCT FROM $5)"@,
{
    let e0 = own(Column::IsModerator);
    assert(expr_text(e0) =~= "is_moderator"@) by {
        reveal_strlit("is_moderator");
    }
    let e1 = Expr::Param(3);
    assert(expr_text(e1) =~= "$3"@) by {
        reveal_strlit("$");
        reveal_strlit("$3");
        reveal_with_fuel(decimal, 3);
    }
    let e2 = Expr::Distinct(Box::new(e0), Box::new(e1));
    assert(expr_text(e2) =~= "is_moderator IS DISTINCT FROM $3"@) by {
        reveal_strlit(" IS DISTINCT FROM ");
        reveal_strlit("is_moderator");
        reveal_strlit("$3");
        reveal_strlit("is_moderator IS DISTINCT FROM $3");
    }
    let e3 = own(Column::IsVip);
    assert(expr_text(e3) =~= "is_vip"@) by {
        reveal_strlit("is_vip");
    }
    let e4 = Expr::Param(4);
    assert(expr_text(e4) =~= "$4"@) by {
        reveal_strlit("$");
        reveal_strlit("$4");
        reveal_with_fuel(decimal, 3);
    }
    let e5 = Expr::Distinct(Box::new(e3), Box::new(e4));
    assert(expr_text(e5) =~= "is_vip IS DISTINCT FROM $4"@) by {
        reveal_strlit(" IS DISTINCT FROM ");
        reveal_strlit("is_vip");
        reveal_strlit("$4");
        reveal_strlit("is_vip IS DISTINCT FROM $4");
    }
    let e6 = Expr::Or(Box::new(e2), Box::new(e5));
    assert(expr_text(e6) =~= "is_moderator IS DISTINCT FROM $3 OR is_vip IS DISTINCT FROM $4"@) by {
        reveal_strlit(" OR ");
        reveal_strlit("is_moderator IS DISTINCT FROM $3");
        reveal_strlit("is_vip IS DISTINCT FROM $4");
        reveal_strlit("is_moderator IS DISTINCT FROM $3 OR is_vip IS DISTINCT FROM $4");
    }
    let e7 = own(Column::IsOg);
    assert(expr_text(e7) =~= "is_og"@) by {
        reveal_strlit("is_og");
    }
    let e8 = Expr::Param(5);
    assert(expr_text(e8) =~= "$5"@) by {
        reveal_strlit("$");
        reveal_strlit("$5");
        reveal_with_fuel(decimal, 3);
    }
    let e9 = Expr::Distinct(Box::new(e7), Box::new(e8));
    assert(expr_text(e9) =~= "is_og IS DISTINCT FROM $5"@) by {
        reveal_strlit(" IS DISTINCT FROM ");
        reveal_strlit("is_og");
        reveal_strlit("$5");
        reveal_strlit("is_og IS DISTINCT FROM $5");
    }
    let e10 = Expr::Or(Box::new(e6), Box::new(e9));
    assert(expr_text(e10) =~= "is_moderator IS DISTINCT FROM $3 OR is_vip IS DISTINCT FROM $4 OR is_og IS DISTINCT FROM $5"@) by {
        reveal_strlit(" OR ");
        reveal_strlit("is_moderator IS DISTINCT FROM $3 OR is_vip IS DISTINCT FROM $4");
        reveal_strlit("is_og IS DISTINCT FROM $5");
        reveal_strlit("is_moderator IS DISTINCT FROM $3 OR is_vip IS DISTINCT FROM $4 OR is_og IS DISTINCT FROM $5");
    }
    let e11 = Expr::Paren(Box::new(e10));
    assert(expr_text(e11) =~= "(is_moderator IS DISTINCT FROM $3 OR is_vip IS DISTINCT FROM $4 OR is_og IS DISTINCT FROM $5)"@) by {
        reveal_strlit("(");
        reveal_strlit(")");
        reveal_strlit("is_moderator IS DISTINCT FROM $3 OR is_vip IS DISTINCT FROM $4 OR is_og IS DISTINCT FROM $5");
        reveal_strlit("(is_moderator IS DISTINCT FROM $3 OR is_vip IS DISTINCT FROM $4 OR is_og IS DISTINCT FROM $5)");
    }
}

#[verifier::spinoff_prover]
#[verifier::rlimit(80)]
proof fn lemma_text_of_badges()
    ensures
        BADGES@ == update_text(badges()),
{
    lemma_set_is_moderator();
    lemma_set_is_vip();
    lemma_set_is_og();
    lemma_set_last_synced_at();
    lemma_badges_only();
    let whole = BADGES@;
    assert(whole.len() == 230) by {
        reveal_strlit("UPDATE channel_relations SET is_moderator=$3, is_vip=$4, is_og=$5, last_synced_at=now() WHERE kick_channel_id=$1 AND kick_user_id=$2 AND (is_moderator IS DISTINCT FROM $3 OR is_vip IS DISTINCT FROM $4 OR is_og IS DISTINCT FROM $5)");
    }
    let parts = seq![
        "is_moderator=$3"@,
        "is_vip=$4"@,
        "is_og=$5"@,
        "last_synced_at=now()"@,
    ];
    let u = badges();
    assert(u.sets.map_values(|a: Assignment| assignment_text(a)) =~= parts);
    assert(whole.subrange(0, 29) =~= "UPDATE "@ + "channel_relations"@ + " SET "@) by {
        reveal_strlit("UPDATE channel_relations SET is_moderator=$3, is_vip=$4, is_og=$5, last_synced_at=now() WHERE kick_channel_id=$1 AND kick_user_id=$2 AND (is_moderator IS DISTINCT FROM $3 OR is_vip IS DISTINCT FROM $4 OR is_og IS DISTINCT FROM $5)");
        reveal_strlit("UPDATE ");
        reveal_strlit("channel_relations");
        reveal_strlit(" SET ");
    }
    assert(whole.subrange(29, 44) =~= "is_moderator=$3"@) by {
        reveal_strlit("UPDATE channel_relations SET is_moderator=$3, is_vip=$4, is_og=$5, last_synced_at=now() WHERE kick_channel_id=$1 AND kick_user_id=$2 AND (is_moderator IS DISTINCT FROM $3 OR is_vip IS DISTINCT FROM $4 OR is_og IS DISTINCT FROM $5)");
        reveal_strlit("is_moderator=$3");
    }
    assert(parts.take(1) =~= seq!["is_moderator=$3"@]);
    assert(joined(parts.take(1), ", "@) == whole.subrange(29, 44));
    assert(whole.subrange(44, 55) =~= ", "@ + "is_vip=$4"@) by {
        reveal_strlit("UPDATE channel_relations SET is_moderator=$3, is_vip=$4, is_og=$5, last_synced_at=now() WHERE kick_channel_id=$1 AND kick_user_id=$2 AND (is_moderator IS DISTINCT FROM $3 OR is_vip IS DISTINCT FROM $4 OR is_og IS DISTINCT FROM $5)");
        reveal_strlit(", ");
        reveal_strlit("is_vip=$4");
    }
    lemma_next_part(whole, parts, 1, 29, 44, 55);
    assert(whole.subrange(55, 65) =~= ", "@ + "is_og=$5"@) by {
        reveal_strlit("UPDATE channel_relations SET is_moderator=$3, is_vip=$4, is_og=$5, last_synced_at=now() WHERE kick_channel_id=$1 AND kick_user_id=$2 AND (is_moderator IS DISTINCT FROM $3 OR is_vip IS DISTINCT FROM $4 OR is_og IS DISTINCT FROM $5)");
        reveal_strlit(", ");
        reveal_strlit("is_og=$5");
    }
    lemma_next_part(whole, parts, 2, 29, 55, 65);
    assert(whole.subrange(65, 87) =~= ", "@ + "last_synced_at=now()"@) by {
        reveal_strlit("UPDATE channel_relations SET is_moderator=$3, is_vip=$4, is_og=$5, last_synced_at=now() WHERE kick_channel_id=$1 AND kick_user_id=$2 AND (is_moderator IS DISTINCT FROM $3 OR is_vip IS DISTINCT FROM $4 OR is_og IS DISTINCT FROM $5)");
        reveal_strlit(", ");
        reveal_strlit("last_synced_at=now()");
    }
    lemma_next_part(whole, parts, 3, 29, 65, 87);
    assert(parts.take(4) =~= parts);
    assert(whole.subrange(87, 132) =~= " WHERE "@ + "kick_channel_id=$1 AND kick_user_id=$2"@) by {
        reveal_strlit("UPDATE channel_relations SET is_moderator=$3, is_vip=$4, is_og=$5, last_synced_at=now() WHERE kick_channel_id=$1 AND kick_user_id=$2 AND (is_moderator IS DISTINCT FROM $3 OR is_vip IS DISTINCT FROM $4 OR is_og IS DISTINCT FROM $5)");
        reveal_strlit(" WHERE ");
        reveal_strlit("kick_channel_id=$1 AND kick_user_id=$2");
    }
    assert(whole.subrange(132, 230) =~= " AND "@ + "(is_moderator IS DISTINCT FROM $3 OR is_vip IS DISTINCT FROM $4 OR is_og IS DISTINCT FROM $5)"@) by {
        reveal_strlit("UPDATE channel_relations SET is_moderator=$3, is_vip=$4, is_og=$5, last_synced_at=now() WHERE kick_channel_id=$1 AND kick_user_id=$2 AND (is_moderator IS DISTINCT FROM $3 OR is_vip IS DISTINCT FROM $4 OR is_og IS DISTINCT FROM $5)");
        reveal_strlit(" AND ");
        reveal_strlit("(is_moderator IS DISTINCT FROM $3 OR is_vip IS DISTINCT FROM $4 OR is_og IS DISTINCT FROM $5)");
    }
    assert(whole =~= whole.subrange(0, 29) + whole.subrange(29, 87) + whole.subrange(87, 132) + whole.subrange(132, 230));
}

/// The structure of [`SUBSCRIBER_BADGE`].
spec fn subscriber_badge() -> Update {
    Update {
        table: "channel_relations"@,
        sets: seq![
            Assignment { column: Column::IsSubscriber, sign: "="@, value: Expr::True },
            Assignment { column: Column::SubscribedAt, sign: "="@, value: coalesce(own(Column::SubscribedAt), Expr::Now) },
            Assignment { column: Column::SubMonthsCumulative, sign: "="@, value: greatest(own(Column::SubMonthsCumulative), Expr::Param(3)) },
            Assignment { column: Column::SubStreakMonths, sign: "="@, value: greatest(own(Column::SubStreakMonths), Expr::Number(1)) },
            Assignment { column: Column::LastSyncedAt, sign: "="@, value: Expr::Now },
        ],
        key: "kick_channel_id=$1 AND kick_user_id=$2"@,
        only: Some(paren(either(equal(own(Column::IsSubscriber), Expr::False), less(own(Column::SubMonthsCumulative), Expr::Param(3))))),
    }
}

proof fn lemma_set_sub_months_cumulative_4()
    ensures
        assignment_text(
            Assignment { column: Column::SubMonthsCumulative, sign: "="@, value: greatest(own(Column::SubMonthsCumulative), Expr::Param(3)) },
        ) == "sub_months_cumulative=GREATEST(sub_months_cumulative, $3)"@,
{
    let e0 = own(Column::SubMonthsCumulative);
    assert(expr_text(e0) =~= "sub_months_cumulative"@) by {
        reveal_strlit("sub_months_cumulative");
    }
    let e1 = Expr::Param(3);
    assert(expr_text(e1) =~= "$3"@) by {
        reveal_strlit("$");
        reveal_strlit("$3");
        reveal_with_fuel(decimal, 3);
    }
    let e2 = Expr::Greatest(Box::new(e0), Box::new(e1));
    assert(expr_text(e2) =~= "GREATEST(sub_months_cumulative, $3)"@) by {
        reveal_strlit("GREATEST(");
        reveal_strlit(", ");
        reveal_strlit(")");
        reveal_strlit("sub_months_cumulative");
        reveal_strlit("$3");
        reveal_strlit("GREATEST(sub_months_cumulative, $3)");
    }
    assert(assignment_text(Assignment { column: Column::SubMonthsCumulative, sign: "="@, value: e2 }) =~= "sub_months_cumulative=GREATEST(sub_months_cumulative, $3)"@) by {
        reveal_strlit("sub_months_cumulative");
        reveal_strlit("=");
        reveal_strlit("GREATEST(sub_months_cumulative, $3)");
        reveal_strlit("sub_months_cumulative=GREATEST(sub_months_cumulative, $3)");
    }
}

#[verifier::spinoff_prover]
#[verifier::rlimit(80)]
proof fn lemma_subscriber_badge_only()
    ensures
        expr_text(paren(either(equal(own(Column::IsSubscriber), Expr::False), less(own(Column::SubMonthsCumulative), Expr::Param(3))))) == "(is_subscriber = false OR sub_months_cumulative < $3)"@,
{
    let e0 = own(Column::IsSubscriber);
    assert(expr_text(e0) =~= "is_subscriber"@) by {
        reveal_strlit("is_subscriber");
    }
    let e1 = Expr::False;
    assert(expr_text(e1) =~= "false"@) by {
        reveal_strlit("false");
    }
    let e2 = Expr::Equal(Box::new(e0), Box::new(e1));
    assert(expr_text(e2) =~= "is_subscriber = false"@) by {
        reveal_strlit(" = ");
        reveal_strlit("is_subscriber");
        reveal_strlit("false");
        reveal_strlit("is_subscriber = false");
    }
    let e3 = own(Column::SubMonthsCumulative);
    assert(expr_text(e3) =~= "sub_months_cumulative"@) by {
        reveal_strlit("sub_months_cumulative");
    }
    let e4 = Expr::Param(3);
    assert(expr_text(e4) =~= "$3"@) by {
        reveal_strlit("$");
        reveal_strlit("$3");
        reveal_with_fuel(decimal, 3);
    }
    let e5 = Expr::Less(Box::new(e3), Box::new(e4));
    assert(expr_text(e5) =~= "sub_months_cumulative < $3"@) by {
        reveal_strlit(" < ");
        reveal_strlit("sub_months_cumulative");
        reveal_strlit("$3");
        reveal_strlit("sub_months_cumulative < $3");
    }
    let e6 = Expr::Or(Box::new(e2), Box::new(e5));
    assert(expr_text(e6) =~= "is_subscriber = false OR sub_months_cumulative < $3"@) by {
        reveal_strlit(" OR ");
        reveal_strlit("is_subscriber = false");
        reveal_strlit("sub_months_cumulative < $3");
        reveal_strlit("is_subscriber = false OR sub_months_cumulative < $3");
    }
    let e7 = Expr::Paren(Box::new(e6));
    assert(expr_text(e7) =~= "(is_subscriber = false OR sub_months_cumulative < $3)"@) by {
        reveal_strlit("(");
        reveal_strlit(")");
        reveal_strlit("is_subscriber = false OR sub_months_cumulative < $3");
        reveal_strlit("(is_subscriber = false OR sub_months_cumulative < $3)");
    }
}

#[verifier::spinoff_prover]
#[verifier::rlimit(80)]
proof fn lemma_text_of_subscriber_badge()
    ensures
        SUBSCRIBER_BADGE@ == update_text(subscriber_badge()),
{
    lemma_set_is_subscriber();
    lemma_set_subscribed_at_2();
    lemma_set_sub_months_cumulative_4();
    lemma_set_sub_streak_months();
    lemma_set_last_synced_at();
    lemma_subscriber_badge_only();
    let whole = SUBSCRIBER_BADGE@;
    assert(whole.len() == 327) by {
        reveal_strlit("UPDATE channel_relations SET is_subscriber=true, subscribed_at=COALESCE(subscribed_at, now()), sub_months_cumulative=GREATEST(sub_months_cumulative, $3), sub_streak_months=GREATEST(sub_streak_months, 1), last_synced_at=now() WHERE kick_channel_id=$1 AND kick_user_id=$2 AND (is_subscriber = false OR sub_months_cumulative < $3)");
    }
    let parts = seq![
        "is_subscriber=true"@,
        "subscribed_at=COALESCE(subscribed_at, now())"@,
        "sub_months_cumulative=GREATEST(sub_months_cumulative, $3)"@,
        "sub_streak_months=GREATEST(sub_streak_months, 1)"@,
        "last_synced_at=now()"@,
    ];
    let u = subscriber_badge();
    assert(u.sets.map_values(|a: Assignment| assignment_text(a)) =~= parts);
    assert(whole.subrange(0, 29) =~= "UPDATE "@ + "channel_relations"@ + " SET "@) by {
        reveal_strlit("UPDATE channel_relations SET is_subscriber=true, subscribed_at=COALESCE(subscribed_at, now()), sub_months_cumulative=GREATEST(sub_months_cumulative, $3), sub_streak_months=GREATEST(sub_streak_months, 1), last_synced_at=now() WHERE kick_channel_id=$1 AND kick_user_id=$2 AND (is_subscriber = false OR sub_months_cumulative < $3)");
        reveal_strlit("UPDATE ");
        reveal_strlit("channel_relations");
        reveal_strlit(" SET ");
    }
    assert(whole.subrange(29, 47) =~= "is_subscriber=true"@) by {
        reveal_strlit("UPDATE channel_relations SET is_subscriber=true, subscribed_at=COALESCE(subscribed_at, now()), sub_months_cumulative=GREATEST(sub_months_cumulative, $3), sub_streak_months=GREATEST(sub_streak_months, 1), last_synced_at=now() WHERE kick_channel_id=$1 AND kick_user_id=$2 AND (is_subscriber = false OR sub_months_cumulative < $3)");
        reveal_strlit("is_subscriber=true");
    }
    assert(parts.take(1) =~= seq!["is_subscriber=true"@]);
    assert(joined(parts.take(1), ", "@) == whole.subrange(29, 47));
    assert(whole.subrange(47, 93) =~= ", "@ + "subscribed_at=COALESCE(subscribed_at, now())"@) by {
        reveal_strlit("UPDATE channel_relations SET is_subscriber=true, subscribed_at=COALESCE(subscribed_at, now()), sub_months_cumulative=GREATEST(sub_months_cumulative, $3), sub_streak_months=GREATEST(sub_streak_months, 1), last_synced_at=now() WHERE kick_channel_id=$1 AND kick_user_id=$2 AND (is_subscriber = false OR sub_months_cumulative < $3)");
        reveal_strlit(", ");
        reveal_strlit("subscribed_at=COALESCE(subscribed_at, now())");
    }
    lemma_next_part(whole, parts, 1, 29, 47, 93);
    assert(whole.subrange(93, 152) =~= ", "@ + "sub_months_cumulative=GREATEST(sub_months_cumulative, $3)"@) by {
        reveal_strlit("UPDATE channel_relations SET is_subscriber=true, subscribed_at=COALESCE(subscribed_at, now()), sub_months_cumulative=GREATEST(sub_months_cumulative, $3), sub_streak_months=GREATEST(sub_streak_months, 1), last_synced_at=now() WHERE kick_channel_id=$1 AND kick_user_id=$2 AND (is_subscriber = false OR sub_months_cumulative < $3)");
        reveal_strlit(", ");
        reveal_strlit("sub_months_cumulative=GREATEST(sub_months_cumulative, $3)");
    }
    lemma_next_part(whole, parts, 2, 29, 93, 152);
    assert(whole.subrange(152, 202) =~= ", "@ + "sub_streak_months=GREATEST(sub_streak_months, 1)"@) by {
        reveal_strlit("UPDATE channel_relations SET is_subscriber=true, subscribed_at=COALESCE(subscribed_at, now()), sub_months_cumulative=GREATEST(sub_months_cumulative, $3), sub_streak_months=GREATEST(sub_streak_months, 1), last_synced_at=now() WHERE kick_channel_id=$1 AND kick_user_id=$2 AND (is_subscriber = false OR sub_months_cumulative < $3)");
        reveal_strlit(", ");
        reveal_strlit("sub_streak_months=GREATEST(sub_streak_months, 1)");
    }
    lemma_next_part(whole, parts, 3, 29, 152, 202);
    assert(whole.subrange(202, 224) =~= ", "@ + "last_synced_at=now()"@) by {
        reveal_strlit("UPDATE channel_relations SET is_subscriber=true, subscribed_at=COALESCE(subscribed_at, now()), sub_months_cumulative=GREATEST(sub_months_cumulative, $3), sub_streak_months=GREATEST(sub_streak_months, 1), last_synced_at=now() WHERE kick_channel_id=$1 AND kick_user_id=$2 AND (is_subscriber = false OR sub_months_cumulative < $3)");
        reveal_strlit(", ");
        reveal_strlit("last_synced_at=now()");
    }
    lemma_next_part(whole, parts, 4, 29, 202, 224);
    assert(parts.take(5) =~= parts);
    assert(whole.subrange(224, 269) =~= " WHERE "@ + "kick_channel_id=$1 AND kick_user_id=$2"@) by {
        reveal_strlit("UPDATE channel_relations SET is_subscriber=true, subscribed_at=COALESCE(subscribed_at, now()), sub_months_cumulative=GREATEST(sub_months_cumulative, $3), sub_streak_months=GREATEST(sub_streak_months, 1), last_synced_at=now() WHERE kick_channel_id=$1 AND kick_user_id=$2 AND (is_subscriber = false OR sub_months_cumulative < $3)");
        reveal_strlit(" WHERE ");
        reveal_strlit("kick_channel_id=$1 AND kick_user_id=$2");
    }
    assert(whole.subrange(269, 327) =~= " AND "@ + "(is_subscriber = false OR sub_months_cumulative < $3)"@) by {
        reveal_strlit("UPDATE channel_relations SET is_subscriber=true, subscribed_at=COALESCE(subscribed_at, now()), sub_months_cumulative=GREATEST(sub_months_cumulative, $3), sub_streak_months=GREATEST(sub_streak_months, 1), last_synced_at=now() WHERE kick_channel_id=$1 AND kick_user_id=$2 AND (is_subscriber = false OR sub_months_cumulative < $3)");
        reveal_strlit(" AND ");
        reveal_strlit("(is_subscriber = false OR sub_months_cumulative < $3)");
    }
    assert(whole =~= whole.subrange(0, 29) + whole.subrange(29, 224) + whole.subrange(224, 269) + whole.subrange(269, 327));
}

/// The structure of [`GIFTER_BADGE`].
spec fn gifter_badge() -> Update {
    Update {
        table: "channel_relations"@,
        sets: seq![
            Assignment { column: Column::GiftedSubsGiven, sign: "="@, value: Expr::Param(3) },
            Assignment { column: Column::LastSyncedAt, sign: "="@, value: Expr::Now },
        ],
        key: "kick_channel_id=$1 AND kick_user_id=$2"@,
        only: Some(less(own(Column::GiftedSubsGiven), Expr::Param(3))),
    }
}

proof fn lemma_set_gifted_subs_given_2()
    ensures
        assignment_text(
            Assignment { column: Column::GiftedSubsGiven, sign: "="@, value: Expr::Param(3) },
        ) == "gifted_subs_given=$3"@,
{
    let e0 = Expr::Param(3);
    assert(expr_text(e0) =~= "$3"@) by {
        reveal_strlit("$");
        reveal_strlit("$3");
        reveal_with_fuel(decimal, 3);
    }
    assert(assignment_text(Assignment { column: Column::GiftedSubsGiven, sign: "="@, value: e0 }) =~= "gifted_subs_given=$3"@) by {
        reveal_strlit("gifted_subs_given");
        reveal_strlit("=");
        reveal_strlit("$3");
        reveal_strlit("gifted_subs_given=$3");
    }
}

#[verifier::spinoff_prover]
#[verifier::rlimit(80)]
proof fn lemma_gifter_badge_only()
    ensures
        expr_text(less(own(Column::GiftedSubsGiven), Expr::Param(3))) == "gifted_subs_given < $3"@,
{
    let e0 = own(Column::GiftedSubsGiven);
    assert(expr_text(e0) =~= "gifted_subs_given"@) by {
        reveal_strlit("gifted_subs_given");
    }
    let e1 = Expr::Param(3);
    assert(expr_text(e1) =~= "$3"@) by {
        reveal_strlit("$");
        reveal_strlit("$3");
        reveal_with_fuel(decimal, 3);
    }
    let e2 = Expr::Less(Box::new(e0), Box::new(e1));
    assert(expr_text(e2) =~= "gifted_subs_given < $3"@) by {
        reveal_strlit(" < ");
        reveal_strlit("gifted_subs_given");
        reveal_strlit("$3");
        reveal_strlit("gifted_subs_given < $3");
    }
}

#[verifier::spinoff_prover]
#[verifier::rlimit(80)]
proof fn lemma_text_of_gifter_badge()
    ensures
        GIFTER_BADGE@ == update_text(gifter_badge()),
{
    lemma_set_gifted_subs_given_2();
    lemma_set_last_synced_at();
    lemma_gifter_badge_only();
    let whole = GIFTER_BADGE@;
    assert(whole.len() == 143) by {
        reveal_strlit("UPDATE channel_relations SET gifted_subs_given=$3, last_synced_at=now() WHERE kick_channel_id=$1 AND kick_user_id=$2 AND gifted_subs_given < $3");
    }
    let parts = seq![
        "gifted_subs_given=$3"@,
        "last_synced_at=now()"@,
    ];
    let u = gifter_badge();
    assert(u.sets.map_values(|a: Assignment| assignment_text(a)) =~= parts);
    assert(whole.subrange(0, 29) =~= "UPDATE "@ + "channel_relations"@ + " SET "@) by {
        reveal_strlit("UPDATE channel_relations SET gifted_subs_given=$3, last_synced_at=now() WHERE kick_channel_id=$1 AND kick_user_id=$2 AND gifted_subs_given < $3");
        reveal_strlit("UPDATE ");
        reveal_strlit("channel_relations");
        reveal_strlit(" SET ");
    }
    assert(whole.subrange(29, 49) =~= "gifted_subs_given=$3"@) by {
        reveal_strlit("UPDATE channel_relations SET gifted_subs_given=$3, last_synced_at=now() WHERE kick_channel_id=$1 AND kick_user_id=$2 AND gifted_subs_given < $3");
        reveal_strlit("gifted_subs_given=$3");
    }
    assert(parts.take(1) =~= seq!["gifted_subs_given=$3"@]);
    assert(joined(parts.take(1), ", "@) == whole.subrange(29, 49));
    assert(whole.subrange(49, 71) =~= ", "@ + "last_synced_at=now()"@) by {
        reveal_strlit("UPDATE channel_relations SET gifted_subs_given=$3, last_synced_at=now() WHERE kick_channel_id=$1 AND kick_user_id=$2 AND gifted_subs_given < $3");
        reveal_strlit(", ");
        reveal_strlit("last_synced_at=now()");
    }
    lemma_next_part(whole, parts, 1, 29, 49, 71);
    assert(parts.take(2) =~= parts);
    assert(whole.subrange(71, 116) =~= " WHERE "@ + "kick_channel_id=$1 AND kick_user_id=$2"@) by {
        reveal_strlit("UPDATE channel_relations SET gifted_subs_given=$3, last_synced_at=now() WHERE kick_channel_id=$1 AND kick_user_id=$2 AND gifted_subs_given < $3");
        reveal_strlit(" WHERE ");
        reveal_strlit("kick_channel_id=$1 AND kick_user_id=$2");
    }
    assert(whole.subrange(116, 143) =~= " AND "@ + "gifted_subs_given < $3"@) by {
        reveal_strlit("UPDATE channel_relations SET gifted_subs_given=$3, last_synced_at=now() WHERE kick_channel_id=$1 AND kick_user_id=$2 AND gifted_subs_given < $3");
        reveal_strlit(" AND ");
        reveal_strlit("gifted_subs_given < $3");
    }
    assert(whole =~= whole.subrange(0, 29) + whole.subrange(29, 71) + whole.subrange(71, 116) + whole.subrange(116, 143));
}

/// The structure of [`KICKS_GIFTED`].
spec fn kicks_gifted() -> Update {
    Update {
        table: "channel_relations"@,
        sets: seq![
            Assignment { column: Column::KicksDonated, sign: " = "@, value: plus(own(Column::KicksDonated), Expr::Param(3)) },
            Assignment { column: Column::LastSyncedAt, sign: "="@, value: Expr::Now },
        ],
        key: "kick_channel_id=$1 AND kick_user_id=$2"@,
        only: None,
    }
}

proof fn lemma_set_kicks_donated()
    ensures
        assignment_text(
            Assignment { column: Column::KicksDonated, sign: " = "@, value: plus(own(Column::KicksDonated), Expr::Param(3)) },
        ) == "kicks_donated = kicks_donated + $3"@,
{
    let e0 = own(Column::KicksDonated);
    assert(expr_text(e0) =~= "kicks_donated"@) by {
        reveal_strlit("kicks_donated");
    }
    let e1 = Expr::Param(3);
    assert(expr_text(e1) =~= "$3"@) by {
        reveal_strlit("$");
        reveal_strlit("$3");
        reveal_with_fuel(decimal, 3);
    }
    let e2 = Expr::Plus(Box::new(e0), Box::new(e1));
    assert(expr_text(e2) =~= "kicks_donated + $3"@) by {
        reveal_strlit(" + ");
        reveal_strlit("kicks_donated");
        reveal_strlit("$3");
        reveal_strlit("kicks_donated + $3");
    }
    assert(assignment_text(Assignment { column: Column::KicksDonated, sign: " = "@, value: e2 }) =~= "kicks_donated = kicks_donated + $3"@) by {
        reveal_strlit("kicks_donated");
        reveal_strlit(" = ");
        reveal_strlit("kicks_donated + $3");
        reveal_strlit("kicks_donated = kicks_donated + $3");
    }
}

#[verifier::spinoff_prover]
#[verifier::rlimit(80)]
proof fn lemma_text_of_kicks_gifted()
    ensures
        KICKS_GIFTED@ == update_text(kicks_gifted()),
{
    lemma_set_kicks_donated();
    lemma_set_last_synced_at();
    let whole = KICKS_GIFTED@;
    assert(whole.len() == 130) by {
        reveal_strlit("UPDATE channel_relations SET kicks_donated = kicks_donated + $3, last_synced_at=now() WHERE kick_channel_id=$1 AND kick_user_id=$2");
    }
    let parts = seq![
        "kicks_donated = kicks_donated + $3"@,
        "last_synced_at=now()"@,
    ];
    let u = kicks_gifted();
    assert(u.sets.map_values(|a: Assignment| assignment_text(a)) =~= parts);
    assert(whole.subrange(0, 29) =~= "UPDATE "@ + "channel_relations"@ + " SET "@) by {
        reveal_strlit("UPDATE channel_relations SET kicks_donated = kicks_donated + $3, last_synced_at=now() WHERE kick_channel_id=$1 AND kick_user_id=$2");
        reveal_strlit("UPDATE ");
        reveal_strlit("channel_relations");
        reveal_strlit(" SET ");
    }
    assert(whole.subrange(29, 63) =~= "kicks_donated = kicks_donated + $3"@) by {
        reveal_strlit("UPDATE channel_relations SET kicks_donated = kicks_donated + $3, last_synced_at=now() WHERE kick_channel_id=$1 AND kick_user_id=$2");
        reveal_strlit("kicks_donated = kicks_donated + $3");
    }
    assert(parts.take(1) =~= seq!["kicks_donated = kicks_donated + $3"@]);
    assert(joined(parts.take(1), ", "@) == whole.subrange(29, 63));
    assert(whole.subrange(63, 85) =~= ", "@ + "last_synced_at=now()"@) by {
        reveal_strlit("UPDATE channel_relations SET kicks_donated = kicks_donated + $3, last_synced_at=now() WHERE kick_channel_id=$1 AND kick_user_id=$2");
        reveal_strlit(", ");
        reveal_strlit("last_synced_at=now()");
    }
    lemma_next_part(whole, parts, 1, 29, 63, 85);
    assert(parts.take(2) =~= parts);
    assert(whole.subrange(85, 130) =~= " WHERE "@ + "kick_channel_id=$1 AND kick_user_id=$2"@) by {
        reveal_strlit("UPDATE channel_relations SET kicks_donated = kicks_donated + $3, last_synced_at=now() WHERE kick_channel_id=$1 AND kick_user_id=$2");
        reveal_strlit(" WHERE ");
        reveal_strlit("kick_channel_id=$1 AND kick_user_id=$2");
    }
    assert(whole =~= whole.subrange(0, 29) + whole.subrange(29, 85) + whole.subrange(85, 130));
}

/// The structure of [`LIVE_STARTED`].
spec fn live_started() -> Update {
    Update {
        table: "broadcasters"@,
        sets: seq![
            Assignment { column: Column::IsLive, sign: " = "@, value: Expr::True },
            Assignment { column: Column::LiveStartedAt, sign: " = "@, value: coalesce(Expr::Param(2), Expr::Now) },
            Assignment { column: Column::UpdatedAt, sign: " = "@, value: Expr::Now },
        ],
        key: "kick_channel_id = $1"@,
        only: None,
    }
}

proof fn lemma_set_is_live()
    ensures
        assignment_text(
            Assignment { column: Column::IsLive, sign: " = "@, value: Expr::True },
        ) == "is_live = true"@,
{
    let e0 = Expr::True;
    assert(expr_text(e0) =~= "true"@) by {
        reveal_strlit("true");
    }
    assert(assignment_text(Assignment { column: Column::IsLive, sign: " = "@, value: e0 }) =~= "is_live = true"@) by {
        reveal_strlit("is_live");
        reveal_strlit(" = ");
        reveal_strlit("true");
        reveal_strlit("is_live = true");
    }
}

proof fn lemma_set_live_started_at()
    ensures
        assignment_text(
            Assignment { column: Column::LiveStartedAt, sign: " = "@, value: coalesce(Expr::Param(2), Expr::Now) },
        ) == "live_started_at = COALESCE($2, now())"@,
{
    let e0 = Expr::Param(2);
    assert(expr_text(e0) =~= "$2"@) by {
        reveal_strlit("$");
        reveal_strlit("$2");
        reveal_with_fuel(decimal, 3);
    }
    let e1 = Expr::Now;
    assert(expr_text(e1) =~= "now()"@) by {
        reveal_strlit("now()");
    }
    let e2 = Expr::Coalesce(Box::new(e0), Box::new(e1));
    assert(expr_text(e2) =~= "COALESCE($2, now())"@) by {
        reveal_strlit("COALESCE(");
        reveal_strlit(", ");
        reveal_strlit(")");
        reveal_strlit("$2");
        reveal_strlit("now()");
        reveal_strlit("COALESCE($2, now())");
    }
    assert(assignment_text(Assignment { column: Column::LiveStartedAt, sign: " = "@, value: e2 }) =~= "live_started_at = COALESCE($2, now())"@) by {
        reveal_strlit("live_started_at");
        reveal_strlit(" = ");
        reveal_strlit("COALESCE($2, now())");
        reveal_strlit("live_started_at = COALESCE($2, now())");
    }
}

proof fn lemma_set_updated_at()
    ensures
        assignment_text(
            Assignment { column: Column::UpdatedAt, sign: " = "@, value: Expr::Now },
        ) == "updated_at = now()"@,
{
    let e0 = Expr::Now;
    assert(expr_text(e0) =~= "now()"@) by {
        reveal_strlit("now()");
    }
    assert(assignment_text(Assignment { column: Column::UpdatedAt, sign: " = "@, value: e0 }) =~= "updated_at = now()"@) by {
        reveal_strlit("updated_at");
        reveal_strlit(" = ");
        reveal_strlit("now()");
        reveal_strlit("updated_at = now()");
    }
}

#[verifier::spinoff_prover]
#[verifier::rlimit(80)]
proof fn lemma_text_of_live_started()
    ensures
        LIVE_STARTED@ == update_text(live_started()),
{
    lemma_set_is_live();
    lemma_set_live_started_at();
    lemma_set_updated_at();
    let whole = LIVE_STARTED@;
    assert(whole.len() == 124) by {
        reveal_strlit("UPDATE broadcasters SET is_live = true, live_started_at = COALESCE($2, now()), updated_at = now() WHERE kick_channel_id = $1");
    }
    let parts = seq![
        "is_live = true"@,
        "live_started_at = COALESCE($2, now())"@,
        "updated_at = now()"@,
    ];
    let u = live_started();
    assert(u.sets.map_values(|a: Assignment| assignment_text(a)) =~= parts);
    assert(whole.subrange(0, 24) =~= "UPDATE "@ + "broadcasters"@ + " SET "@) by {
        reveal_strlit("UPDATE broadcasters SET is_live = true, live_started_at = COALESCE($2, now()), updated_at = now() WHERE kick_channel_id = $1");
        reveal_strlit("UPDATE ");
        reveal_strlit("broadcasters");
        reveal_strlit(" SET ");
    }
    assert(whole.subrange(24, 38) =~= "is_live = true"@) by {
        reveal_strlit("UPDATE broadcasters SET is_live = true, live_started_at = COALESCE($2, now()), updated_at = now() WHERE kick_channel_id = $1");
        reveal_strlit("is_live = true");
    }
    assert(parts.take(1) =~= seq!["is_live = true"@]);
    assert(joined(parts.take(1), ", "@) == whole.subrange(24, 38));
    assert(whole.subrange(38, 77) =~= ", "@ + "live_started_at = COALESCE($2, now())"@) by {
        reveal_strlit("UPDATE broadcasters SET is_live = true, live_started_at = COALESCE($2, now()), updated_at = now() WHERE kick_channel_id = $1");
        reveal_strlit(", ");
        reveal_strlit("live_started_at = COALESCE($2, now())");
    }
    lemma_next_part(whole, parts, 1, 24, 38, 77);
    assert(whole.subrange(77, 97) =~= ", "@ + "updated_at = now()"@) by {
        reveal_strlit("UPDATE broadcasters SET is_live = true, live_started_at = COALESCE($2, now()), updated_at = now() WHERE kick_channel_id = $1");
        reveal_strlit(", ");
        reveal_strlit("updated_at = now()");
    }
    lemma_next_part(whole, parts, 2, 24, 77, 97);
    assert(parts.take(3) =~= parts);
    assert(whole.subrange(97, 124) =~= " WHERE "@ + "kick_channel_id = $1"@) by {
        reveal_strlit("UPDATE broadcasters SET is_live = true, live_started_at = COALESCE($2, now()), updated_at = now() WHERE kick_channel_id = $1");
        reveal_strlit(" WHERE ");
        reveal_strlit("kick_channel_id = $1");
    }
    assert(whole =~= whole.subrange(0, 24) + whole.subrange(24, 97) + whole.subrange(97, 124));
}

/// The structure of [`LIVE_ENDED`].
spec fn live_ended() -> Update {
    Update {
        table: "broadcasters"@,
        sets: seq![
            Assignment { column: Column::IsLive, sign: " = "@, value: Expr::False },
            Assignment { column: Column::LastLiveAt, sign: " = "@, value: Expr::Now },
            Assignment { column: Column::ViewerCount, sign: " = "@, value: Expr::Number(0) },
            Assignment { column: Column::UpdatedAt, sign: " = "@, value: Expr::Now },
        ],
        key: "kick_channel_id = $1"@,
        only: None,
    }
}

proof fn lemma_set_is_live_2()
    ensures
        assignment_text(
            Assignment { column: Column::IsLive, sign: " = "@, value: Expr::False },
        ) == "is_live = false"@,
{
    let e0 = Expr::False;
    assert(expr_text(e0) =~= "false"@) by {
        reveal_strlit("false");
    }
    assert(assignment_text(Assignment { column: Column::IsLive, sign: " = "@, value: e0 }) =~= "is_live = false"@) by {
        reveal_strlit("is_live");
        reveal_strlit(" = ");
        reveal_strlit("false");
        reveal_strlit("is_live = false");
    }
}

proof fn lemma_set_last_live_at()
    ensures
        assignment_text(
            Assignment { column: Column::LastLiveAt, sign: " = "@, value: Expr::Now },
        ) == "last_live_at = now()"@,
{
    let e0 = Expr::Now;
    assert(expr_text(e0) =~= "now()"@) by {
        reveal_strlit("now()");
    }
    assert(assignment_text(Assignment { column: Column::LastLiveAt, sign: " = "@, value: e0 }) =~= "last_live_at = now()"@) by {
        reveal_strlit("last_live_at");
        reveal_strlit(" = ");
        reveal_strlit("now()");
        reveal_strlit("last_live_at = now()");
    }
}

proof fn lemma_set_viewer_count()
    ensures
        assignment_text(
            Assignment { column: Column::ViewerCount, sign: " = "@, value: Expr::Number(0) },
        ) == "viewer_count = 0"@,
{
    let e0 = Expr::Number(0);
    assert(expr_text(e0) =~= "0"@) by {
        reveal_strlit("0");
        reveal_with_fuel(decimal, 3);
    }
    assert(assignment_text(Assignment { column: Column::ViewerCount, sign: " = "@, value: e0 }) =~= "viewer_count = 0"@) by {
        reveal_strlit("viewer_count");
        reveal_strlit(" = ");
        reveal_strlit("0");
        reveal_strlit("viewer_count = 0");
    }
}

#[verifier::spinoff_prover]
#[verifier::rlimit(80)]
proof fn lemma_text_of_live_ended()
    ensures
        LIVE_ENDED@ == update_text(live_ended()),
{
    lemma_set_is_live_2();
    lemma_set_last_live_at();
    lemma_set_viewer_count();
    lemma_set_updated_at();
    let whole = LIVE_ENDED@;
    assert(whole.len() == 126) by {
        reveal_strlit("UPDATE broadcasters SET is_live = false, last_live_at = now(), viewer_count = 0, updated_at = now() WHERE kick_channel_id = $1");
    }
    let parts = seq![
        "is_live = false"@,
        "last_live_at = now()"@,
        "viewer_count = 0"@,
        "updated_at = now()"@,
    ];
    let u = live_ended();
    assert(u.sets.map_values(|a: Assignment| assignment_text(a)) =~= parts);
    assert(whole.subrange(0, 24) =~= "UPDATE "@ + "broadcasters"@ + " SET "@) by {
        reveal_strlit("UPDATE broadcasters SET is_live = false, last_live_at = now(), viewer_count = 0, updated_at = now() WHERE kick_channel_id = $1");
        reveal_strlit("UPDATE ");
        reveal_strlit("broadcasters");
        reveal_strlit(" SET ");
    }
    assert(whole.subrange(24, 39) =~= "is_live = false"@) by {
        reveal_strlit("UPDATE broadcasters SET is_live = false, last_live_at = now(), viewer_count = 0, updated_at = now() WHERE kick_channel_id = $1");
        reveal_strlit("is_live = false");
    }
    assert(parts.take(1) =~= seq!["is_live = false"@]);
    assert(joined(parts.take(1), ", "@) == whole.subrange(24, 39));
    assert(whole.subrange(39, 61) =~= ", "@ + "last_live_at = now()"@) by {
        reveal_strlit("UPDATE broadcasters SET is_live = false, last_live_at = now(), viewer_count = 0, updated_at = now() WHERE kick_channel_id = $1");
        reveal_strlit(", ");
        reveal_strlit("last_live_at = now()");
    }
    lemma_next_part(whole, parts, 1, 24, 39, 61);
    assert(whole.subrange(61, 79) =~= ", "@ + "viewer_count = 0"@) by {
        reveal_strlit("UPDATE broadcasters SET is_live = false, last_live_at = now(), viewer_count = 0, updated_at = now() WHERE kick_channel_id = $1");
        reveal_strlit(", ");
        reveal_strlit("viewer_count = 0");
    }
    lemma_next_part(whole, parts, 2, 24, 61, 79);
    assert(whole.subrange(79, 99) =~= ", "@ + "updated_at = now()"@) by {
        reveal_strlit("UPDATE broadcasters SET is_live = false, last_live_at = now(), viewer_count = 0, updated_at = now() WHERE kick_channel_id = $1");
        reveal_strlit(", ");
        reveal_strlit("updated_at = now()");
    }
    lemma_next_part(whole, parts, 3, 24, 79, 99);
    assert(parts.take(4) =~= parts);
    assert(whole.subrange(99, 126) =~= " WHERE "@ + "kick_channel_id = $1"@) by {
        reveal_strlit("UPDATE broadcasters SET is_live = false, last_live_at = now(), viewer_count = 0, updated_at = now() WHERE kick_channel_id = $1");
        reveal_strlit(" WHERE ");
        reveal_strlit("kick_channel_id = $1");
    }
    assert(whole =~= whole.subrange(0, 24) + whole.subrange(24, 99) + whole.subrange(99, 126));
}

/// The structure of [`CATEGORY_CHANGED`].
spec fn category_changed() -> Update {
    Update {
        table: "broadcasters"@,
        sets: seq![
            Assignment { column: Column::CurrentCategory, sign: " = "@, value: Expr::Param(2) },
            Assignment { column: Column::UpdatedAt, sign: " = "@, value: Expr::Now },
        ],
        key: "kick_channel_id = $1"@,
        only: None,
    }
}

proof fn lemma_set_current_category()
    ensures
        assignment_text(
            Assignment { column: Column::CurrentCategory, sign: " = "@, value: Expr::Param(2) },
        ) == "current_category = $2"@,
{
    let e0 = Expr::Param(2);
    assert(expr_text(e0) =~= "$2"@) by {
        reveal_strlit("$");
        reveal_strlit("$2");
        reveal_with_fuel(decimal, 3);
    }
    assert(assignment_text(Assignment { column: Column::CurrentCategory, sign: " = "@, value: e0 }) =~= "current_category = $2"@) by {
        reveal_strlit("current_category");
        reveal_strlit(" = ");
        reveal_strlit("$2");
        reveal_strlit("current_category = $2");
    }
}

#[verifier::spinoff_prover]
#[verifier::rlimit(80)]
proof fn lemma_text_of_category_changed()
    ensures
        CATEGORY_CHANGED@ == update_text(category_changed()),
{
    lemma_set_current_category();
    lemma_set_updated_at();
    let whole = CATEGORY_CHANGED@;
    assert(whole.len() == 92) by {
        reveal_strlit("UPDATE broadcasters SET current_category = $2, updated_at = now() WHERE kick_channel_id = $1");
    }
    let parts = seq![
        "current_category = $2"@,
        "updated_at = now()"@,
    ];
    let u = category_changed();
    assert(u.sets.map_values(|a: Assignment| assignment_text(a)) =~= parts);
    assert(whole.subrange(0, 24) =~= "UPDATE "@ + "broadcasters"@ + " SET "@) by {
        reveal_strlit("UPDATE broadcasters SET current_category = $2, updated_at = now() WHERE kick_channel_id = $1");
        reveal_strlit("UPDATE ");
        reveal_strlit("broadcasters");
        reveal_strlit(" SET ");
    }
    assert(whole.subrange(24, 45) =~= "current_category = $2"@) by {
        reveal_strlit("UPDATE broadcasters SET current_category = $2, updated_at = now() WHERE kick_channel_id = $1");
        reveal_strlit("current_category = $2");
    }
    assert(parts.take(1) =~= seq!["current_category = $2"@]);
    assert(joined(parts.take(1), ", "@) == whole.subrange(24, 45));
    assert(whole.subrange(45, 65) =~= ", "@ + "updated_at = now()"@) by {
        reveal_strlit("UPDATE broadcasters SET current_category = $2, updated_at = now() WHERE kick_channel_id = $1");
        reveal_strlit(", ");
        reveal_strlit("updated_at = now()");
    }
    lemma_next_part(whole, parts, 1, 24, 45, 65);
    assert(parts.take(2) =~= parts);
    assert(whole.subrange(65, 92) =~= " WHERE "@ + "kick_channel_id = $1"@) by {
        reveal_strlit("UPDATE broadcasters SET current_category = $2, updated_at = now() WHERE kick_channel_id = $1");
        reveal_strlit(" WHERE ");
        reveal_strlit("kick_channel_id = $1");
    }
    assert(whole =~= whole.subrange(0, 24) + whole.subrange(24, 65) + whole.subrange(65, 92));
}

/// The structure of [`UPDATE_RELATION`].
spec fn update_relation() -> Update {
    Update {
        table: "channel_relations"@,
        sets: seq![
            Assignment { column: Column::IsFollower, sign: " = "@, value: Expr::Param(3) },
            Assignment { column: Column::FollowedAt, sign: " = "@, value: case(Expr::Param(3), coalesce_all(own(Column::FollowedAt), Expr::Param(4), Expr::Now), Expr::Null) },
            Assignment { column: Column::FollowConfirmedAt, sign: " = "@, value: case(Expr::Param(3), Expr::Now, own(Column::FollowConfirmedAt)) },
            Assignment { column: Column::FollowProbedAt, sign: " = "@, value: Expr::Now },
            Assignment { column: Column::FollowProbeAttemptedAt, sign: " = "@, value: Expr::Now },
            Assignment { column: Column::FollowMissedAt, sign: " = "@, value: case(Expr::Param(5), Expr::Now, own(Column::FollowMissedAt)) },
            Assignment { column: Column::FollowProbeMisses, sign: " = "@, value: Expr::Param(6) },
            Assignment { column: Column::IsSubscriber, sign: " = "@, value: either(own(Column::IsSubscriber), Expr::Param(7)) },
            Assignment { column: Column::SubMonthsCumulative, sign: " = "@, value: greatest(own(Column::SubMonthsCumulative), Expr::Param(8)) },
            Assignment { column: Column::IsVip, sign: " = "@, value: either(own(Column::IsVip), Expr::Param(9)) },
            Assignment { column: Column::IsModerator, sign: " = "@, value: either(own(Column::IsModerator), Expr::Param(10)) },
            Assignment { column: Column::IsOg, sign: " = "@, value: either(own(Column::IsOg), Expr::Param(11)) },
            Assignment { column: Column::LastSyncedAt, sign: " = "@, value: Expr::Now },
        ],
        key: "kick_channel_id = $1 AND kick_user_id = $2"@,
        only: None,
    }
}

proof fn lemma_set_is_follower_2()
    ensures
        assignment_text(
            Assignment { column: Column::IsFollower, sign: " = "@, value: Expr::Param(3) },
        ) == "is_follower = $3"@,
{
    let e0 = Expr::Param(3);
    assert(expr_text(e0) =~= "$3"@) by {
        reveal_strlit("$");
        reveal_strlit("$3");
        reveal_with_fuel(decimal, 3);
    }
    assert(assignment_text(Assignment { column: Column::IsFollower, sign: " = "@, value: e0 }) =~= "is_follower = $3"@) by {
        reveal_strlit("is_follower");
        reveal_strlit(" = ");
        reveal_strlit("$3");
        reveal_strlit("is_follower = $3");
    }
}

#[verifier::spinoff_prover]
#[verifier::rlimit(80)]
proof fn lemma_set_followed_at_2()
    ensures
        assignment_text(
            Assignment { column: Column::FollowedAt, sign: " = "@, value: case(Expr::Param(3), coalesce_all(own(Column::FollowedAt), Expr::Param(4), Expr::Now), Expr::Null) },
        ) == "followed_at = CASE WHEN $3 THEN COALESCE(followed_at, $4, now()) ELSE NULL END"@,
{
    let e0 = Expr::Param(3);
    assert(expr_text(e0) =~= "$3"@) by {
        reveal_strlit("$");
        reveal_strlit("$3");
        reveal_with_fuel(decimal, 3);
    }
    let e1 = own(Column::FollowedAt);
    assert(expr_text(e1) =~= "followed_at"@) by {
        reveal_strlit("followed_at");
    }
    let e2 = Expr::Param(4);
    assert(expr_text(e2) =~= "$4"@) by {
        reveal_strlit("$");
        reveal_strlit("$4");
        reveal_with_fuel(decimal, 3);
    }
    let e3 = Expr::Now;
    assert(expr_text(e3) =~= "now()"@) by {
        reveal_strlit("now()");
    }
    let e4 = Expr::Coalesce3(Box::new(e1), Box::new(e2), Box::new(e3));
    assert(expr_text(e4) =~= "COALESCE(followed_at, $4, now())"@) by {
        reveal_strlit("COALESCE(");
        reveal_strlit(", ");
        reveal_strlit(")");
        reveal_strlit("followed_at");
        reveal_strlit("$4");
        reveal_strlit("now()");
        reveal_strlit("COALESCE(followed_at, $4, now())");
    }
    let e5 = Expr::Null;
    assert(expr_text(e5) =~= "NULL"@) by {
        reveal_strlit("NULL");
    }
    let e6 = Expr::Case(Box::new(e0), Box::new(e4), Box::new(e5));
    assert(expr_text(e6) =~= "CASE WHEN $3 THEN COALESCE(followed_at, $4, now()) ELSE NULL END"@) by {
        reveal_strlit("CASE WHEN ");
        reveal_strlit(" THEN ");
        reveal_strlit(" ELSE ");
        reveal_strlit(" END");
        reveal_strlit("$3");
        reveal_strlit("COALESCE(followed_at, $4, now())");
        reveal_strlit("NULL");
        reveal_strlit("CASE WHEN $3 THEN COALESCE(followed_at, $4, now()) ELSE NULL END");
    }
    assert(assignment_text(Assignment { column: Column::FollowedAt, sign: " = "@, value: e6 }) =~= "followed_at = CASE WHEN $3 THEN COALESCE(followed_at, $4, now()) ELSE NULL END"@) by {
        reveal_strlit("followed_at");
        reveal_strlit(" = ");
        reveal_strlit("CASE WHEN $3 THEN COALESCE(followed_at, $4, now()) ELSE NULL END");
        reveal_strlit("followed_at = CASE WHEN $3 THEN COALESCE(followed_at, $4, now()) ELSE NULL END");
    }
}

proof fn lemma_set_follow_confirmed_at()
    ensures
        assignment_text(
            Assignment { column: Column::FollowConfirmedAt, sign: " = "@, value: case(Expr::Param(3), Expr::Now, own(Column::FollowConfirmedAt)) },
        ) == "follow_confirmed_at = CASE WHEN $3 THEN now() ELSE follow_confirmed_at END"@,
{
    let e0 = Expr::Param(3);
    assert(expr_text(e0) =~= "$3"@) by {
        reveal_strlit("$");
        reveal_strlit("$3");
        reveal_with_fuel(decimal, 3);
    }
    let e1 = Expr::Now;
    assert(expr_text(e1) =~= "now()"@) by {
        reveal_strlit("now()");
    }
    let e2 = own(Column::FollowConfirmedAt);
    assert(expr_text(e2) =~= "follow_confirmed_at"@) by {
        reveal_strlit("follow_confirmed_at");
    }
    let e3 = Expr::Case(Box::new(e0), Box::new(e1), Box::new(e2));
    assert(expr_text(e3) =~= "CASE WHEN $3 THEN now() ELSE follow_confirmed_at END"@) by {
        reveal_strlit("CASE WHEN ");
        reveal_strlit(" THEN ");
        reveal_strlit(" ELSE ");
        reveal_strlit(" END");
        reveal_strlit("$3");
        reveal_strlit("now()");
        reveal_strlit("follow_confirmed_at");
        reveal_strlit("CASE WHEN $3 THEN now() ELSE follow_confirmed_at END");
    }
    assert(assignment_text(Assignment { column: Column::FollowConfirmedAt, sign: " = "@, value: e3 }) =~= "follow_confirmed_at = CASE WHEN $3 THEN now() ELSE follow_confirmed_at END"@) by {
        reveal_strlit("follow_confirmed_at");
        reveal_strlit(" = ");
        reveal_strlit("CASE WHEN $3 THEN now() ELSE follow_confirmed_at END");
        reveal_strlit("follow_confirmed_at = CASE WHEN $3 THEN now() ELSE follow_confirmed_at END");
    }
}

proof fn lemma_set_follow_probed_at()
    ensures
        assignment_text(
            Assignment { column: Column::FollowProbedAt, sign: " = "@, value: Expr::Now },
        ) == "follow_probed_at = now()"@,
{
    let e0 = Expr::Now;
    assert(expr_text(e0) =~= "now()"@) by {
        reveal_strlit("now()");
    }
    assert(assignment_text(Assignment { column: Column::FollowProbedAt, sign: " = "@, value: e0 }) =~= "follow_probed_at = now()"@) by {
        reveal_strlit("follow_probed_at");
        reveal_strlit(" = ");
        reveal_strlit("now()");
        reveal_strlit("follow_probed_at = now()");
    }
}

proof fn lemma_set_follow_probe_attempted_at()
    ensures
        assignment_text(
            Assignment { column: Column::FollowProbeAttemptedAt, sign: " = "@, value: Expr::Now },
        ) == "follow_probe_attempted_at = now()"@,
{
    let e0 = Expr::Now;
    assert(expr_text(e0) =~= "now()"@) by {
        reveal_strlit("now()");
    }
    assert(assignment_text(Assignment { column: Column::FollowProbeAttemptedAt, sign: " = "@, value: e0 }) =~= "follow_probe_attempted_at = now()"@) by {
        reveal_strlit("follow_probe_attempted_at");
        reveal_strlit(" = ");
        reveal_strlit("now()");
        reveal_strlit("follow_probe_attempted_at = now()");
    }
}

proof fn lemma_set_follow_missed_at()
    ensures
        assignment_text(
            Assignment { column: Column::FollowMissedAt, sign: " = "@, value: case(Expr::Param(5), Expr::Now, own(Column::FollowMissedAt)) },
        ) == "follow_missed_at = CASE WHEN $5 THEN now() ELSE follow_missed_at END"@,
{
    let e0 = Expr::Param(5);
    assert(expr_text(e0) =~= "$5"@) by {
        reveal_strlit("$");
        reveal_strlit("$5");
        reveal_with_fuel(decimal, 3);
    }
    let e1 = Expr::Now;
    assert(expr_text(e1) =~= "now()"@) by {
        reveal_strlit("now()");
    }
    let e2 = own(Column::FollowMissedAt);
    assert(expr_text(e2) =~= "follow_missed_at"@) by {
        reveal_strlit("follow_missed_at");
    }
    let e3 = Expr::Case(Box::new(e0), Box::new(e1), Box::new(e2));
    assert(expr_text(e3) =~= "CASE WHEN $5 THEN now() ELSE follow_missed_at END"@) by {
        reveal_strlit("CASE WHEN ");
        reveal_strlit(" THEN ");
        reveal_strlit(" ELSE ");
        reveal_strlit(" END");
        reveal_strlit("$5");
        reveal_strlit("now()");
        reveal_strlit("follow_missed_at");
        reveal_strlit("CASE WHEN $5 THEN now() ELSE follow_missed_at END");
    }
    assert(assignment_text(Assignment { column: Column::FollowMissedAt, sign: " = "@, value: e3 }) =~= "follow_missed_at = CASE WHEN $5 THEN now() ELSE follow_missed_at END"@) by {
        reveal_strlit("follow_missed_at");
        reveal_strlit(" = ");
        reveal_strlit("CASE WHEN $5 THEN now() ELSE follow_missed_at END");
        reveal_strlit("follow_missed_at = CASE WHEN $5 THEN now() ELSE follow_missed_at END");
    }
}

proof fn lemma_set_follow_probe_misses()
    ensures
        assignment_text(
            Assignment { column: Column::FollowProbeMisses, sign: " = "@, value: Expr::Param(6) },
        ) == "follow_probe_misses = $6"@,
{
    let e0 = Expr::Param(6);
    assert(expr_text(e0) =~= "$6"@) by {
        reveal_strlit("$");
        reveal_strlit("$6");
        reveal_with_fuel(decimal, 3);
    }
    assert(assignment_text(Assignment { column: Column::FollowProbeMisses, sign: " = "@, value: e0 }) =~= "follow_probe_misses = $6"@) by {
        reveal_strlit("follow_probe_misses");
        reveal_strlit(" = ");
        reveal_strlit("$6");
        reveal_strlit("follow_probe_misses = $6");
    }
}

proof fn lemma_set_is_subscriber_2()
    ensures
        assignment_text(
            Assignment { column: Column::IsSubscriber, sign: " = "@, value: either(own(Column::IsSubscriber), Expr::Param(7)) },
        ) == "is_subscriber = is_subscriber OR $7"@,
{
    let e0 = own(Column::IsSubscriber);
    assert(expr_text(e0) =~= "is_subscriber"@) by {
        reveal_strlit("is_subscriber");
    }
    let e1 = Expr::Param(7);
    assert(expr_text(e1) =~= "$7"@) by {
        reveal_strlit("$");
        reveal_strlit("$7");
        reveal_with_fuel(decimal, 3);
    }
    let e2 = Expr::Or(Box::new(e0), Box::new(e1));
    assert(expr_text(e2) =~= "is_subscriber OR $7"@) by {
        reveal_strlit(" OR ");
        reveal_strlit("is_subscriber");
        reveal_strlit("$7");
        reveal_strlit("is_subscriber OR $7");
    }
    assert(assignment_text(Assignment { column: Column::IsSubscriber, sign: " = "@, value: e2 }) =~= "is_subscriber = is_subscriber OR $7"@) by {
        reveal_strlit("is_subscriber");
        reveal_strlit(" = ");
        reveal_strlit("is_subscriber OR $7");
        reveal_strlit("is_subscriber = is_subscriber OR $7");
    }
}

proof fn lemma_set_sub_months_cumulative_5()
    ensures
        assignment_text(
            Assignment { column: Column::SubMonthsCumulative, sign: " = "@, value: greatest(own(Column::SubMonthsCumulative), Expr::Param(8)) },
        ) == "sub_months_cumulative = GREATEST(sub_months_cumulative, $8)"@,
{
    let e0 = own(Column::SubMonthsCumulative);
    assert(expr_text(e0) =~= "sub_months_cumulative"@) by {
        reveal_strlit("sub_months_cumulative");
    }
    let e1 = Expr::Param(8);
    assert(expr_text(e1) =~= "$8"@) by {
        reveal_strlit("$");
        reveal_strlit("$8");
        reveal_with_fuel(decimal, 3);
    }
    let e2 = Expr::Greatest(Box::new(e0), Box::new(e1));
    assert(expr_text(e2) =~= "GREATEST(sub_months_cumulative, $8)"@) by {
        reveal_strlit("GREATEST(");
        reveal_strlit(", ");
        reveal_strlit(")");
        reveal_strlit("sub_months_cumulative");
        reveal_strlit("$8");
        reveal_strlit("GREATEST(sub_months_cumulative, $8)");
    }
    assert(assignment_text(Assignment { column: Column::SubMonthsCumulative, sign: " = "@, value: e2 }) =~= "sub_months_cumulative = GREATEST(sub_months_cumulative, $8)"@) by {
        reveal_strlit("sub_months_cumulative");
        reveal_strlit(" = ");
        reveal_strlit("GREATEST(sub_months_cumulative, $8)");
        reveal_strlit("sub_months_cumulative = GREATEST(sub_months_cumulative, $8)");
    }
}

proof fn lemma_set_is_vip_2()
    ensures
        assignment_text(
            Assignment { column: Column::IsVip, sign: " = "@, value: either(own(Column::IsVip), Expr::Param(9)) },
        ) == "is_vip = is_vip OR $9"@,
{
    let e0 = own(Column::IsVip);
    assert(expr_text(e0) =~= "is_vip"@) by {
        reveal_strlit("is_vip");
    }
    let e1 = Expr::Param(9);
    assert(expr_text(e1) =~= "$9"@) by {
        reveal_strlit("$");
        reveal_strlit("$9");
        reveal_with_fuel(decimal, 3);
    }
    let e2 = Expr::Or(Box::new(e0), Box::new(e1));
    assert(expr_text(e2) =~= "is_vip OR $9"@) by {
        reveal_strlit(" OR ");
        reveal_strlit("is_vip");
        reveal_strlit("$9");
        reveal_strlit("is_vip OR $9");
    }
    assert(assignment_text(Assignment { column: Column::IsVip, sign: " = "@, value: e2 }) =~= "is_vip = is_vip OR $9"@) by {
        reveal_strlit("is_vip");
        reveal_strlit(" = ");
        reveal_strlit("is_vip OR $9");
        reveal_strlit("is_vip = is_vip OR $9");
    }
}

proof fn lemma_set_is_moderator_2()
    ensures
        assignment_text(
            Assignment { column: Column::IsModerator, sign: " = "@, value: either(own(Column::IsModerator), Expr::Param(10)) },
        ) == "is_moderator = is_moderator OR $10"@,
{
    let e0 = own(Column::IsModerator);
    assert(expr_text(e0) =~= "is_moderator"@) by {
        reveal_strlit("is_moderator");
    }
    let e1 = Expr::Param(10);
    assert(expr_text(e1) =~= "$10"@) by {
        reveal_strlit("$");
        reveal_strlit("$10");
        reveal_with_fuel(decimal, 3);
    }
    let e2 = Expr::Or(Box::new(e0), Box::new(e1));
    assert(expr_text(e2) =~= "is_moderator OR $10"@) by {
        reveal_strlit(" OR ");
        reveal_strlit("is_moderator");
        reveal_strlit("$10");
        reveal_strlit("is_moderator OR $10");
    }
    assert(assignment_text(Assignment { column: Column::IsModerator, sign: " = "@, value: e2 }) =~= "is_moderator = is_moderator OR $10"@) by {
        reveal_strlit("is_moderator");
        reveal_strlit(" = ");
        reveal_strlit("is_moderator OR $10");
        reveal_strlit("is_moderator = is_moderator OR $10");
    }
}

proof fn lemma_set_is_og_2()
    ensures
        assignment_text(
            Assignment { column: Column::IsOg, sign: " = "@, value: either(own(Column::IsOg), Expr::Param(11)) },
        ) == "is_og = is_og OR $11"@,
{
    let e0 = own(Column::IsOg);
    assert(expr_text(e0) =~= "is_og"@) by {
        reveal_strlit("is_og");
    }
    let e1 = Expr::Param(11);
    assert(expr_text(e1) =~= "$11"@) by {
        reveal_strlit("$");
        reveal_strlit("$11");
        reveal_with_fuel(decimal, 3);
    }
    let e2 = Expr::Or(Box::new(e0), Box::new(e1));
    assert(expr_text(e2) =~= "is_og OR $11"@) by {
        reveal_strlit(" OR ");
        reveal_strlit("is_og");
        reveal_strlit("$11");
        reveal_strlit("is_og OR $11");
    }
    assert(assignment_text(Assignment { column: Column::IsOg, sign: " = "@, value: e2 }) =~= "is_og = is_og OR $11"@) by {
        reveal_strlit("is_og");
        reveal_strlit(" = ");
        reveal_strlit("is_og OR $11");
        reveal_strlit("is_og = is_og OR $11");
    }
}

proof fn lemma_set_last_synced_at_2()
    ensures
        assignment_text(
            Assignment { column: Column::LastSyncedAt, sign: " = "@, value: Expr::Now },
        ) == "last_synced_at = now()"@,
{
    let e0 = Expr::Now;
    assert(expr_text(e0) =~= "now()"@) by {
        reveal_strlit("now()");
    }
    assert(assignment_text(Assignment { column: Column::LastSyncedAt, sign: " = "@, value: e0 }) =~= "last_synced_at = now()"@) by {
        reveal_strlit("last_synced_at");
        reveal_strlit(" = ");
        reveal_strlit("now()");
        reveal_strlit("last_synced_at = now()");
    }
}

#[verifier::spinoff_prover]
#[verifier::rlimit(80)]
proof fn lemma_text_of_update_relation()
    ensures
        UPDATE_RELATION@ == update_text(update_relation()),
{
    lemma_set_is_follower_2();
    lemma_set_followed_at_2();
    lemma_set_follow_confirmed_at();
    lemma_set_follow_probed_at();
    lemma_set_follow_probe_attempted_at();
    lemma_set_follow_missed_at();
    lemma_set_follow_probe_misses();
    lemma_set_is_subscriber_2();
    lemma_set_sub_months_cumulative_5();
    lemma_set_is_vip_2();
    lemma_set_is_moderator_2();
    lemma_set_is_og_2();
    lemma_set_last_synced_at_2();
    let whole = UPDATE_RELATION@;
    assert(whole.len() == 610) by {
        reveal_strlit("UPDATE channel_relations SET is_follower = $3, followed_at = CASE WHEN $3 THEN COALESCE(followed_at, $4, now()) ELSE NULL END, follow_confirmed_at = CASE WHEN $3 THEN now() ELSE follow_confirmed_at END, follow_probed_at = now(), follow_probe_attempted_at = now(), follow_missed_at = CASE WHEN $5 THEN now() ELSE follow_missed_at END, follow_probe_misses = $6, is_subscriber = is_subscriber OR $7, sub_months_cumulative = GREATEST(sub_months_cumulative, $8), is_vip = is_vip OR $9, is_moderator = is_moderator OR $10, is_og = is_og OR $11, last_synced_at = now() WHERE kick_channel_id = $1 AND kick_user_id = $2");
    }
    let parts = seq![
        "is_follower = $3"@,
        "followed_at = CASE WHEN $3 THEN COALESCE(followed_at, $4, now()) ELSE NULL END"@,
        "follow_confirmed_at = CASE WHEN $3 THEN now() ELSE follow_confirmed_at END"@,
        "follow_probed_at = now()"@,
        "follow_probe_attempted_at = now()"@,
        "follow_missed_at = CASE WHEN $5 THEN now() ELSE follow_missed_at END"@,
        "follow_probe_misses = $6"@,
        "is_subscriber = is_subscriber OR $7"@,
        "sub_months_cumulative = GREATEST(sub_months_cumulative, $8)"@,
        "is_vip = is_vip OR $9"@,
        "is_moderator = is_moderator OR $10"@,
        "is_og = is_og OR $11"@,
        "last_synced_at = now()"@,
    ];
    let u = update_relation();
    assert(u.sets.map_values(|a: Assignment| assignment_text(a)) =~= parts);
    assert(whole.subrange(0, 29) =~= "UPDATE "@ + "channel_relations"@ + " SET "@) by {
        reveal_strlit("UPDATE channel_relations SET is_follower = $3, followed_at = CASE WHEN $3 THEN COALESCE(followed_at, $4, now()) ELSE NULL END, follow_confirmed_at = CASE WHEN $3 THEN now() ELSE follow_confirmed_at END, follow_probed_at = now(), follow_probe_attempted_at = now(), follow_missed_at = CASE WHEN $5 THEN now() ELSE follow_missed_at END, follow_probe_misses = $6, is_subscriber = is_subscriber OR $7, sub_months_cumulative = GREATEST(sub_months_cumulative, $8), is_vip = is_vip OR $9, is_moderator = is_moderator OR $10, is_og = is_og OR $11, last_synced_at = now() WHERE kick_channel_id = $1 AND kick_user_id = $2");
        reveal_strlit("UPDATE ");
        reveal_strlit("channel_relations");
        reveal_strlit(" SET ");
    }
    assert(whole.subrange(29, 45) =~= "is_follower = $3"@) by {
        reveal_strlit("UPDATE channel_relations SET is_follower = $3, followed_at = CASE WHEN $3 THEN COALESCE(followed_at, $4, now()) ELSE NULL END, follow_confirmed_at = CASE WHEN $3 THEN now() ELSE follow_confirmed_at END, follow_probed_at = now(), follow_probe_attempted_at = now(), follow_missed_at = CASE WHEN $5 THEN now() ELSE follow_missed_at END, follow_probe_misses = $6, is_subscriber = is_subscriber OR $7, sub_months_cumulative = GREATEST(sub_months_cumulative, $8), is_vip = is_vip OR $9, is_moderator = is_moderator OR $10, is_og = is_og OR $11, last_synced_at = now() WHERE kick_channel_id = $1 AND kick_user_id = $2");
        reveal_strlit("is_follower = $3");
    }
    assert(parts.take(1) =~= seq!["is_follower = $3"@]);
    assert(joined(parts.take(1), ", "@) == whole.subrange(29, 45));
    assert(whole.subrange(45, 125) =~= ", "@ + "followed_at = CASE WHEN $3 THEN COALESCE(followed_at, $4, now()) ELSE NULL END"@) by {
        reveal_strlit("UPDATE channel_relations SET is_follower = $3, followed_at = CASE WHEN $3 THEN COALESCE(followed_at, $4, now()) ELSE NULL END, follow_confirmed_at = CASE WHEN $3 THEN now() ELSE follow_confirmed_at END, follow_probed_at = now(), follow_probe_attempted_at = now(), follow_missed_at = CASE WHEN $5 THEN now() ELSE follow_missed_at END, follow_probe_misses = $6, is_subscriber = is_subscriber OR $7, sub_months_cumulative = GREATEST(sub_months_cumulative, $8), is_vip = is_vip OR $9, is_moderator = is_moderator OR $10, is_og = is_og OR $11, last_synced_at = now() WHERE kick_channel_id = $1 AND kick_user_id = $2");
        reveal_strlit(", ");
        reveal_strlit("followed_at = CASE WHEN $3 THEN COALESCE(followed_at, $4, now()) ELSE NULL END");
    }
    lemma_next_part(whole, parts, 1, 29, 45, 125);
    assert(whole.subrange(125, 201) =~= ", "@ + "follow_confirmed_at = CASE WHEN $3 THEN now() ELSE follow_confirmed_at END"@) by {
        reveal_strlit("UPDATE channel_relations SET is_follower = $3, followed_at = CASE WHEN $3 THEN COALESCE(followed_at, $4, now()) ELSE NULL END, follow_confirmed_at = CASE WHEN $3 THEN now() ELSE follow_confirmed_at END, follow_probed_at = now(), follow_probe_attempted_at = now(), follow_missed_at = CASE WHEN $5 THEN now() ELSE follow_missed_at END, follow_probe_misses = $6, is_subscriber = is_subscriber OR $7, sub_months_cumulative = GREATEST(sub_months_cumulative, $8), is_vip = is_vip OR $9, is_moderator = is_moderator OR $10, is_og = is_og OR $11, last_synced_at = now() WHERE kick_channel_id = $1 AND kick_user_id = $2");
        reveal_strlit(", ");
        reveal_strlit("follow_confirmed_at = CASE WHEN $3 THEN now() ELSE follow_confirmed_at END");
    }
    lemma_next_part(whole, parts, 2, 29, 125, 201);
    assert(whole.subrange(201, 227) =~= ", "@ + "follow_probed_at = now()"@) by {
        reveal_strlit("UPDATE channel_relations SET is_follower = $3, followed_at = CASE WHEN $3 THEN COALESCE(followed_at, $4, now()) ELSE NULL END, follow_confirmed_at = CASE WHEN $3 THEN now() ELSE follow_confirmed_at END, follow_probed_at = now(), follow_probe_attempted_at = now(), follow_missed_at = CASE WHEN $5 THEN now() ELSE follow_missed_at END, follow_probe_misses = $6, is_subscriber = is_subscriber OR $7, sub_months_cumulative = GREATEST(sub_months_cumulative, $8), is_vip = is_vip OR $9, is_moderator = is_moderator OR $10, is_og = is_og OR $11, last_synced_at = now() WHERE kick_channel_id = $1 AND kick_user_id = $2");
        reveal_strlit(", ");
        reveal_strlit("follow_probed_at = now()");
    }
    lemma_next_part(whole, parts, 3, 29, 201, 227);
    assert(whole.subrange(227, 262) =~= ", "@ + "follow_probe_attempted_at = now()"@) by {
        reveal_strlit("UPDATE channel_relations SET is_follower = $3, followed_at = CASE WHEN $3 THEN COALESCE(followed_at, $4, now()) ELSE NULL END, follow_confirmed_at = CASE WHEN $3 THEN now() ELSE follow_confirmed_at END, follow_probed_at = now(), follow_probe_attempted_at = now(), follow_missed_at = CASE WHEN $5 THEN now() ELSE follow_missed_at END, follow_probe_misses = $6, is_subscriber = is_subscriber OR $7, sub_months_cumulative = GREATEST(sub_months_cumulative, $8), is_vip = is_vip OR $9, is_moderator = is_moderator OR $10, is_og = is_og OR $11, last_synced_at = now() WHERE kick_channel_id = $1 AND kick_user_id = $2");
        reveal_strlit(", ");
        reveal_strlit("follow_probe_attempted_at = now()");
    }
    lemma_next_part(whole, parts, 4, 29, 227, 262);
    assert(whole.subrange(262, 332) =~= ", "@ + "follow_missed_at = CASE WHEN $5 THEN now() ELSE follow_missed_at END"@) by {
        reveal_strlit("UPDATE channel_relations SET is_follower = $3, followed_at = CASE WHEN $3 THEN COALESCE(followed_at, $4, now()) ELSE NULL END, follow_confirmed_at = CASE WHEN $3 THEN now() ELSE follow_confirmed_at END, follow_probed_at = now(), follow_probe_attempted_at = now(), follow_missed_at = CASE WHEN $5 THEN now() ELSE follow_missed_at END, follow_probe_misses = $6, is_subscriber = is_subscriber OR $7, sub_months_cumulative = GREATEST(sub_months_cumulative, $8), is_vip = is_vip OR $9, is_moderator = is_moderator OR $10, is_og = is_og OR $11, last_synced_at = now() WHERE kick_channel_id = $1 AND kick_user_id = $2");
        reveal_strlit(", ");
        reveal_strlit("follow_missed_at = CASE WHEN $5 THEN now() ELSE follow_missed_at END");
    }
    lemma_next_part(whole, parts, 5, 29, 262, 332);
    assert(whole.subrange(332, 358) =~= ", "@ + "follow_probe_misses = $6"@) by {
        reveal_strlit("UPDATE channel_relations SET is_follower = $3, followed_at = CASE WHEN $3 THEN COALESCE(followed_at, $4, now()) ELSE NULL END, follow_confirmed_at = CASE WHEN $3 THEN now() ELSE follow_confirmed_at END, follow_probed_at = now(), follow_probe_attempted_at = now(), follow_missed_at = CASE WHEN $5 THEN now() ELSE follow_missed_at END, follow_probe_misses = $6, is_subscriber = is_subscriber OR $7, sub_months_cumulative = GREATEST(sub_months_cumulative, $8), is_vip = is_vip OR $9, is_moderator = is_moderator OR $10, is_og = is_og OR $11, last_synced_at = now() WHERE kick_channel_id = $1 AND kick_user_id = $2");
        reveal_strlit(", ");
        reveal_strlit("follow_probe_misses = $6");
    }
    lemma_next_part(whole, parts, 6, 29, 332, 358);
    assert(whole.subrange(358, 395) =~= ", "@ + "is_subscriber = is_subscriber OR $7"@) by {
        reveal_strlit("UPDATE channel_relations SET is_follower = $3, followed_at = CASE WHEN $3 THEN COALESCE(followed_at, $4, now()) ELSE NULL END, follow_confirmed_at = CASE WHEN $3 THEN now() ELSE follow_confirmed_at END, follow_probed_at = now(), follow_probe_attempted_at = now(), follow_missed_at = CASE WHEN $5 THEN now() ELSE follow_missed_at END, follow_probe_misses = $6, is_subscriber = is_subscriber OR $7, sub_months_cumulative = GREATEST(sub_months_cumulative, $8), is_vip = is_vip OR $9, is_moderator = is_moderator OR $10, is_og = is_og OR $11, last_synced_at = now() WHERE kick_channel_id = $1 AND kick_user_id = $2");
        reveal_strlit(", ");
        reveal_strlit("is_subscriber = is_subscriber OR $7");
    }
    lemma_next_part(whole, parts, 7, 29, 358, 395);
    assert(whole.subrange(395, 456) =~= ", "@ + "sub_months_cumulative = GREATEST(sub_months_cumulative, $8)"@) by {
        reveal_strlit("UPDATE channel_relations SET is_follower = $3, followed_at = CASE WHEN $3 THEN COALESCE(followed_at, $4, now()) ELSE NULL END, follow_confirmed_at = CASE WHEN $3 THEN now() ELSE follow_confirmed_at END, follow_probed_at = now(), follow_probe_attempted_at = now(), follow_missed_at = CASE WHEN $5 THEN now() ELSE follow_missed_at END, follow_probe_misses = $6, is_subscriber = is_subscriber OR $7, sub_months_cumulative = GREATEST(sub_months_cumulative, $8), is_vip = is_vip OR $9, is_moderator = is_moderator OR $10, is_og = is_og OR $11, last_synced_at = now() WHERE kick_channel_id = $1 AND kick_user_id = $2");
        reveal_strlit(", ");
        reveal_strlit("sub_months_cumulative = GREATEST(sub_months_cumulative, $8)");
    }
    lemma_next_part(whole, parts, 8, 29, 395, 456);
    assert(whole.subrange(456, 479) =~= ", "@ + "is_vip = is_vip OR $9"@) by {
        reveal_strlit("UPDATE channel_relations SET is_follower = $3, followed_at = CASE WHEN $3 THEN COALESCE(followed_at, $4, now()) ELSE NULL END, follow_confirmed_at = CASE WHEN $3 THEN now() ELSE follow_confirmed_at END, follow_probed_at = now(), follow_probe_attempted_at = now(), follow_missed_at = CASE WHEN $5 THEN now() ELSE follow_missed_at END, follow_probe_misses = $6, is_subscriber = is_subscriber OR $7, sub_months_cumulative = GREATEST(sub_months_cumulative, $8), is_vip = is_vip OR $9, is_moderator = is_moderator OR $10, is_og = is_og OR $11, last_synced_at = now() WHERE kick_channel_id = $1 AND kick_user_id = $2");
        reveal_strlit(", ");
        reveal_strlit("is_vip = is_vip OR $9");
    }
    lemma_next_part(whole, parts, 9, 29, 456, 479);
    assert(whole.subrange(479, 515) =~= ", "@ + "is_moderator = is_moderator OR $10"@) by {
        reveal_strlit("UPDATE channel_relations SET is_follower = $3, followed_at = CASE WHEN $3 THEN COALESCE(followed_at, $4, now()) ELSE NULL END, follow_confirmed_at = CASE WHEN $3 THEN now() ELSE follow_confirmed_at END, follow_probed_at = now(), follow_probe_attempted_at = now(), follow_missed_at = CASE WHEN $5 THEN now() ELSE follow_missed_at END, follow_probe_misses = $6, is_subscriber = is_subscriber OR $7, sub_months_cumulative = GREATEST(sub_months_cumulative, $8), is_vip = is_vip OR $9, is_moderator = is_moderator OR $10, is_og = is_og OR $11, last_synced_at = now() WHERE kick_channel_id = $1 AND kick_user_id = $2");
        reveal_strlit(", ");
        reveal_strlit("is_moderator = is_moderator OR $10");
    }
    lemma_next_part(whole, parts, 10, 29, 479, 515);
    assert(whole.subrange(515, 537) =~= ", "@ + "is_og = is_og OR $11"@) by {
        reveal_strlit("UPDATE channel_relations SET is_follower = $3, followed_at = CASE WHEN $3 THEN COALESCE(followed_at, $4, now()) ELSE NULL END, follow_confirmed_at = CASE WHEN $3 THEN now() ELSE follow_confirmed_at END, follow_probed_at = now(), follow_probe_attempted_at = now(), follow_missed_at = CASE WHEN $5 THEN now() ELSE follow_missed_at END, follow_probe_misses = $6, is_subscriber = is_subscriber OR $7, sub_months_cumulative = GREATEST(sub_months_cumulative, $8), is_vip = is_vip OR $9, is_moderator = is_moderator OR $10, is_og = is_og OR $11, last_synced_at = now() WHERE kick_channel_id = $1 AND kick_user_id = $2");
        reveal_strlit(", ");
        reveal_strlit("is_og = is_og OR $11");
    }
    lemma_next_part(whole, parts, 11, 29, 515, 537);
    assert(whole.subrange(537, 561) =~= ", "@ + "last_synced_at = now()"@) by {
        reveal_strlit("UPDATE channel_relations SET is_follower = $3, followed_at = CASE WHEN $3 THEN COALESCE(followed_at, $4, now()) ELSE NULL END, follow_confirmed_at = CASE WHEN $3 THEN now() ELSE follow_confirmed_at END, follow_probed_at = now(), follow_probe_attempted_at = now(), follow_missed_at = CASE WHEN $5 THEN now() ELSE follow_missed_at END, follow_probe_misses = $6, is_subscriber = is_subscriber OR $7, sub_months_cumulative = GREATEST(sub_months_cumulative, $8), is_vip = is_vip OR $9, is_moderator = is_moderator OR $10, is_og = is_og OR $11, last_synced_at = now() WHERE kick_channel_id = $1 AND kick_user_id = $2");
        reveal_strlit(", ");
        reveal_strlit("last_synced_at = now()");
    }
    lemma_next_part(whole, parts, 12, 29, 537, 561);
    assert(parts.take(13) =~= parts);
    assert(whole.subrange(561, 610) =~= " WHERE "@ + "kick_channel_id = $1 AND kick_user_id = $2"@) by {
        reveal_strlit("UPDATE channel_relations SET is_follower = $3, followed_at = CASE WHEN $3 THEN COALESCE(followed_at, $4, now()) ELSE NULL END, follow_confirmed_at = CASE WHEN $3 THEN now() ELSE follow_confirmed_at END, follow_probed_at = now(), follow_probe_attempted_at = now(), follow_missed_at = CASE WHEN $5 THEN now() ELSE follow_missed_at END, follow_probe_misses = $6, is_subscriber = is_subscriber OR $7, sub_months_cumulative = GREATEST(sub_months_cumulative, $8), is_vip = is_vip OR $9, is_moderator = is_moderator OR $10, is_og = is_og OR $11, last_synced_at = now() WHERE kick_channel_id = $1 AND kick_user_id = $2");
        reveal_strlit(" WHERE ");
        reveal_strlit("kick_channel_id = $1 AND kick_user_id = $2");
    }
    assert(whole =~= whole.subrange(0, 29) + whole.subrange(29, 561) + whole.subrange(561, 610));
}

/// The structure of [`STAMP_ATTEMPT`].
spec fn stamp_attempt() -> Update {
    Update {
        table: "channel_relations"@,
        sets: seq![
            Assignment { column: Column::FollowProbeAttemptedAt, sign: " = "@, value: Expr::Now },
        ],
        key: "kick_channel_id = $1 AND kick_user_id = $2"@,
        only: None,
    }
}

#[verifier::spinoff_prover]
#[verifier::rlimit(80)]
proof fn lemma_text_of_stamp_attempt()
    ensures
        STAMP_ATTEMPT@ == update_text(stamp_attempt()),
{
    lemma_set_follow_probe_attempted_at();
    let whole = STAMP_ATTEMPT@;
    assert(whole.len() == 111) by {
        reveal_strlit("UPDATE channel_relations SET follow_probe_attempted_at = now() WHERE kick_channel_id = $1 AND kick_user_id = $2");
    }
    let parts = seq![
        "follow_probe_attempted_at = now()"@,
    ];
    let u = stamp_attempt();
    assert(u.sets.map_values(|a: Assignment| assignment_text(a)) =~= parts);
    assert(whole.subrange(0, 29) =~= "UPDATE "@ + "channel_relations"@ + " SET "@) by {
        reveal_strlit("UPDATE channel_relations SET follow_probe_attempted_at = now() WHERE kick_channel_id = $1 AND kick_user_id = $2");
        reveal_strlit("UPDATE ");
        reveal_strlit("channel_relations");
        reveal_strlit(" SET ");
    }
    assert(whole.subrange(29, 62) =~= "follow_probe_attempted_at = now()"@) by {
        reveal_strlit("UPDATE channel_relations SET follow_probe_attempted_at = now() WHERE kick_channel_id = $1 AND kick_user_id = $2");
        reveal_strlit("follow_probe_attempted_at = now()");
    }
    assert(parts.take(1) =~= seq!["follow_probe_attempted_at = now()"@]);
    assert(joined(parts.take(1), ", "@) == whole.subrange(29, 62));
    assert(parts.take(1) =~= parts);
    assert(whole.subrange(62, 111) =~= " WHERE "@ + "kick_channel_id = $1 AND kick_user_id = $2"@) by {
        reveal_strlit("UPDATE channel_relations SET follow_probe_attempted_at = now() WHERE kick_channel_id = $1 AND kick_user_id = $2");
        reveal_strlit(" WHERE ");
        reveal_strlit("kick_channel_id = $1 AND kick_user_id = $2");
    }
    assert(whole =~= whole.subrange(0, 29) + whole.subrange(29, 62) + whole.subrange(62, 111));
}

/// The structure of [`EXPIRE_SUBSCRIPTIONS`].
spec fn expire_subscriptions() -> Update {
    Update {
        table: "channel_relations"@,
        sets: seq![
            Assignment { column: Column::IsSubscriber, sign: "="@, value: Expr::False },
            Assignment { column: Column::SubStreakMonths, sign: "="@, value: Expr::Number(0) },
            Assignment { column: Column::LastSyncedAt, sign: "="@, value: Expr::Now },
        ],
        key: "kick_channel_id=$1"@,
        only: Some(both(both(own(Column::IsSubscriber), is_set(own(Column::SubExpiresAt))), less(own(Column::SubExpiresAt), Expr::DaysAgo(2)))),
    }
}

proof fn lemma_set_is_subscriber_3()
    ensures
        assignment_text(
            Assignment { column: Column::IsSubscriber, sign: "="@, value: Expr::False },
        ) == "is_subscriber=false"@,
{
    let e0 = Expr::False;
    assert(expr_text(e0) =~= "false"@) by {
        reveal_strlit("false");
    }
    assert(assignment_text(Assignment { column: Column::IsSubscriber, sign: "="@, value: e0 }) =~= "is_subscriber=false"@) by {
        reveal_strlit("is_subscriber");
        reveal_strlit("=");
        reveal_strlit("false");
        reveal_strlit("is_subscriber=false");
    }
}

proof fn lemma_set_sub_streak_months_3()
    ensures
        assignment_text(
            Assignment { column: Column::SubStreakMonths, sign: "="@, value: Expr::Number(0) },
        ) == "sub_streak_months=0"@,
{
    let e0 = Expr::Number(0);
    assert(expr_text(e0) =~= "0"@) by {
        reveal_strlit("0");
        reveal_with_fuel(decimal, 3);
    }
    assert(assignment_text(Assignment { column: Column::SubStreakMonths, sign: "="@, value: e0 }) =~= "sub_streak_months=0"@) by {
        reveal_strlit("sub_streak_months");
        reveal_strlit("=");
        reveal_strlit("0");
        reveal_strlit("sub_streak_months=0");
    }
}

#[verifier::spinoff_prover]
#[verifier::rlimit(80)]
proof fn lemma_expire_subscriptions_only()
    ensures
        expr_text(both(both(own(Column::IsSubscriber), is_set(own(Column::SubExpiresAt))), less(own(Column::SubExpiresAt), Expr::DaysAgo(2)))) == "is_subscriber AND sub_expires_at IS NOT NULL AND sub_expires_at < now() - interval '2 days'"@,
{
    let e0 = own(Column::IsSubscriber);
    assert(expr_text(e0) =~= "is_subscriber"@) by {
        reveal_strlit("is_subscriber");
    }
    let e1 = own(Column::SubExpiresAt);
    assert(expr_text(e1) =~= "sub_expires_at"@) by {
        reveal_strlit("sub_expires_at");
    }
    let e2 = Expr::IsSet(Box::new(e1));
    assert(expr_text(e2) =~= "sub_expires_at IS NOT NULL"@) by {
        reveal_strlit(" IS NOT NULL");
        reveal_strlit("sub_expires_at");
        reveal_strlit("sub_expires_at IS NOT NULL");
    }
    let e3 = Expr::And(Box::new(e0), Box::new(e2));
    assert(expr_text(e3) =~= "is_subscriber AND sub_expires_at IS NOT NULL"@) by {
        reveal_strlit(" AND ");
        reveal_strlit("is_subscriber");
        reveal_strlit("sub_expires_at IS NOT NULL");
        reveal_strlit("is_subscriber AND sub_expires_at IS NOT NULL");
    }
    let e4 = Expr::DaysAgo(2);
    assert(expr_text(e4) =~= "now() - interval '2 days'"@) by {
        reveal_strlit("now() - interval '");
        reveal_strlit(" days'");
        reveal_strlit("now() - interval '2 days'");
        reveal_with_fuel(decimal, 3);
    }
    let e5 = Expr::Less(Box::new(e1), Box::new(e4));
    assert(expr_text(e5) =~= "sub_expires_at < now() - interval '2 days'"@) by {
        reveal_strlit(" < ");
        reveal_strlit("sub_expires_at");
        reveal_strlit("now() - interval '2 days'");
        reveal_strlit("sub_expires_at < now() - interval '2 days'");
    }
    let e6 = Expr::And(Box::new(e3), Box::new(e5));
    assert(expr_text(e6) =~= "is_subscriber AND sub_expires_at IS NOT NULL AND sub_expires_at < now() - interval '2 days'"@) by {
        reveal_strlit(" AND ");
        reveal_strlit("is_subscriber AND sub_expires_at IS NOT NULL");
        reveal_strlit("sub_expires_at < now() - interval '2 days'");
        reveal_strlit("is_subscriber AND sub_expires_at IS NOT NULL AND sub_expires_at < now() - interval '2 days'");
    }
}

#[verifier::spinoff_prover]
#[verifier::rlimit(80)]
proof fn lemma_text_of_expire_subscriptions()
    ensures
        EXPIRE_SUBSCRIPTIONS@ == update_text(expire_subscriptions()),
{
    lemma_set_is_subscriber_3();
    lemma_set_sub_streak_months_3();
    lemma_set_last_synced_at();
    lemma_expire_subscriptions_only();
    let whole = EXPIRE_SUBSCRIPTIONS@;
    assert(whole.len() == 212) by {
        reveal_strlit("UPDATE channel_relations SET is_subscriber=false, sub_streak_months=0, last_synced_at=now() WHERE kick_channel_id=$1 AND is_subscriber AND sub_expires_at IS NOT NULL AND sub_expires_at < now() - interval '2 days'");
    }
    let parts = seq![
        "is_subscriber=false"@,
        "sub_streak_months=0"@,
        "last_synced_at=now()"@,
    ];
    let u = expire_subscriptions();
    assert(u.sets.map_values(|a: Assignment| assignment_text(a)) =~= parts);
    assert(whole.subrange(0, 29) =~= "UPDATE "@ + "channel_relations"@ + " SET "@) by {
        reveal_strlit("UPDATE channel_relations SET is_subscriber=false, sub_streak_months=0, last_synced_at=now() WHERE kick_channel_id=$1 AND is_subscriber AND sub_expires_at IS NOT NULL AND sub_expires_at < now() - interval '2 days'");
        reveal_strlit("UPDATE ");
        reveal_strlit("channel_relations");
        reveal_strlit(" SET ");
    }
    assert(whole.subrange(29, 48) =~= "is_subscriber=false"@) by {
        reveal_strlit("UPDATE channel_relations SET is_subscriber=false, sub_streak_months=0, last_synced_at=now() WHERE kick_channel_id=$1 AND is_subscriber AND sub_expires_at IS NOT NULL AND sub_expires_at < now() - interval '2 days'");
        reveal_strlit("is_subscriber=false");
    }
    assert(parts.take(1) =~= seq!["is_subscriber=false"@]);
    assert(joined(parts.take(1), ", "@) == whole.subrange(29, 48));
    assert(whole.subrange(48, 69) =~= ", "@ + "sub_streak_months=0"@) by {
        reveal_strlit("UPDATE channel_relations SET is_subscriber=false, sub_streak_months=0, last_synced_at=now() WHERE kick_channel_id=$1 AND is_subscriber AND sub_expires_at IS NOT NULL AND sub_expires_at < now() - interval '2 days'");
        reveal_strlit(", ");
        reveal_strlit("sub_streak_months=0");
    }
    lemma_next_part(whole, parts, 1, 29, 48, 69);
    assert(whole.subrange(69, 91) =~= ", "@ + "last_synced_at=now()"@) by {
        reveal_strlit("UPDATE channel_relations SET is_subscriber=false, sub_streak_months=0, last_synced_at=now() WHERE kick_channel_id=$1 AND is_subscriber AND sub_expires_at IS NOT NULL AND sub_expires_at < now() - interval '2 days'");
        reveal_strlit(", ");
        reveal_strlit("last_synced_at=now()");
    }
    lemma_next_part(whole, parts, 2, 29, 69, 91);
    assert(parts.take(3) =~= parts);
    assert(whole.subrange(91, 116) =~= " WHERE "@ + "kick_channel_id=$1"@) by {
        reveal_strlit("UPDATE channel_relations SET is_subscriber=false, sub_streak_months=0, last_synced_at=now() WHERE kick_channel_id=$1 AND is_subscriber AND sub_expires_at IS NOT NULL AND sub_expires_at < now() - interval '2 days'");
        reveal_strlit(" WHERE ");
        reveal_strlit("kick_channel_id=$1");
    }
    assert(whole.subrange(116, 212) =~= " AND "@ + "is_subscriber AND sub_expires_at IS NOT NULL AND sub_expires_at < now() - interval '2 days'"@) by {
        reveal_strlit("UPDATE channel_relations SET is_subscriber=false, sub_streak_months=0, last_synced_at=now() WHERE kick_channel_id=$1 AND is_subscriber AND sub_expires_at IS NOT NULL AND sub_expires_at < now() - interval '2 days'");
        reveal_strlit(" AND ");
        reveal_strlit("is_subscriber AND sub_expires_at IS NOT NULL AND sub_expires_at < now() - interval '2 days'");
    }
    assert(whole =~= whole.subrange(0, 29) + whole.subrange(29, 91) + whole.subrange(91, 116) + whole.subrange(116, 212));
}

/// The values of the parameters of a write's statement, in order.
pub open spec fn params_of(op: OpView) -> Seq<SqlValue> {
    let id = |n: i64| SqlValue::Number(n as int);
    match op {
        OpView::LiveStarted { channel, started_at } => seq![id(channel), time(started_at)],
        OpView::LiveEnded { channel } => seq![id(channel)],
        OpView::CategoryChanged { channel, category } => seq![id(channel), SqlValue::Text(category)],
        OpView::EnsureRelation { channel, user } => seq![id(channel), id(user)],
        OpView::Followed { channel, user } => seq![id(channel), id(user)],
        OpView::Subscribed { channel, user, created_at, expires_at, months } => seq![
            id(channel),
            id(user),
            time(created_at),
            time(expires_at),
            number(months),
        ],
        OpView::Renewed { channel, user, months, expires_at } => seq![
            id(channel),
            id(user),
            number(months),
            time(expires_at),
        ],
        OpView::GiftsGiven { channel, user, count } => seq![id(channel), id(user), id(count)],
        OpView::GiftReceived { channel, user, expires_at } => seq![id(channel), id(user), time(expires_at)],
        OpView::ChatSeen { channel, user } => seq![id(channel), id(user)],
        OpView::Badges { channel, user, is_moderator, is_vip, is_og } => seq![
            id(channel),
            id(user),
            flag(is_moderator),
            flag(is_vip),
            flag(is_og),
        ],
        OpView::SubscriberBadge { channel, user, months } => seq![id(channel), id(user), id(months)],
        OpView::GifterBadge { channel, user, gifted } => seq![id(channel), id(user), id(gifted)],
        OpView::KicksGifted { channel, user, amount } => seq![id(channel), id(user), id(amount)],
        _ => seq![],
    }
}

/// The structure of the statement of a write to a row.
spec fn structure_of(op: OpView) -> Update {
    match op {
        OpView::Followed { .. } => followed(),
        OpView::Subscribed { .. } => subscribed(),
        OpView::Renewed { .. } => renewed(),
        OpView::GiftsGiven { .. } => gifts_given(),
        OpView::GiftReceived { .. } => gift_received(),
        OpView::ChatSeen { .. } => chat_seen(),
        OpView::Badges { .. } => badges(),
        OpView::SubscriberBadge { .. } => subscriber_badge(),
        OpView::GifterBadge { .. } => gifter_badge(),
        _ => kicks_gifted(),
    }
}

#[verifier::spinoff_prover]
proof fn lemma_followed_brings(op: OpView, row: Relation, now: Timestamp)
    requires
        op is Followed,
    ensures
        brings(followed(), (Scene { cell: cells(row), params: params_of(op), now }), cells(effect(op, row, now))),
{
    let u = followed();
    let s = Scene { cell: cells(row), params: params_of(op), now };
    let e0 = Expr::True;
    let v0 = expr_value(e0, s);
    let e1 = own(Column::FollowedAt);
    let v1 = expr_value(e1, s);
    let e2 = Expr::Now;
    let v2 = expr_value(e2, s);
    let e3 = Expr::Coalesce(Box::new(e1), Box::new(e2));
    let v3 = expr_value(e3, s);
    assert forall|column: Column| #[trigger] updated_cell(u, column, s) == (cells(effect(op, row, now)))(Table::Own, column) by {
        assert(u.sets.take(3).drop_last() =~= u.sets.take(2));
        assert(u.sets.take(3).last() == u.sets[2]);
        let c3 = set_to(u.sets.take(3), column, s);
        assert(u.sets.take(2).drop_last() =~= u.sets.take(1));
        assert(u.sets.take(2).last() == u.sets[1]);
        let c2 = set_to(u.sets.take(2), column, s);
        assert(u.sets.take(1).drop_last() =~= u.sets.take(0));
        assert(u.sets.take(1).last() == u.sets[0]);
        let c1 = set_to(u.sets.take(1), column, s);
        let c0 = set_to(u.sets.take(0), column, s);
        assert(u.sets.take(3) =~= u.sets);
    }
}

#[verifier::spinoff_prover]
proof fn lemma_subscribed_brings(op: OpView, row: Relation, now: Timestamp)
    requires
        op is Subscribed,
    ensures
        brings(subscribed(), (Scene { cell: cells(row), params: params_of(op), now }), cells(effect(op, row, now))),
{
    let u = subscribed();
    let s = Scene { cell: cells(row), params: params_of(op), now };
    let e0 = Expr::True;
    let v0 = expr_value(e0, s);
    let e1 = own(Column::SubscribedAt);
    let v1 = expr_value(e1, s);
    let e2 = Expr::Param(3);
    let v2 = expr_value(e2, s);
    let e3 = Expr::Now;
    let v3 = expr_value(e3, s);
    let e4 = Expr::Coalesce(Box::new(e2), Box::new(e3));
    let v4 = expr_value(e4, s);
    let e5 = Expr::Coalesce(Box::new(e1), Box::new(e4));
    let v5 = expr_value(e5, s);
    let e6 = Expr::Param(4);
    let v6 = expr_value(e6, s);
    let e7 = own(Column::SubExpiresAt);
    let v7 = expr_value(e7, s);
    let e8 = Expr::Coalesce(Box::new(e6), Box::new(e7));
    let v8 = expr_value(e8, s);
    let e9 = own(Column::SubMonthsCumulative);
    let v9 = expr_value(e9, s);
    let e10 = Expr::Param(5);
    let v10 = expr_value(e10, s);
    let e11 = Expr::Number(1);
    let v11 = expr_value(e11, s);
    let e12 = Expr::Coalesce(Box::new(e10), Box::new(e11));
    let v12 = expr_value(e12, s);
    let e13 = Expr::Greatest(Box::new(e9), Box::new(e12));
    let v13 = expr_value(e13, s);
    let e14 = own(Column::SubStreakMonths);
    let v14 = expr_value(e14, s);
    let e15 = Expr::Greatest(Box::new(e14), Box::new(e11));
    let v15 = expr_value(e15, s);
    assert forall|column: Column| #[trigger] updated_cell(u, column, s) == (cells(effect(op, row, now)))(Table::Own, column) by {
        assert(u.sets.take(6).drop_last() =~= u.sets.take(5));
        assert(u.sets.take(6).last() == u.sets[5]);
        let c6 = set_to(u.sets.take(6), column, s);
        assert(u.sets.take(5).drop_last() =~= u.sets.take(4));
        assert(u.sets.take(5).last() == u.sets[4]);
        let c5 = set_to(u.sets.take(5), column, s);
        assert(u.sets.take(4).drop_last() =~= u.sets.take(3));
        assert(u.sets.take(4).last() == u.sets[3]);
        let c4 = set_to(u.sets.take(4), column, s);
        assert(u.sets.take(3).drop_last() =~= u.sets.take(2));
        assert(u.sets.take(3).last() == u.sets[2]);
        let c3 = set_to(u.sets.take(3), column, s);
        assert(u.sets.take(2).drop_last() =~= u.sets.take(1));
        assert(u.sets.take(2).last() == u.sets[1]);
        let c2 = set_to(u.sets.take(2), column, s);
        assert(u.sets.take(1).drop_last() =~= u.sets.take(0));
        assert(u.sets.take(1).last() == u.sets[0]);
        let c1 = set_to(u.sets.take(1), column, s);
        let c0 = set_to(u.sets.take(0), column, s);
        assert(u.sets.take(6) =~= u.sets);
    }
}

#[verifier::spinoff_prover]
proof fn lemma_renewed_brings(op: OpView, row: Relation, now: Timestamp)
    requires
        op is Renewed,
    ensures
        brings(renewed(), (Scene { cell: cells(row), params: params_of(op), now }), cells(effect(op, row, now))),
{
    let u = renewed();
    let s = Scene { cell: cells(row), params: params_of(op), now };
    let e0 = Expr::True;
    let v0 = expr_value(e0, s);
    let e1 = Expr::Param(4);
    let v1 = expr_value(e1, s);
    let e2 = own(Column::SubExpiresAt);
    let v2 = expr_value(e2, s);
    let e3 = Expr::Coalesce(Box::new(e1), Box::new(e2));
    let v3 = expr_value(e3, s);
    let e4 = own(Column::SubMonthsCumulative);
    let v4 = expr_value(e4, s);
    let e5 = Expr::Number(1);
    let v5 = expr_value(e5, s);
    let e6 = Expr::Plus(Box::new(e4), Box::new(e5));
    let v6 = expr_value(e6, s);
    let e7 = Expr::Param(3);
    let v7 = expr_value(e7, s);
    let e8 = Expr::Number(0);
    let v8 = expr_value(e8, s);
    let e9 = Expr::Coalesce(Box::new(e7), Box::new(e8));
    let v9 = expr_value(e9, s);
    let e10 = Expr::Greatest(Box::new(e6), Box::new(e9));
    let v10 = expr_value(e10, s);
    let e11 = own(Column::SubStreakMonths);
    let v11 = expr_value(e11, s);
    let e12 = Expr::Plus(Box::new(e11), Box::new(e5));
    let v12 = expr_value(e12, s);
    let e13 = Expr::Now;
    let v13 = expr_value(e13, s);
    assert forall|column: Column| #[trigger] updated_cell(u, column, s) == (cells(effect(op, row, now)))(Table::Own, column) by {
        assert(u.sets.take(5).drop_last() =~= u.sets.take(4));
        assert(u.sets.take(5).last() == u.sets[4]);
        let c5 = set_to(u.sets.take(5), column, s);
        assert(u.sets.take(4).drop_last() =~= u.sets.take(3));
        assert(u.sets.take(4).last() == u.sets[3]);
        let c4 = set_to(u.sets.take(4), column, s);
        assert(u.sets.take(3).drop_last() =~= u.sets.take(2));
        assert(u.sets.take(3).last() == u.sets[2]);
        let c3 = set_to(u.sets.take(3), column, s);
        assert(u.sets.take(2).drop_last() =~= u.sets.take(1));
        assert(u.sets.take(2).last() == u.sets[1]);
        let c2 = set_to(u.sets.take(2), column, s);
        assert(u.sets.take(1).drop_last() =~= u.sets.take(0));
        assert(u.sets.take(1).last() == u.sets[0]);
        let c1 = set_to(u.sets.take(1), column, s);
        let c0 = set_to(u.sets.take(0), column, s);
        assert(u.sets.take(5) =~= u.sets);
    }
}

#[verifier::spinoff_prover]
proof fn lemma_gifts_given_brings(op: OpView, row: Relation, now: Timestamp)
    requires
        op is GiftsGiven,
    ensures
        brings(gifts_given(), (Scene { cell: cells(row), params: params_of(op), now }), cells(effect(op, row, now))),
{
    let u = gifts_given();
    let s = Scene { cell: cells(row), params: params_of(op), now };
    let e0 = own(Column::GiftedSubsGiven);
    let v0 = expr_value(e0, s);
    let e1 = Expr::Param(3);
    let v1 = expr_value(e1, s);
    let e2 = Expr::Plus(Box::new(e0), Box::new(e1));
    let v2 = expr_value(e2, s);
    let e3 = Expr::Now;
    let v3 = expr_value(e3, s);
    assert forall|column: Column| #[trigger] updated_cell(u, column, s) == (cells(effect(op, row, now)))(Table::Own, column) by {
        assert(u.sets.take(2).drop_last() =~= u.sets.take(1));
        assert(u.sets.take(2).last() == u.sets[1]);
        let c2 = set_to(u.sets.take(2), column, s);
        assert(u.sets.take(1).drop_last() =~= u.sets.take(0));
        assert(u.sets.take(1).last() == u.sets[0]);
        let c1 = set_to(u.sets.take(1), column, s);
        let c0 = set_to(u.sets.take(0), column, s);
        assert(u.sets.take(2) =~= u.sets);
    }
}

#[verifier::spinoff_prover]
proof fn lemma_gift_received_brings(op: OpView, row: Relation, now: Timestamp)
    requires
        op is GiftReceived,
    ensures
        brings(gift_received(), (Scene { cell: cells(row), params: params_of(op), now }), cells(effect(op, row, now))),
{
    let u = gift_received();
    let s = Scene { cell: cells(row), params: params_of(op), now };
    let e0 = Expr::True;
    let v0 = expr_value(e0, s);
    let e1 = own(Column::SubscribedAt);
    let v1 = expr_value(e1, s);
    let e2 = Expr::Now;
    let v2 = expr_value(e2, s);
    let e3 = Expr::Coalesce(Box::new(e1), Box::new(e2));
    let v3 = expr_value(e3, s);
    let e4 = Expr::Param(3);
    let v4 = expr_value(e4, s);
    let e5 = own(Column::SubExpiresAt);
    let v5 = expr_value(e5, s);
    let e6 = Expr::Coalesce(Box::new(e4), Box::new(e5));
    let v6 = expr_value(e6, s);
    let e7 = own(Column::SubMonthsCumulative);
    let v7 = expr_value(e7, s);
    let e8 = Expr::Number(1);
    let v8 = expr_value(e8, s);
    let e9 = Expr::Greatest(Box::new(e7), Box::new(e8));
    let v9 = expr_value(e9, s);
    let e10 = own(Column::SubStreakMonths);
    let v10 = expr_value(e10, s);
    let e11 = Expr::Greatest(Box::new(e10), Box::new(e8));
    let v11 = expr_value(e11, s);
    assert forall|column: Column| #[trigger] updated_cell(u, column, s) == (cells(effect(op, row, now)))(Table::Own, column) by {
        assert(u.sets.take(7).drop_last() =~= u.sets.take(6));
        assert(u.sets.take(7).last() == u.sets[6]);
        let c7 = set_to(u.sets.take(7), column, s);
        assert(u.sets.take(6).drop_last() =~= u.sets.take(5));
        assert(u.sets.take(6).last() == u.sets[5]);
        let c6 = set_to(u.sets.take(6), column, s);
        assert(u.sets.take(5).drop_last() =~= u.sets.take(4));
        assert(u.sets.take(5).last() == u.sets[4]);
        let c5 = set_to(u.sets.take(5), column, s);
        assert(u.sets.take(4).drop_last() =~= u.sets.take(3));
        assert(u.sets.take(4).last() == u.sets[3]);
        let c4 = set_to(u.sets.take(4), column, s);
        assert(u.sets.take(3).drop_last() =~= u.sets.take(2));
        assert(u.sets.take(3).last() == u.sets[2]);
        let c3 = set_to(u.sets.take(3), column, s);
        assert(u.sets.take(2).drop_last() =~= u.sets.take(1));
        assert(u.sets.take(2).last() == u.sets[1]);
        let c2 = set_to(u.sets.take(2), column, s);
        assert(u.sets.take(1).drop_last() =~= u.sets.take(0));
        assert(u.sets.take(1).last() == u.sets[0]);
        let c1 = set_to(u.sets.take(1), column, s);
        let c0 = set_to(u.sets.take(0), column, s);
        assert(u.sets.take(7) =~= u.sets);
    }
}

#[verifier::spinoff_prover]
proof fn lemma_chat_seen_brings(op: OpView, row: Relation, now: Timestamp)
    requires
        op is ChatSeen,
    ensures
        brings(chat_seen(), (Scene { cell: cells(row), params: params_of(op), now }), cells(effect(op, row, now))),
{
    let u = chat_seen();
    let s = Scene { cell: cells(row), params: params_of(op), now };
    let e0 = own(Column::ChatMessages30d);
    let v0 = expr_value(e0, s);
    let e1 = Expr::Number(1);
    let v1 = expr_value(e1, s);
    let e2 = Expr::Plus(Box::new(e0), Box::new(e1));
    let v2 = expr_value(e2, s);
    let e3 = Expr::Now;
    let v3 = expr_value(e3, s);
    assert forall|column: Column| #[trigger] updated_cell(u, column, s) == (cells(effect(op, row, now)))(Table::Own, column) by {
        assert(u.sets.take(2).drop_last() =~= u.sets.take(1));
        assert(u.sets.take(2).last() == u.sets[1]);
        let c2 = set_to(u.sets.take(2), column, s);
        assert(u.sets.take(1).drop_last() =~= u.sets.take(0));
        assert(u.sets.take(1).last() == u.sets[0]);
        let c1 = set_to(u.sets.take(1), column, s);
        let c0 = set_to(u.sets.take(0), column, s);
        assert(u.sets.take(2) =~= u.sets);
    }
}

#[verifier::spinoff_prover]
proof fn lemma_badges_brings(op: OpView, row: Relation, now: Timestamp)
    requires
        op is Badges,
    ensures
        brings(badges(), (Scene { cell: cells(row), params: params_of(op), now }), cells(effect(op, row, now))),
        runs(badges(), (Scene { cell: cells(row), params: params_of(op), now })) == changes(op, row),
{
    let u = badges();
    let s = Scene { cell: cells(row), params: params_of(op), now };
    let e0 = Expr::Param(3);
    let v0 = expr_value(e0, s);
    let e1 = Expr::Param(4);
    let v1 = expr_value(e1, s);
    let e2 = Expr::Param(5);
    let v2 = expr_value(e2, s);
    let e3 = Expr::Now;
    let v3 = expr_value(e3, s);
    let e4 = own(Column::IsModerator);
    let v4 = expr_value(e4, s);
    let e5 = Expr::Distinct(Box::new(e4), Box::new(e0));
    let v5 = expr_value(e5, s);
    let e6 = own(Column::IsVip);
    let v6 = expr_value(e6, s);
    let e7 = Expr::Distinct(Box::new(e6), Box::new(e1));
    let v7 = expr_value(e7, s);
    let e8 = Expr::Or(Box::new(e5), Box::new(e7));
    let v8 = expr_value(e8, s);
    let e9 = own(Column::IsOg);
    let v9 = expr_value(e9, s);
    let e10 = Expr::Distinct(Box::new(e9), Box::new(e2));
    let v10 = expr_value(e10, s);
    let e11 = Expr::Or(Box::new(e8), Box::new(e10));
    let v11 = expr_value(e11, s);
    let e12 = Expr::Paren(Box::new(e11));
    let v12 = expr_value(e12, s);
    assert forall|column: Column| #[trigger] updated_cell(u, column, s) == (cells(effect(op, row, now)))(Table::Own, column) by {
        assert(u.sets.take(4).drop_last() =~= u.sets.take(3));
        assert(u.sets.take(4).last() == u.sets[3]);
        let c4 = set_to(u.sets.take(4), column, s);
        assert(u.sets.take(3).drop_last() =~= u.sets.take(2));
        assert(u.sets.take(3).last() == u.sets[2]);
        let c3 = set_to(u.sets.take(3), column, s);
        assert(u.sets.take(2).drop_last() =~= u.sets.take(1));
        assert(u.sets.take(2).last() == u.sets[1]);
        let c2 = set_to(u.sets.take(2), column, s);
        assert(u.sets.take(1).drop_last() =~= u.sets.take(0));
        assert(u.sets.take(1).last() == u.sets[0]);
        let c1 = set_to(u.sets.take(1), column, s);
        let c0 = set_to(u.sets.take(0), column, s);
        assert(u.sets.take(4) =~= u.sets);
    }
}

#[verifier::spinoff_prover]
proof fn lemma_subscriber_badge_brings(op: OpView, row: Relation, now: Timestamp)
    requires
        op is SubscriberBadge,
    ensures
        brings(subscriber_badge(), (Scene { cell: cells(row), params: params_of(op), now }), cells(effect(op, row, now))),
        runs(subscriber_badge(), (Scene { cell: cells(row), params: params_of(op), now })) == changes(op, row),
{
    let u = subscriber_badge();
    let s = Scene { cell: cells(row), params: params_of(op), now };
    let e0 = Expr::True;
    let v0 = expr_value(e0, s);
    let e1 = own(Column::SubscribedAt);
    let v1 = expr_value(e1, s);
    let e2 = Expr::Now;
    let v2 = expr_value(e2, s);
    let e3 = Expr::Coalesce(Box::new(e1), Box::new(e2));
    let v3 = expr_value(e3, s);
    let e4 = own(Column::SubMonthsCumulative);
    let v4 = expr_value(e4, s);
    let e5 = Expr::Param(3);
    let v5 = expr_value(e5, s);
    let e6 = Expr::Greatest(Box::new(e4), Box::new(e5));
    let v6 = expr_value(e6, s);
    let e7 = own(Column::SubStreakMonths);
    let v7 = expr_value(e7, s);
    let e8 = Expr::Number(1);
    let v8 = expr_value(e8, s);
    let e9 = Expr::Greatest(Box::new(e7), Box::new(e8));
    let v9 = expr_value(e9, s);
    let e10 = own(Column::IsSubscriber);
    let v10 = expr_value(e10, s);
    let e11 = Expr::False;
    let v11 = expr_value(e11, s);
    let e12 = Expr::Equal(Box::new(e10), Box::new(e11));
    let v12 = expr_value(e12, s);
    let e13 = Expr::Less(Box::new(e4), Box::new(e5));
    let v13 = expr_value(e13, s);
    let e14 = Expr::Or(Box::new(e12), Box::new(e13));
    let v14 = expr_value(e14, s);
    let e15 = Expr::Paren(Box::new(e14));
    let v15 = expr_value(e15, s);
    assert forall|column: Column| #[trigger] updated_cell(u, column, s) == (cells(effect(op, row, now)))(Table::Own, column) by {
        assert(u.sets.take(5).drop_last() =~= u.sets.take(4));
        assert(u.sets.take(5).last() == u.sets[4]);
        let c5 = set_to(u.sets.take(5), column, s);
        assert(u.sets.take(4).drop_last() =~= u.sets.take(3));
        assert(u.sets.take(4).last() == u.sets[3]);
        let c4 = set_to(u.sets.take(4), column, s);
        assert(u.sets.take(3).drop_last() =~= u.sets.take(2));
        assert(u.sets.take(3).last() == u.sets[2]);
        let c3 = set_to(u.sets.take(3), column, s);
        assert(u.sets.take(2).drop_last() =~= u.sets.take(1));
        assert(u.sets.take(2).last() == u.sets[1]);
        let c2 = set_to(u.sets.take(2), column, s);
        assert(u.sets.take(1).drop_last() =~= u.sets.take(0));
        assert(u.sets.take(1).last() == u.sets[0]);
        let c1 = set_to(u.sets.take(1), column, s);
        let c0 = set_to(u.sets.take(0), column, s);
        assert(u.sets.take(5) =~= u.sets);
    }
}

#[verifier::spinoff_prover]
proof fn lemma_gifter_badge_brings(op: OpView, row: Relation, now: Timestamp)
    requires
        op is GifterBadge,
    ensures
        brings(gifter_badge(), (Scene { cell: cells(row), params: params_of(op), now }), cells(effect(op, row, now))),
        runs(gifter_badge(), (Scene { cell: cells(row), params: params_of(op), now })) == changes(op, row),
{
    let u = gifter_badge();
    let s = Scene { cell: cells(row), params: params_of(op), now };
    let e0 = Expr::Param(3);
    let v0 = expr_value(e0, s);
    let e1 = Expr::Now;
    let v1 = expr_value(e1, s);
    let e2 = own(Column::GiftedSubsGiven);
    let v2 = expr_value(e2, s);
    let e3 = Expr::Less(Box::new(e2), Box::new(e0));
    let v3 = expr_value(e3, s);
    assert forall|column: Column| #[trigger] updated_cell(u, column, s) == (cells(effect(op, row, now)))(Table::Own, column) by {
        assert(u.sets.take(2).drop_last() =~= u.sets.take(1));
        assert(u.sets.take(2).last() == u.sets[1]);
        let c2 = set_to(u.sets.take(2), column, s);
        assert(u.sets.take(1).drop_last() =~= u.sets.take(0));
        assert(u.sets.take(1).last() == u.sets[0]);
        let c1 = set_to(u.sets.take(1), column, s);
        let c0 = set_to(u.sets.take(0), column, s);
        assert(u.sets.take(2) =~= u.sets);
    }
}

#[verifier::spinoff_prover]
proof fn lemma_kicks_gifted_brings(op: OpView, row: Relation, now: Timestamp)
    requires
        op is KicksGifted,
    ensures
        brings(kicks_gifted(), (Scene { cell: cells(row), params: params_of(op), now }), cells(effect(op, row, now))),
{
    let u = kicks_gifted();
    let s = Scene { cell: cells(row), params: params_of(op), now };
    let e0 = own(Column::KicksDonated);
    let v0 = expr_value(e0, s);
    let e1 = Expr::Param(3);
    let v1 = expr_value(e1, s);
    let e2 = Expr::Plus(Box::new(e0), Box::new(e1));
    let v2 = expr_value(e2, s);
    let e3 = Expr::Now;
    let v3 = expr_value(e3, s);
    assert forall|column: Column| #[trigger] updated_cell(u, column, s) == (cells(effect(op, row, now)))(Table::Own, column) by {
        assert(u.sets.take(2).drop_last() =~= u.sets.take(1));
        assert(u.sets.take(2).last() == u.sets[1]);
        let c2 = set_to(u.sets.take(2), column, s);
        assert(u.sets.take(1).drop_last() =~= u.sets.take(0));
        assert(u.sets.take(1).last() == u.sets[0]);
        let c1 = set_to(u.sets.take(1), column, s);
        let c0 = set_to(u.sets.take(0), column, s);
        assert(u.sets.take(2) =~= u.sets);
    }
}

/// The statement of a write to a viewer's row does what is stated of the write, column by column:
/// its text is that of an update of the row of this channel and this viewer, and what that sets, and
/// to what, is what the row is after the write. Where it has a condition, it changes the row in the
/// cases in which the write is said to tell something new.
pub proof fn law_statements_do_what_is_stated(op: OpView, row: Relation, now: Timestamp)
    requires
        row_user(op) is Some,
    ensures
        exists|u: Update|
            {
                &&& statement_of(op) == Some(#[trigger] update_text(u))
                &&& u.table == "channel_relations"@
                &&& u.key == "kick_channel_id=$1 AND kick_user_id=$2"@
                &&& brings(u, (Scene { cell: cells(row), params: params_of(op), now }), cells(effect(op, row, now)))
                &&& u.only is Some ==> runs(u, (Scene { cell: cells(row), params: params_of(op), now })) == changes(
                    op,
                    row,
                )
            },
{
    match op {
        OpView::Followed { .. } => {
            lemma_text_of_followed();
            lemma_followed_brings(op, row, now);
        },
        OpView::Subscribed { .. } => {
            lemma_text_of_subscribed();
            lemma_subscribed_brings(op, row, now);
        },
        OpView::Renewed { .. } => {
            lemma_text_of_renewed();
            lemma_renewed_brings(op, row, now);
        },
        OpView::GiftsGiven { .. } => {
            lemma_text_of_gifts_given();
            lemma_gifts_given_brings(op, row, now);
        },
        OpView::GiftReceived { .. } => {
            lemma_text_of_gift_received();
            lemma_gift_received_brings(op, row, now);
        },
        OpView::ChatSeen { .. } => {
            lemma_text_of_chat_seen();
            lemma_chat_seen_brings(op, row, now);
        },
        OpView::Badges { .. } => {
            lemma_text_of_badges();
            lemma_badges_brings(op, row, now);
        },
        OpView::SubscriberBadge { .. } => {
            lemma_text_of_subscriber_badge();
            lemma_subscriber_badge_brings(op, row, now);
        },
        OpView::GifterBadge { .. } => {
            lemma_text_of_gifter_badge();
            lemma_gifter_badge_brings(op, row, now);
        },
        OpView::KicksGifted { .. } => {
            lemma_text_of_kicks_gifted();
            lemma_kicks_gifted_brings(op, row, now);
        },
        _ => {},
    }
    assert(statement_of(op) == Some(update_text(structure_of(op))));
}

#[verifier::spinoff_prover]
proof fn lemma_update_relation_brings(f: FollowUpdate, row: Relation, now: Timestamp)
    ensures
        brings(update_relation(), (Scene { cell: cells(row), params: update_params(f), now }), cells(row.updated(f, now))),
{
    let u = update_relation();
    let s = Scene { cell: cells(row), params: update_params(f), now };
    let e0 = Expr::Param(3);
    let v0 = expr_value(e0, s);
    let e1 = own(Column::FollowedAt);
    let v1 = expr_value(e1, s);
    let e2 = Expr::Param(4);
    let v2 = expr_value(e2, s);
    let e3 = Expr::Now;
    let v3 = expr_value(e3, s);
    let e4 = Expr::Coalesce3(Box::new(e1), Box::new(e2), Box::new(e3));
    let v4 = expr_value(e4, s);
    let e5 = Expr::Null;
    let v5 = expr_value(e5, s);
    let e6 = Expr::Case(Box::new(e0), Box::new(e4), Box::new(e5));
    let v6 = expr_value(e6, s);
    let e7 = own(Column::FollowConfirmedAt);
    let v7 = expr_value(e7, s);
    let e8 = Expr::Case(Box::new(e0), Box::new(e3), Box::new(e7));
    let v8 = expr_value(e8, s);
    let e9 = Expr::Param(5);
    let v9 = expr_value(e9, s);
    let e10 = own(Column::FollowMissedAt);
    let v10 = expr_value(e10, s);
    let e11 = Expr::Case(Box::new(e9), Box::new(e3), Box::new(e10));
    let v11 = expr_value(e11, s);
    let e12 = Expr::Param(6);
    let v12 = expr_value(e12, s);
    let e13 = own(Column::IsSubscriber);
    let v13 = expr_value(e13, s);
    let e14 = Expr::Param(7);
    let v14 = expr_value(e14, s);
    let e15 = Expr::Or(Box::new(e13), Box::new(e14));
    let v15 = expr_value(e15, s);
    let e16 = own(Column::SubMonthsCumulative);
    let v16 = expr_value(e16, s);
    let e17 = Expr::Param(8);
    let v17 = expr_value(e17, s);
    let e18 = Expr::Greatest(Box::new(e16), Box::new(e17));
    let v18 = expr_value(e18, s);
    let e19 = own(Column::IsVip);
    let v19 = expr_value(e19, s);
    let e20 = Expr::Param(9);
    let v20 = expr_value(e20, s);
    let e21 = Expr::Or(Box::new(e19), Box::new(e20));
    let v21 = expr_value(e21, s);
    let e22 = own(Column::IsModerator);
    let v22 = expr_value(e22, s);
    let e23 = Expr::Param(10);
    let v23 = expr_value(e23, s);
    let e24 = Expr::Or(Box::new(e22), Box::new(e23));
    let v24 = expr_value(e24, s);
    let e25 = own(Column::IsOg);
    let v25 = expr_value(e25, s);
    let e26 = Expr::Param(11);
    let v26 = expr_value(e26, s);
    let e27 = Expr::Or(Box::new(e25), Box::new(e26));
    let v27 = expr_value(e27, s);
    assert forall|column: Column| #[trigger] updated_cell(u, column, s) == (cells(row.updated(f, now)))(Table::Own, column) by {
        assert(u.sets.take(13).drop_last() =~= u.sets.take(12));
        assert(u.sets.take(13).last() == u.sets[12]);
        let c13 = set_to(u.sets.take(13), column, s);
        assert(u.sets.take(12).drop_last() =~= u.sets.take(11));
        assert(u.sets.take(12).last() == u.sets[11]);
        let c12 = set_to(u.sets.take(12), column, s);
        assert(u.sets.take(11).drop_last() =~= u.sets.take(10));
        assert(u.sets.take(11).last() == u.sets[10]);
        let c11 = set_to(u.sets.take(11), column, s);
        assert(u.sets.take(10).drop_last() =~= u.sets.take(9));
        assert(u.sets.take(10).last() == u.sets[9]);
        let c10 = set_to(u.sets.take(10), column, s);
        assert(u.sets.take(9).drop_last() =~= u.sets.take(8));
        assert(u.sets.take(9).last() == u.sets[8]);
        let c9 = set_to(u.sets.take(9), column, s);
        assert(u.sets.take(8).drop_last() =~= u.sets.take(7));
        assert(u.sets.take(8).last() == u.sets[7]);
        let c8 = set_to(u.sets.take(8), column, s);
        assert(u.sets.take(7).drop_last() =~= u.sets.take(6));
        assert(u.sets.take(7).last() == u.sets[6]);
        let c7 = set_to(u.sets.take(7), column, s);
        assert(u.sets.take(6).drop_last() =~= u.sets.take(5));
        assert(u.sets.take(6).last() == u.sets[5]);
        let c6 = set_to(u.sets.take(6), column, s);
        assert(u.sets.take(5).drop_last() =~= u.sets.take(4));
        assert(u.sets.take(5).last() == u.sets[4]);
        let c5 = set_to(u.sets.take(5), column, s);
        assert(u.sets.take(4).drop_last() =~= u.sets.take(3));
        assert(u.sets.take(4).last() == u.sets[3]);
        let c4 = set_to(u.sets.take(4), column, s);
        assert(u.sets.take(3).drop_last() =~= u.sets.take(2));
        assert(u.sets.take(3).last() == u.sets[2]);
        let c3 = set_to(u.sets.take(3), column, s);
        assert(u.sets.take(2).drop_last() =~= u.sets.take(1));
        assert(u.sets.take(2).last() == u.sets[1]);
        let c2 = set_to(u.sets.take(2), column, s);
        assert(u.sets.take(1).drop_last() =~= u.sets.take(0));
        assert(u.sets.take(1).last() == u.sets[0]);
        let c1 = set_to(u.sets.take(1), column, s);
        let c0 = set_to(u.sets.take(0), column, s);
        assert(u.sets.take(13) =~= u.sets);
    }
}

#[verifier::spinoff_prover]
proof fn lemma_stamp_attempt_brings(row: Relation, now: Timestamp)
    ensures
        brings(stamp_attempt(), (Scene { cell: cells(row), params: seq![], now }), cells(row.attempted(now))),
{
    let u = stamp_attempt();
    let s = Scene { cell: cells(row), params: seq![], now };
    let e0 = Expr::Now;
    let v0 = expr_value(e0, s);
    assert forall|column: Column| #[trigger] updated_cell(u, column, s) == (cells(row.attempted(now)))(Table::Own, column) by {
        assert(u.sets.take(1).drop_last() =~= u.sets.take(0));
        assert(u.sets.take(1).last() == u.sets[0]);
        let c1 = set_to(u.sets.take(1), column, s);
        let c0 = set_to(u.sets.take(0), column, s);
        assert(u.sets.take(1) =~= u.sets);
    }
}

#[verifier::spinoff_prover]
proof fn lemma_expire_subscriptions_brings(row: Relation, now: Timestamp)
    requires
        now.valid(),
    ensures
        brings(expire_subscriptions(), (Scene { cell: cells(row), params: seq![], now }), cells(expired(row, now))),
{
    let u = expire_subscriptions();
    let s = Scene { cell: cells(row), params: seq![], now };
    let e0 = Expr::False;
    let v0 = expr_value(e0, s);
    let e1 = Expr::Number(0);
    let v1 = expr_value(e1, s);
    let e2 = Expr::Now;
    let v2 = expr_value(e2, s);
    let e3 = own(Column::IsSubscriber);
    let v3 = expr_value(e3, s);
    let e4 = own(Column::SubExpiresAt);
    let v4 = expr_value(e4, s);
    let e5 = Expr::IsSet(Box::new(e4));
    let v5 = expr_value(e5, s);
    let e6 = Expr::And(Box::new(e3), Box::new(e5));
    let v6 = expr_value(e6, s);
    let e7 = Expr::DaysAgo(2);
    let v7 = expr_value(e7, s);
    let e8 = Expr::Less(Box::new(e4), Box::new(e7));
    let v8 = expr_value(e8, s);
    let e9 = Expr::And(Box::new(e6), Box::new(e8));
    let v9 = expr_value(e9, s);
    assert forall|column: Column| #[trigger] updated_cell(u, column, s) == (cells(expired(row, now)))(Table::Own, column) by {
        assert(u.sets.take(3).drop_last() =~= u.sets.take(2));
        assert(u.sets.take(3).last() == u.sets[2]);
        let c3 = set_to(u.sets.take(3), column, s);
        assert(u.sets.take(2).drop_last() =~= u.sets.take(1));
        assert(u.sets.take(2).last() == u.sets[1]);
        let c2 = set_to(u.sets.take(2), column, s);
        assert(u.sets.take(1).drop_last() =~= u.sets.take(0));
        assert(u.sets.take(1).last() == u.sets[0]);
        let c1 = set_to(u.sets.take(1), column, s);
        let c0 = set_to(u.sets.take(0), column, s);
        assert(u.sets.take(3) =~= u.sets);
    }
}

/// The values of the parameters of [`UPDATE_RELATION`]: the fields of the update, in order.
pub open spec fn update_params(f: FollowUpdate) -> Seq<SqlValue> {
    seq![
        SqlValue::Number(f.kick_channel_id as int),
        SqlValue::Number(f.kick_user_id as int),
        flag(f.is_follower),
        time(f.following_since),
        flag(f.counted_miss),
        SqlValue::Number(f.misses as int),
        flag(f.is_subscriber),
        SqlValue::Number(f.months as int),
        flag(f.is_vip),
        flag(f.is_moderator),
        flag(f.is_og),
    ]
}

/// The statements that write what a probe found, or that it found nothing, and the one that ends
/// subscriptions do to a row, column by column, what is stated of them.
pub proof fn law_probes_and_rounds_write_what_is_stated(f: FollowUpdate, row: Relation, now: Timestamp)
    requires
        now.valid(),
    ensures
        exists|u: Update|
            {
                &&& UPDATE_RELATION@ == #[trigger] update_text(u)
                &&& u.table == "channel_relations"@
                &&& u.key == "kick_channel_id = $1 AND kick_user_id = $2"@
                &&& brings(u, (Scene { cell: cells(row), params: update_params(f), now }), cells(row.updated(f, now)))
            },
        exists|u: Update|
            {
                &&& STAMP_ATTEMPT@ == #[trigger] update_text(u)
                &&& u.table == "channel_relations"@
                &&& u.key == "kick_channel_id = $1 AND kick_user_id = $2"@
                &&& brings(u, (Scene { cell: cells(row), params: seq![], now }), cells(row.attempted(now)))
            },
        exists|u: Update|
            {
                &&& EXPIRE_SUBSCRIPTIONS@ == #[trigger] update_text(u)
                &&& u.table == "channel_relations"@
                &&& u.key == "kick_channel_id=$1"@
                &&& brings(u, (Scene { cell: cells(row), params: seq![], now }), cells(expired(row, now)))
            },
{
    lemma_text_of_update_relation();
    lemma_update_relation_brings(f, row, now);
    lemma_text_of_stamp_attempt();
    lemma_stamp_attempt_brings(row, now);
    lemma_text_of_expire_subscriptions();
    lemma_expire_subscriptions_brings(row, now);
}

/// A channel that went live is live from when its event says, else from now; the rest of its record
/// stays.
#[verifier::spinoff_prover]
pub proof fn law_live_started_is_kept(op: OpView, cell: spec_fn(Table, Column) -> SqlValue, now: Timestamp)
    requires
        op is LiveStarted,
    ensures
        exists|u: Update|
            {
                &&& statement_of(op) == Some(#[trigger] update_text(u))
                &&& u.table == "broadcasters"@
                &&& u.key == "kick_channel_id = $1"@
                &&& forall|column: Column| #[trigger] updated_cell(u, column, (Scene { cell, params: params_of(op), now })) == (match column {
                Column::IsLive => flag(true),
                Column::LiveStartedAt => match op->started_at {
                    Some(t) => SqlValue::Time(t),
                    None => SqlValue::Time(now),
                },
                Column::UpdatedAt => SqlValue::Time(now),
                _ => cell(Table::Own, column),
            })
            },
{
    lemma_text_of_live_started();
    let u = live_started();
    let s = Scene { cell, params: params_of(op), now };
    let e0 = Expr::True;
    let v0 = expr_value(e0, s);
    let e1 = Expr::Param(2);
    let v1 = expr_value(e1, s);
    let e2 = Expr::Now;
    let v2 = expr_value(e2, s);
    let e3 = Expr::Coalesce(Box::new(e1), Box::new(e2));
    let v3 = expr_value(e3, s);
    assert forall|column: Column| true implies #[trigger] updated_cell(u, column, s) == (match column {
                Column::IsLive => flag(true),
                Column::LiveStartedAt => match op->started_at {
                    Some(t) => SqlValue::Time(t),
                    None => SqlValue::Time(now),
                },
                Column::UpdatedAt => SqlValue::Time(now),
                _ => cell(Table::Own, column),
            }) by {
        assert(u.sets.take(3).drop_last() =~= u.sets.take(2));
        assert(u.sets.take(3).last() == u.sets[2]);
        let c3 = set_to(u.sets.take(3), column, s);
        assert(u.sets.take(2).drop_last() =~= u.sets.take(1));
        assert(u.sets.take(2).last() == u.sets[1]);
        let c2 = set_to(u.sets.take(2), column, s);
        assert(u.sets.take(1).drop_last() =~= u.sets.take(0));
        assert(u.sets.take(1).last() == u.sets[0]);
        let c1 = set_to(u.sets.take(1), column, s);
        let c0 = set_to(u.sets.take(0), column, s);
        assert(u.sets.take(3) =~= u.sets);
    }
    assert(statement_of(op) == Some(update_text(u)));
}

/// A channel whose stream ended is live no longer, was live until now, and has nobody watching; the
/// rest of its record stays.
#[verifier::spinoff_prover]
pub proof fn law_live_ended_is_kept(op: OpView, cell: spec_fn(Table, Column) -> SqlValue, now: Timestamp)
    requires
        op is LiveEnded,
    ensures
        exists|u: Update|
            {
                &&& statement_of(op) == Some(#[trigger] update_text(u))
                &&& u.table == "broadcasters"@
                &&& u.key == "kick_channel_id = $1"@
                &&& forall|column: Column| #[trigger] updated_cell(u, column, (Scene { cell, params: params_of(op), now })) == (match column {
                Column::IsLive => flag(false),
                Column::LastLiveAt => SqlValue::Time(now),
                Column::ViewerCount => SqlValue::Number(0),
                Column::UpdatedAt => SqlValue::Time(now),
                _ => cell(Table::Own, column),
            })
            },
{
    lemma_text_of_live_ended();
    let u = live_ended();
    let s = Scene { cell, params: params_of(op), now };
    let e0 = Expr::False;
    let v0 = expr_value(e0, s);
    let e1 = Expr::Now;
    let v1 = expr_value(e1, s);
    let e2 = Expr::Number(0);
    let v2 = expr_value(e2, s);
    assert forall|column: Column| true implies #[trigger] updated_cell(u, column, s) == (match column {
                Column::IsLive => flag(false),
                Column::LastLiveAt => SqlValue::Time(now),
                Column::ViewerCount => SqlValue::Number(0),
                Column::UpdatedAt => SqlValue::Time(now),
                _ => cell(Table::Own, column),
            }) by {
        assert(u.sets.take(4).drop_last() =~= u.sets.take(3));
        assert(u.sets.take(4).last() == u.sets[3]);
        let c4 = set_to(u.sets.take(4), column, s);
        assert(u.sets.take(3).drop_last() =~= u.sets.take(2));
        assert(u.sets.take(3).last() == u.sets[2]);
        let c3 = set_to(u.sets.take(3), column, s);
        assert(u.sets.take(2).drop_last() =~= u.sets.take(1));
        assert(u.sets.take(2).last() == u.sets[1]);
        let c2 = set_to(u.sets.take(2), column, s);
        assert(u.sets.take(1).drop_last() =~= u.sets.take(0));
        assert(u.sets.take(1).last() == u.sets[0]);
        let c1 = set_to(u.sets.take(1), column, s);
        let c0 = set_to(u.sets.take(0), column, s);
        assert(u.sets.take(4) =~= u.sets);
    }
    assert(statement_of(op) == Some(update_text(u)));
}

/// A channel that streams something else is kept with what its event names; the rest of its record
/// stays.
#[verifier::spinoff_prover]
pub proof fn law_category_changed_is_kept(op: OpView, cell: spec_fn(Table, Column) -> SqlValue, now: Timestamp)
    requires
        op is CategoryChanged,
    ensures
        exists|u: Update|
            {
                &&& statement_of(op) == Some(#[trigger] update_text(u))
                &&& u.table == "broadcasters"@
                &&& u.key == "kick_channel_id = $1"@
                &&& forall|column: Column| #[trigger] updated_cell(u, column, (Scene { cell, params: params_of(op), now })) == (match column {
                Column::CurrentCategory => SqlValue::Text(op->category),
                Column::UpdatedAt => SqlValue::Time(now),
                _ => cell(Table::Own, column),
            })
            },
{
    lemma_text_of_category_changed();
    let u = category_changed();
    let s = Scene { cell, params: params_of(op), now };
    let e0 = Expr::Param(2);
    let v0 = expr_value(e0, s);
    let e1 = Expr::Now;
    let v1 = expr_value(e1, s);
    assert forall|column: Column| true implies #[trigger] updated_cell(u, column, s) == (match column {
                Column::CurrentCategory => SqlValue::Text(op->category),
                Column::UpdatedAt => SqlValue::Time(now),
                _ => cell(Table::Own, column),
            }) by {
        assert(u.sets.take(2).drop_last() =~= u.sets.take(1));
        assert(u.sets.take(2).last() == u.sets[1]);
        let c2 = set_to(u.sets.take(2), column, s);
        assert(u.sets.take(1).drop_last() =~= u.sets.take(0));
        assert(u.sets.take(1).last() == u.sets[0]);
        let c1 = set_to(u.sets.take(1), column, s);
        let c0 = set_to(u.sets.take(0), column, s);
        assert(u.sets.take(2) =~= u.sets);
    }
    assert(statement_of(op) == Some(update_text(u)));
}

/// No two kinds of write share a statement.
pub proof fn law_each_write_has_its_own_statement(a: OpView, b: OpView)
    requires
        statement_of(a) is Some,
        statement_of(a) == statement_of(b),
    ensures
        a is Followed == b is Followed,
        a is Subscribed == b is Subscribed,
        a is Renewed == b is Renewed,
        a is GiftsGiven == b is GiftsGiven,
        a is GiftReceived == b is GiftReceived,
        a is ChatSeen == b is ChatSeen,
        a is Badges == b is Badges,
        a is SubscriberBadge == b is SubscriberBadge,
        a is GifterBadge == b is GifterBadge,
        a is KicksGifted == b is KicksGifted,
        a is LiveStarted == b is LiveStarted,
        a is LiveEnded == b is LiveEnded,
        a is CategoryChanged == b is CategoryChanged,
        a is EnsureRelation == b is EnsureRelation,
{
    assert(FOLLOWED@.len() == 154) by {
        reveal_strlit("UPDATE channel_relations SET is_follower=true, followed_at=COALESCE(followed_at, now()), last_synced_at=now() WHERE kick_channel_id=$1 AND kick_user_id=$2");
    }
    assert(SUBSCRIBED@.len() == 341) by {
        reveal_strlit("UPDATE channel_relations SET is_subscriber=true, subscribed_at=COALESCE(subscribed_at, COALESCE($3, now())), sub_expires_at=COALESCE($4, sub_expires_at), sub_months_cumulative=GREATEST(sub_months_cumulative, COALESCE($5, 1)), sub_streak_months=GREATEST(sub_streak_months, 1), last_synced_at=now() WHERE kick_channel_id=$1 AND kick_user_id=$2");
    }
    assert(RENEWED@.len() == 276) by {
        reveal_strlit("UPDATE channel_relations SET is_subscriber=true, sub_expires_at=COALESCE($4, sub_expires_at), sub_months_cumulative=GREATEST(sub_months_cumulative + 1, COALESCE($3, 0)), sub_streak_months=sub_streak_months + 1, last_synced_at=now() WHERE kick_channel_id=$1 AND kick_user_id=$2");
    }
    assert(GIFTS_GIVEN@.len() == 138) by {
        reveal_strlit("UPDATE channel_relations SET gifted_subs_given = gifted_subs_given + $3, last_synced_at=now() WHERE kick_channel_id=$1 AND kick_user_id=$2");
    }
    assert(GIFT_RECEIVED@.len() == 331) by {
        reveal_strlit("UPDATE channel_relations SET is_subscriber=true, sub_is_gift=true, subscribed_at=COALESCE(subscribed_at, now()), sub_expires_at=COALESCE($3, sub_expires_at), sub_months_cumulative=GREATEST(sub_months_cumulative, 1), sub_streak_months=GREATEST(sub_streak_months, 1), last_synced_at=now() WHERE kick_channel_id=$1 AND kick_user_id=$2");
    }
    assert(CHAT_SEEN@.len() == 137) by {
        reveal_strlit("UPDATE channel_relations SET chat_messages_30d = chat_messages_30d + 1, last_seen_at = now() WHERE kick_channel_id=$1 AND kick_user_id=$2");
    }
    assert(BADGES@.len() == 230) by {
        reveal_strlit("UPDATE channel_relations SET is_moderator=$3, is_vip=$4, is_og=$5, last_synced_at=now() WHERE kick_channel_id=$1 AND kick_user_id=$2 AND (is_moderator IS DISTINCT FROM $3 OR is_vip IS DISTINCT FROM $4 OR is_og IS DISTINCT FROM $5)");
    }
    assert(SUBSCRIBER_BADGE@.len() == 327) by {
        reveal_strlit("UPDATE channel_relations SET is_subscriber=true, subscribed_at=COALESCE(subscribed_at, now()), sub_months_cumulative=GREATEST(sub_months_cumulative, $3), sub_streak_months=GREATEST(sub_streak_months, 1), last_synced_at=now() WHERE kick_channel_id=$1 AND kick_user_id=$2 AND (is_subscriber = false OR sub_months_cumulative < $3)");
    }
    assert(GIFTER_BADGE@.len() == 143) by {
        reveal_strlit("UPDATE channel_relations SET gifted_subs_given=$3, last_synced_at=now() WHERE kick_channel_id=$1 AND kick_user_id=$2 AND gifted_subs_given < $3");
    }
    assert(KICKS_GIFTED@.len() == 130) by {
        reveal_strlit("UPDATE channel_relations SET kicks_donated = kicks_donated + $3, last_synced_at=now() WHERE kick_channel_id=$1 AND kick_user_id=$2");
    }
    assert(LIVE_STARTED@.len() == 124) by {
        reveal_strlit("UPDATE broadcasters SET is_live = true, live_started_at = COALESCE($2, now()), updated_at = now() WHERE kick_channel_id = $1");
    }
    assert(LIVE_ENDED@.len() == 126) by {
        reveal_strlit("UPDATE broadcasters SET is_live = false, last_live_at = now(), viewer_count = 0, updated_at = now() WHERE kick_channel_id = $1");
    }
    assert(CATEGORY_CHANGED@.len() == 92) by {
        reveal_strlit("UPDATE broadcasters SET current_category = $2, updated_at = now() WHERE kick_channel_id = $1");
    }
    assert(ENSURE_RELATION@.len() == 131) by {
        reveal_strlit("INSERT INTO channel_relations (kick_channel_id, kick_user_id) VALUES ($1,$2) ON CONFLICT (kick_channel_id, kick_user_id) DO NOTHING");
    }
}

/// A row holds in each column what is known under the column's name.
pub proof fn law_rows_are_read_by_column(row: Relation)
    ensures
        cells(row)(Table::Own, Column::IsFollower) == flag(row.is_follower),
        cells(row)(Table::Own, Column::FollowedAt) == time(row.followed_at),
        cells(row)(Table::Own, Column::FollowConfirmedAt) == time(row.follow_confirmed_at),
        cells(row)(Table::Own, Column::FollowProbedAt) == time(row.follow_probed_at),
        cells(row)(Table::Own, Column::FollowProbeAttemptedAt) == time(row.follow_probe_attempted_at),
        cells(row)(Table::Own, Column::FollowMissedAt) == time(row.follow_missed_at),
        cells(row)(Table::Own, Column::FollowProbeMisses) == SqlValue::Number(row.follow_probe_misses as int),
        cells(row)(Table::Own, Column::IsSubscriber) == flag(row.is_subscriber),
        cells(row)(Table::Own, Column::SubscribedAt) == time(row.subscribed_at),
        cells(row)(Table::Own, Column::SubExpiresAt) == time(row.sub_expires_at),
        cells(row)(Table::Own, Column::SubMonthsCumulative) == SqlValue::Number(row.sub_months_cumulative),
        cells(row)(Table::Own, Column::SubStreakMonths) == SqlValue::Number(row.sub_streak_months),
        cells(row)(Table::Own, Column::SubIsGift) == flag(row.sub_is_gift),
        cells(row)(Table::Own, Column::GiftedSubsGiven) == SqlValue::Number(row.gifted_subs_given),
        cells(row)(Table::Own, Column::IsVip) == flag(row.is_vip),
        cells(row)(Table::Own, Column::IsModerator) == flag(row.is_moderator),
        cells(row)(Table::Own, Column::IsOg) == flag(row.is_og),
        cells(row)(Table::Own, Column::KicksDonated) == SqlValue::Number(row.kicks_donated),
        cells(row)(Table::Own, Column::ChatMessages30d) == SqlValue::Number(row.chat_messages_30d),
        cells(row)(Table::Own, Column::LastSeenAt) == time(row.last_seen_at),
        cells(row)(Table::Own, Column::LastSyncedAt) == time(row.last_synced_at),
{
}

/// The parameters of a write's statement are the channel and the viewer, and behind them what the write
/// is of, in the order in which the write names it.
pub proof fn law_parameters_are_in_order(
    channel: i64,
    user: i64,
    count: i64,
    from: Option<Timestamp>,
    until: Option<Timestamp>,
    months: Option<i64>,
    flags: (bool, bool, bool),
)
    ensures
        ({
            let c = SqlValue::Number(channel as int);
            let u = SqlValue::Number(user as int);
            let n = SqlValue::Number(count as int);
            let (is_moderator, is_vip, is_og) = flags;
            &&& params_of(OpView::Followed { channel, user }) == seq![c, u]
            &&& params_of(
                OpView::Subscribed { channel, user, created_at: from, expires_at: until, months },
            ) == seq![c, u, time(from), time(until), number(months)]
            &&& params_of(OpView::Renewed { channel, user, months, expires_at: until }) == seq![
                c,
                u,
                number(months),
                time(until),
            ]
            &&& params_of(OpView::GiftsGiven { channel, user, count }) == seq![c, u, n]
            &&& params_of(OpView::GiftReceived { channel, user, expires_at: until }) == seq![c, u, time(until)]
            &&& params_of(OpView::ChatSeen { channel, user }) == seq![c, u]
            &&& params_of(OpView::Badges { channel, user, is_moderator, is_vip, is_og }) == seq![
                c,
                u,
                flag(is_moderator),
                flag(is_vip),
                flag(is_og),
            ]
            &&& params_of(OpView::SubscriberBadge { channel, user, months: count }) == seq![c, u, n]
            &&& params_of(OpView::GifterBadge { channel, user, gifted: count }) == seq![c, u, n]
            &&& params_of(OpView::KicksGifted { channel, user, amount: count }) == seq![c, u, n]
            &&& params_of(OpView::LiveStarted { channel, started_at: from }) == seq![c, time(from)]
        }),
{
}

/// A relation is there before it is written to: one of this channel and this viewer is put in, and where
/// there is one already, it stays as it is.
pub proof fn law_a_relation_is_put_in_once(channel: i64, user: i64)
    ensures
        statement_of(OpView::EnsureRelation { channel, user }) == Some(
            "INSERT INTO channel_relations (kick_channel_id, kick_user_id)"@ + " VALUES ($1,$2)"@
                + " ON CONFLICT (kick_channel_id, kick_user_id) DO NOTHING"@,
        ),
        params_of(OpView::EnsureRelation { channel, user }) == seq![
            SqlValue::Number(channel as int),
            SqlValue::Number(user as int),
        ],
{
    reveal_strlit("INSERT INTO channel_relations (kick_channel_id, kick_user_id) VALUES ($1,$2) ON CONFLICT (kick_channel_id, kick_user_id) DO NOTHING");
    reveal_strlit("INSERT INTO channel_relations (kick_channel_id, kick_user_id)");
    reveal_strlit(" VALUES ($1,$2)");
    reveal_strlit(" ON CONFLICT (kick_channel_id, kick_user_id) DO NOTHING");
    assert(ENSURE_RELATION@ =~= "INSERT INTO channel_relations (kick_channel_id, kick_user_id)"@ + " VALUES ($1,$2)"@
        + " ON CONFLICT (kick_channel_id, kick_user_id) DO NOTHING"@);
}

} // verus!
