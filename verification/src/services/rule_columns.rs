//! Which columns a rule's WHERE clause reads, and how its signs compare, read off its text.

use vstd::prelude::*;
use vstd::string::*;

use crate::models::condition::ConditionTarget;
use crate::services::rule_meaning::{clause_truth, expr_value, JoinedRow, Session, SqlValue};
use crate::services::rule_sql::{clause_text, expr_text, group_text, where_text, BindView, Clause, Comparison, Where};
use crate::sql;
use crate::sql::{coalesce, days_since, flag, of_relation, of_user, time, Column, Expr, Scene, Table};
use crate::text::{decimal, joined};
use crate::time::Timestamp;

verus! {

/// A flag that a joined row may lack.
pub open spec fn flag_or_null(b: Option<bool>) -> sql::SqlValue {
    match b {
        Some(b) => flag(b),
        None => sql::SqlValue::Null,
    }
}

/// A number that a joined row may lack.
pub open spec fn number_or_null(n: Option<i32>) -> sql::SqlValue {
    match n {
        Some(n) => sql::SqlValue::Number(n as int),
        None => sql::SqlValue::Null,
    }
}

/// What a joined row holds, column by column.
pub open spec fn row_cells(row: JoinedRow) -> spec_fn(Table, Column) -> sql::SqlValue {
    |of: Table, column: Column|
        match (of, column) {
            (Table::Relation, Column::IsFollower) => flag_or_null(row.is_follower),
            (Table::Relation, Column::FollowedAt) => time(row.followed_at),
            (Table::Relation, Column::IsSubscriber) => flag_or_null(row.is_subscriber),
            (Table::Relation, Column::SubMonthsCumulative) => number_or_null(row.sub_months_cumulative),
            (Table::Relation, Column::SubStreakMonths) => number_or_null(row.sub_streak_months),
            (Table::Relation, Column::SubIsGift) => flag_or_null(row.sub_is_gift),
            (Table::Relation, Column::GiftedSubsGiven) => number_or_null(row.gifted_subs_given),
            (Table::Relation, Column::IsVip) => flag_or_null(row.is_vip),
            (Table::Relation, Column::IsModerator) => flag_or_null(row.is_moderator),
            (Table::Relation, Column::KicksDonated) => number_or_null(row.kicks_donated),
            (Table::Relation, Column::ChatMessages30d) => number_or_null(row.chat_messages_30d),
            (Table::User, Column::IsOg) => flag(row.is_og),
            (Table::User, Column::KickCreatedAt) => sql::SqlValue::Time(row.kick_created_at),
            (Table::User, Column::CountryCode) => match row.country_code {
                Some(s) => sql::SqlValue::Text(s),
                None => sql::SqlValue::Null,
            },
            (Table::User, Column::KickUsername) => sql::SqlValue::Text(row.kick_username),
            _ => sql::SqlValue::Null,
        }
}

/// Whether two values are the same.
pub open spec fn same(a: SqlValue, b: sql::SqlValue) -> bool {
    match a {
        SqlValue::Null => b is Null,
        SqlValue::Bool(x) => b == sql::SqlValue::Bool(x),
        SqlValue::Number(n) => b == sql::SqlValue::Number(n),
        SqlValue::Text(s) => b == sql::SqlValue::Text(s),
    }
}

/// Whether an expression comes on a row to what a target's does.
pub open spec fn means(target: ConditionTarget, row: JoinedRow, now: Timestamp, e: Expr) -> bool {
    same(expr_value(target, row, now), sql::expr_value(e, (Scene { cell: row_cells(row), params: seq![], now })))
}

/// The structure of a target's expression.
spec fn structure(target: ConditionTarget) -> Expr {
    match target {
        ConditionTarget::IsFollower => coalesce(of_relation(Column::IsFollower), Expr::False),
        ConditionTarget::FollowAgeDays => days_since(of_relation(Column::FollowedAt)),
        ConditionTarget::IsSubscriber => coalesce(of_relation(Column::IsSubscriber), Expr::False),
        ConditionTarget::SubMonthsCumulative => coalesce(of_relation(Column::SubMonthsCumulative), Expr::Number(0)),
        ConditionTarget::SubStreakMonths => coalesce(of_relation(Column::SubStreakMonths), Expr::Number(0)),
        ConditionTarget::IsGiftRecipient => coalesce(of_relation(Column::SubIsGift), Expr::False),
        ConditionTarget::GiftedSubsGiven => coalesce(of_relation(Column::GiftedSubsGiven), Expr::Number(0)),
        ConditionTarget::IsVip => coalesce(of_relation(Column::IsVip), Expr::False),
        ConditionTarget::IsModerator => coalesce(of_relation(Column::IsModerator), Expr::False),
        ConditionTarget::KicksDonatedToChannel => coalesce(of_relation(Column::KicksDonated), Expr::Number(0)),
        ConditionTarget::ChatMessages30d => coalesce(of_relation(Column::ChatMessages30d), Expr::Number(0)),
        ConditionTarget::IsOg => coalesce(of_user(Column::IsOg), Expr::False),
        ConditionTarget::AccountAgeDays => days_since(of_user(Column::KickCreatedAt)),
        ConditionTarget::CountryCode => of_user(Column::CountryCode),
        ConditionTarget::Username => of_user(Column::KickUsername),
    }
}

proof fn lemma_is_follower(row: JoinedRow, now: Timestamp)
    ensures
        expr_text(ConditionTarget::IsFollower) == sql::expr_text(structure(ConditionTarget::IsFollower)),
        means(ConditionTarget::IsFollower, row, now, structure(ConditionTarget::IsFollower)),
{
    let e0 = of_relation(Column::IsFollower);
    assert(sql::expr_text(e0) =~= "cr.is_follower"@) by {
        reveal_strlit("is_follower");
        reveal_strlit("cr.");
        reveal_strlit("cr.is_follower");
    }
    let e1 = Expr::False;
    assert(sql::expr_text(e1) =~= "false"@) by {
        reveal_strlit("false");
    }
    let e2 = Expr::Coalesce(Box::new(e0), Box::new(e1));
    assert(sql::expr_text(e2) =~= "COALESCE(cr.is_follower, false)"@) by {
        reveal_strlit("COALESCE(");
        reveal_strlit(", ");
        reveal_strlit(")");
        reveal_strlit("cr.is_follower");
        reveal_strlit("false");
        reveal_strlit("COALESCE(cr.is_follower, false)");
    }
    let s = Scene { cell: row_cells(row), params: seq![], now };
    let v0 = sql::expr_value(e0, s);
    let v1 = sql::expr_value(e1, s);
    let v2 = sql::expr_value(e2, s);
}

proof fn lemma_follow_age_days(row: JoinedRow, now: Timestamp)
    ensures
        expr_text(ConditionTarget::FollowAgeDays) == sql::expr_text(structure(ConditionTarget::FollowAgeDays)),
        means(ConditionTarget::FollowAgeDays, row, now, structure(ConditionTarget::FollowAgeDays)),
{
    let e0 = of_relation(Column::FollowedAt);
    assert(sql::expr_text(e0) =~= "cr.followed_at"@) by {
        reveal_strlit("followed_at");
        reveal_strlit("cr.");
        reveal_strlit("cr.followed_at");
    }
    let e1 = Expr::DaysSince(Box::new(e0));
    assert(sql::expr_text(e1) =~= "FLOOR(EXTRACT(EPOCH FROM (now() - cr.followed_at)) / 86400)"@) by {
        reveal_strlit("FLOOR(EXTRACT(EPOCH FROM (now() - ");
        reveal_strlit(")) / 86400)");
        reveal_strlit("cr.followed_at");
        reveal_strlit("FLOOR(EXTRACT(EPOCH FROM (now() - cr.followed_at)) / 86400)");
    }
    let s = Scene { cell: row_cells(row), params: seq![], now };
    let v0 = sql::expr_value(e0, s);
    let v1 = sql::expr_value(e1, s);
}

proof fn lemma_is_subscriber(row: JoinedRow, now: Timestamp)
    ensures
        expr_text(ConditionTarget::IsSubscriber) == sql::expr_text(structure(ConditionTarget::IsSubscriber)),
        means(ConditionTarget::IsSubscriber, row, now, structure(ConditionTarget::IsSubscriber)),
{
    let e0 = of_relation(Column::IsSubscriber);
    assert(sql::expr_text(e0) =~= "cr.is_subscriber"@) by {
        reveal_strlit("is_subscriber");
        reveal_strlit("cr.");
        reveal_strlit("cr.is_subscriber");
    }
    let e1 = Expr::False;
    assert(sql::expr_text(e1) =~= "false"@) by {
        reveal_strlit("false");
    }
    let e2 = Expr::Coalesce(Box::new(e0), Box::new(e1));
    assert(sql::expr_text(e2) =~= "COALESCE(cr.is_subscriber, false)"@) by {
        reveal_strlit("COALESCE(");
        reveal_strlit(", ");
        reveal_strlit(")");
        reveal_strlit("cr.is_subscriber");
        reveal_strlit("false");
        reveal_strlit("COALESCE(cr.is_subscriber, false)");
    }
    let s = Scene { cell: row_cells(row), params: seq![], now };
    let v0 = sql::expr_value(e0, s);
    let v1 = sql::expr_value(e1, s);
    let v2 = sql::expr_value(e2, s);
}

proof fn lemma_sub_months_cumulative(row: JoinedRow, now: Timestamp)
    ensures
        expr_text(ConditionTarget::SubMonthsCumulative) == sql::expr_text(structure(ConditionTarget::SubMonthsCumulative)),
        means(ConditionTarget::SubMonthsCumulative, row, now, structure(ConditionTarget::SubMonthsCumulative)),
{
    let e0 = of_relation(Column::SubMonthsCumulative);
    assert(sql::expr_text(e0) =~= "cr.sub_months_cumulative"@) by {
        reveal_strlit("sub_months_cumulative");
        reveal_strlit("cr.");
        reveal_strlit("cr.sub_months_cumulative");
    }
    let e1 = Expr::Number(0);
    assert(sql::expr_text(e1) =~= "0"@) by {
        reveal_strlit("0");
        reveal_with_fuel(decimal, 3);
    }
    let e2 = Expr::Coalesce(Box::new(e0), Box::new(e1));
    assert(sql::expr_text(e2) =~= "COALESCE(cr.sub_months_cumulative, 0)"@) by {
        reveal_strlit("COALESCE(");
        reveal_strlit(", ");
        reveal_strlit(")");
        reveal_strlit("cr.sub_months_cumulative");
        reveal_strlit("0");
        reveal_strlit("COALESCE(cr.sub_months_cumulative, 0)");
    }
    let s = Scene { cell: row_cells(row), params: seq![], now };
    let v0 = sql::expr_value(e0, s);
    let v1 = sql::expr_value(e1, s);
    let v2 = sql::expr_value(e2, s);
}

proof fn lemma_sub_streak_months(row: JoinedRow, now: Timestamp)
    ensures
        expr_text(ConditionTarget::SubStreakMonths) == sql::expr_text(structure(ConditionTarget::SubStreakMonths)),
        means(ConditionTarget::SubStreakMonths, row, now, structure(ConditionTarget::SubStreakMonths)),
{
    let e0 = of_relation(Column::SubStreakMonths);
    assert(sql::expr_text(e0) =~= "cr.sub_streak_months"@) by {
        reveal_strlit("sub_streak_months");
        reveal_strlit("cr.");
        reveal_strlit("cr.sub_streak_months");
    }
    let e1 = Expr::Number(0);
    assert(sql::expr_text(e1) =~= "0"@) by {
        reveal_strlit("0");
        reveal_with_fuel(decimal, 3);
    }
    let e2 = Expr::Coalesce(Box::new(e0), Box::new(e1));
    assert(sql::expr_text(e2) =~= "COALESCE(cr.sub_streak_months, 0)"@) by {
        reveal_strlit("COALESCE(");
        reveal_strlit(", ");
        reveal_strlit(")");
        reveal_strlit("cr.sub_streak_months");
        reveal_strlit("0");
        reveal_strlit("COALESCE(cr.sub_streak_months, 0)");
    }
    let s = Scene { cell: row_cells(row), params: seq![], now };
    let v0 = sql::expr_value(e0, s);
    let v1 = sql::expr_value(e1, s);
    let v2 = sql::expr_value(e2, s);
}

proof fn lemma_is_gift_recipient(row: JoinedRow, now: Timestamp)
    ensures
        expr_text(ConditionTarget::IsGiftRecipient) == sql::expr_text(structure(ConditionTarget::IsGiftRecipient)),
        means(ConditionTarget::IsGiftRecipient, row, now, structure(ConditionTarget::IsGiftRecipient)),
{
    let e0 = of_relation(Column::SubIsGift);
    assert(sql::expr_text(e0) =~= "cr.sub_is_gift"@) by {
        reveal_strlit("sub_is_gift");
        reveal_strlit("cr.");
        reveal_strlit("cr.sub_is_gift");
    }
    let e1 = Expr::False;
    assert(sql::expr_text(e1) =~= "false"@) by {
        reveal_strlit("false");
    }
    let e2 = Expr::Coalesce(Box::new(e0), Box::new(e1));
    assert(sql::expr_text(e2) =~= "COALESCE(cr.sub_is_gift, false)"@) by {
        reveal_strlit("COALESCE(");
        reveal_strlit(", ");
        reveal_strlit(")");
        reveal_strlit("cr.sub_is_gift");
        reveal_strlit("false");
        reveal_strlit("COALESCE(cr.sub_is_gift, false)");
    }
    let s = Scene { cell: row_cells(row), params: seq![], now };
    let v0 = sql::expr_value(e0, s);
    let v1 = sql::expr_value(e1, s);
    let v2 = sql::expr_value(e2, s);
}

proof fn lemma_gifted_subs_given(row: JoinedRow, now: Timestamp)
    ensures
        expr_text(ConditionTarget::GiftedSubsGiven) == sql::expr_text(structure(ConditionTarget::GiftedSubsGiven)),
        means(ConditionTarget::GiftedSubsGiven, row, now, structure(ConditionTarget::GiftedSubsGiven)),
{
    let e0 = of_relation(Column::GiftedSubsGiven);
    assert(sql::expr_text(e0) =~= "cr.gifted_subs_given"@) by {
        reveal_strlit("gifted_subs_given");
        reveal_strlit("cr.");
        reveal_strlit("cr.gifted_subs_given");
    }
    let e1 = Expr::Number(0);
    assert(sql::expr_text(e1) =~= "0"@) by {
        reveal_strlit("0");
        reveal_with_fuel(decimal, 3);
    }
    let e2 = Expr::Coalesce(Box::new(e0), Box::new(e1));
    assert(sql::expr_text(e2) =~= "COALESCE(cr.gifted_subs_given, 0)"@) by {
        reveal_strlit("COALESCE(");
        reveal_strlit(", ");
        reveal_strlit(")");
        reveal_strlit("cr.gifted_subs_given");
        reveal_strlit("0");
        reveal_strlit("COALESCE(cr.gifted_subs_given, 0)");
    }
    let s = Scene { cell: row_cells(row), params: seq![], now };
    let v0 = sql::expr_value(e0, s);
    let v1 = sql::expr_value(e1, s);
    let v2 = sql::expr_value(e2, s);
}

proof fn lemma_is_vip(row: JoinedRow, now: Timestamp)
    ensures
        expr_text(ConditionTarget::IsVip) == sql::expr_text(structure(ConditionTarget::IsVip)),
        means(ConditionTarget::IsVip, row, now, structure(ConditionTarget::IsVip)),
{
    let e0 = of_relation(Column::IsVip);
    assert(sql::expr_text(e0) =~= "cr.is_vip"@) by {
        reveal_strlit("is_vip");
        reveal_strlit("cr.");
        reveal_strlit("cr.is_vip");
    }
    let e1 = Expr::False;
    assert(sql::expr_text(e1) =~= "false"@) by {
        reveal_strlit("false");
    }
    let e2 = Expr::Coalesce(Box::new(e0), Box::new(e1));
    assert(sql::expr_text(e2) =~= "COALESCE(cr.is_vip, false)"@) by {
        reveal_strlit("COALESCE(");
        reveal_strlit(", ");
        reveal_strlit(")");
        reveal_strlit("cr.is_vip");
        reveal_strlit("false");
        reveal_strlit("COALESCE(cr.is_vip, false)");
    }
    let s = Scene { cell: row_cells(row), params: seq![], now };
    let v0 = sql::expr_value(e0, s);
    let v1 = sql::expr_value(e1, s);
    let v2 = sql::expr_value(e2, s);
}

proof fn lemma_is_moderator(row: JoinedRow, now: Timestamp)
    ensures
        expr_text(ConditionTarget::IsModerator) == sql::expr_text(structure(ConditionTarget::IsModerator)),
        means(ConditionTarget::IsModerator, row, now, structure(ConditionTarget::IsModerator)),
{
    let e0 = of_relation(Column::IsModerator);
    assert(sql::expr_text(e0) =~= "cr.is_moderator"@) by {
        reveal_strlit("is_moderator");
        reveal_strlit("cr.");
        reveal_strlit("cr.is_moderator");
    }
    let e1 = Expr::False;
    assert(sql::expr_text(e1) =~= "false"@) by {
        reveal_strlit("false");
    }
    let e2 = Expr::Coalesce(Box::new(e0), Box::new(e1));
    assert(sql::expr_text(e2) =~= "COALESCE(cr.is_moderator, false)"@) by {
        reveal_strlit("COALESCE(");
        reveal_strlit(", ");
        reveal_strlit(")");
        reveal_strlit("cr.is_moderator");
        reveal_strlit("false");
        reveal_strlit("COALESCE(cr.is_moderator, false)");
    }
    let s = Scene { cell: row_cells(row), params: seq![], now };
    let v0 = sql::expr_value(e0, s);
    let v1 = sql::expr_value(e1, s);
    let v2 = sql::expr_value(e2, s);
}

proof fn lemma_kicks_donated_to_channel(row: JoinedRow, now: Timestamp)
    ensures
        expr_text(ConditionTarget::KicksDonatedToChannel) == sql::expr_text(structure(ConditionTarget::KicksDonatedToChannel)),
        means(ConditionTarget::KicksDonatedToChannel, row, now, structure(ConditionTarget::KicksDonatedToChannel)),
{
    let e0 = of_relation(Column::KicksDonated);
    assert(sql::expr_text(e0) =~= "cr.kicks_donated"@) by {
        reveal_strlit("kicks_donated");
        reveal_strlit("cr.");
        reveal_strlit("cr.kicks_donated");
    }
    let e1 = Expr::Number(0);
    assert(sql::expr_text(e1) =~= "0"@) by {
        reveal_strlit("0");
        reveal_with_fuel(decimal, 3);
    }
    let e2 = Expr::Coalesce(Box::new(e0), Box::new(e1));
    assert(sql::expr_text(e2) =~= "COALESCE(cr.kicks_donated, 0)"@) by {
        reveal_strlit("COALESCE(");
        reveal_strlit(", ");
        reveal_strlit(")");
        reveal_strlit("cr.kicks_donated");
        reveal_strlit("0");
        reveal_strlit("COALESCE(cr.kicks_donated, 0)");
    }
    let s = Scene { cell: row_cells(row), params: seq![], now };
    let v0 = sql::expr_value(e0, s);
    let v1 = sql::expr_value(e1, s);
    let v2 = sql::expr_value(e2, s);
}

proof fn lemma_chat_messages30d(row: JoinedRow, now: Timestamp)
    ensures
        expr_text(ConditionTarget::ChatMessages30d) == sql::expr_text(structure(ConditionTarget::ChatMessages30d)),
        means(ConditionTarget::ChatMessages30d, row, now, structure(ConditionTarget::ChatMessages30d)),
{
    let e0 = of_relation(Column::ChatMessages30d);
    assert(sql::expr_text(e0) =~= "cr.chat_messages_30d"@) by {
        reveal_strlit("chat_messages_30d");
        reveal_strlit("cr.");
        reveal_strlit("cr.chat_messages_30d");
    }
    let e1 = Expr::Number(0);
    assert(sql::expr_text(e1) =~= "0"@) by {
        reveal_strlit("0");
        reveal_with_fuel(decimal, 3);
    }
    let e2 = Expr::Coalesce(Box::new(e0), Box::new(e1));
    assert(sql::expr_text(e2) =~= "COALESCE(cr.chat_messages_30d, 0)"@) by {
        reveal_strlit("COALESCE(");
        reveal_strlit(", ");
        reveal_strlit(")");
        reveal_strlit("cr.chat_messages_30d");
        reveal_strlit("0");
        reveal_strlit("COALESCE(cr.chat_messages_30d, 0)");
    }
    let s = Scene { cell: row_cells(row), params: seq![], now };
    let v0 = sql::expr_value(e0, s);
    let v1 = sql::expr_value(e1, s);
    let v2 = sql::expr_value(e2, s);
}

proof fn lemma_is_og(row: JoinedRow, now: Timestamp)
    ensures
        expr_text(ConditionTarget::IsOg) == sql::expr_text(structure(ConditionTarget::IsOg)),
        means(ConditionTarget::IsOg, row, now, structure(ConditionTarget::IsOg)),
{
    let e0 = of_user(Column::IsOg);
    assert(sql::expr_text(e0) =~= "ku.is_og"@) by {
        reveal_strlit("is_og");
        reveal_strlit("ku.");
        reveal_strlit("ku.is_og");
    }
    let e1 = Expr::False;
    assert(sql::expr_text(e1) =~= "false"@) by {
        reveal_strlit("false");
    }
    let e2 = Expr::Coalesce(Box::new(e0), Box::new(e1));
    assert(sql::expr_text(e2) =~= "COALESCE(ku.is_og, false)"@) by {
        reveal_strlit("COALESCE(");
        reveal_strlit(", ");
        reveal_strlit(")");
        reveal_strlit("ku.is_og");
        reveal_strlit("false");
        reveal_strlit("COALESCE(ku.is_og, false)");
    }
    let s = Scene { cell: row_cells(row), params: seq![], now };
    let v0 = sql::expr_value(e0, s);
    let v1 = sql::expr_value(e1, s);
    let v2 = sql::expr_value(e2, s);
}

proof fn lemma_account_age_days(row: JoinedRow, now: Timestamp)
    ensures
        expr_text(ConditionTarget::AccountAgeDays) == sql::expr_text(structure(ConditionTarget::AccountAgeDays)),
        means(ConditionTarget::AccountAgeDays, row, now, structure(ConditionTarget::AccountAgeDays)),
{
    let e0 = of_user(Column::KickCreatedAt);
    assert(sql::expr_text(e0) =~= "ku.kick_created_at"@) by {
        reveal_strlit("kick_created_at");
        reveal_strlit("ku.");
        reveal_strlit("ku.kick_created_at");
    }
    let e1 = Expr::DaysSince(Box::new(e0));
    assert(sql::expr_text(e1) =~= "FLOOR(EXTRACT(EPOCH FROM (now() - ku.kick_created_at)) / 86400)"@) by {
        reveal_strlit("FLOOR(EXTRACT(EPOCH FROM (now() - ");
        reveal_strlit(")) / 86400)");
        reveal_strlit("ku.kick_created_at");
        reveal_strlit("FLOOR(EXTRACT(EPOCH FROM (now() - ku.kick_created_at)) / 86400)");
    }
    let s = Scene { cell: row_cells(row), params: seq![], now };
    let v0 = sql::expr_value(e0, s);
    let v1 = sql::expr_value(e1, s);
}

proof fn lemma_country_code(row: JoinedRow, now: Timestamp)
    ensures
        expr_text(ConditionTarget::CountryCode) == sql::expr_text(structure(ConditionTarget::CountryCode)),
        means(ConditionTarget::CountryCode, row, now, structure(ConditionTarget::CountryCode)),
{
    let e0 = of_user(Column::CountryCode);
    assert(sql::expr_text(e0) =~= "ku.country_code"@) by {
        reveal_strlit("country_code");
        reveal_strlit("ku.");
        reveal_strlit("ku.country_code");
    }
    let s = Scene { cell: row_cells(row), params: seq![], now };
    let v0 = sql::expr_value(e0, s);
}

proof fn lemma_username(row: JoinedRow, now: Timestamp)
    ensures
        expr_text(ConditionTarget::Username) == sql::expr_text(structure(ConditionTarget::Username)),
        means(ConditionTarget::Username, row, now, structure(ConditionTarget::Username)),
{
    let e0 = of_user(Column::KickUsername);
    assert(sql::expr_text(e0) =~= "ku.kick_username"@) by {
        reveal_strlit("kick_username");
        reveal_strlit("ku.");
        reveal_strlit("ku.kick_username");
    }
    let s = Scene { cell: row_cells(row), params: seq![], now };
    let v0 = sql::expr_value(e0, s);
}

/// A target's expression reads its column: its text is that of an expression over the columns by
/// their names whose value on every row is the target's.
pub proof fn law_expressions_read_their_columns(target: ConditionTarget, row: JoinedRow, now: Timestamp)
    ensures
        exists|e: Expr| expr_text(target) == #[trigger] sql::expr_text(e) && means(target, row, now, e),
{
    match target {
        ConditionTarget::IsFollower => lemma_is_follower(row, now),
        ConditionTarget::FollowAgeDays => lemma_follow_age_days(row, now),
        ConditionTarget::IsSubscriber => lemma_is_subscriber(row, now),
        ConditionTarget::SubMonthsCumulative => lemma_sub_months_cumulative(row, now),
        ConditionTarget::SubStreakMonths => lemma_sub_streak_months(row, now),
        ConditionTarget::IsGiftRecipient => lemma_is_gift_recipient(row, now),
        ConditionTarget::GiftedSubsGiven => lemma_gifted_subs_given(row, now),
        ConditionTarget::IsVip => lemma_is_vip(row, now),
        ConditionTarget::IsModerator => lemma_is_moderator(row, now),
        ConditionTarget::KicksDonatedToChannel => lemma_kicks_donated_to_channel(row, now),
        ConditionTarget::ChatMessages30d => lemma_chat_messages30d(row, now),
        ConditionTarget::IsOg => lemma_is_og(row, now),
        ConditionTarget::AccountAgeDays => lemma_account_age_days(row, now),
        ConditionTarget::CountryCode => lemma_country_code(row, now),
        ConditionTarget::Username => lemma_username(row, now),
    }
    assert(expr_text(target) == sql::expr_text(structure(target)));
}

/// A target's expression comes to the fact of the target: a flag or a count that an account without
/// a relation lacks is false or none, and what was never set is not set.
pub proof fn law_expressions_come_to_the_facts(row: JoinedRow, now: Timestamp)
    ensures
        ({
            let f = row.facts();
            &&& expr_value(ConditionTarget::IsFollower, row, now) == SqlValue::Bool(f.is_follower)
            &&& expr_value(ConditionTarget::IsSubscriber, row, now) == SqlValue::Bool(f.is_subscriber)
            &&& expr_value(ConditionTarget::IsGiftRecipient, row, now) == SqlValue::Bool(f.sub_is_gift)
            &&& expr_value(ConditionTarget::IsVip, row, now) == SqlValue::Bool(f.is_vip)
            &&& expr_value(ConditionTarget::IsModerator, row, now) == SqlValue::Bool(f.is_moderator)
            &&& expr_value(ConditionTarget::IsOg, row, now) == SqlValue::Bool(f.is_og)
            &&& expr_value(ConditionTarget::SubMonthsCumulative, row, now) == SqlValue::Number(
                f.sub_months_cumulative as int,
            )
            &&& expr_value(ConditionTarget::SubStreakMonths, row, now) == SqlValue::Number(f.sub_streak_months as int)
            &&& expr_value(ConditionTarget::GiftedSubsGiven, row, now) == SqlValue::Number(f.gifted_subs_given as int)
            &&& expr_value(ConditionTarget::KicksDonatedToChannel, row, now) == SqlValue::Number(
                f.kicks_donated as int,
            )
            &&& expr_value(ConditionTarget::ChatMessages30d, row, now) == SqlValue::Number(f.chat_messages_30d as int)
            &&& expr_value(ConditionTarget::CountryCode, row, now) == (match f.country_code {
                Some(s) => SqlValue::Text(s),
                None => SqlValue::Null,
            })
            &&& expr_value(ConditionTarget::Username, row, now) == SqlValue::Text(f.username)
            &&& f.is_follower == (row.is_follower == Some(true))
            &&& f.is_subscriber == (row.is_subscriber == Some(true))
            &&& f.sub_is_gift == (row.sub_is_gift == Some(true))
            &&& f.is_vip == (row.is_vip == Some(true))
            &&& f.is_moderator == (row.is_moderator == Some(true))
            &&& f.is_og == row.is_og
            &&& row.sub_months_cumulative is None ==> f.sub_months_cumulative == 0
            &&& row.sub_months_cumulative is Some ==> f.sub_months_cumulative == row.sub_months_cumulative->0
            &&& row.sub_streak_months is None ==> f.sub_streak_months == 0
            &&& row.sub_streak_months is Some ==> f.sub_streak_months == row.sub_streak_months->0
            &&& row.gifted_subs_given is None ==> f.gifted_subs_given == 0
            &&& row.gifted_subs_given is Some ==> f.gifted_subs_given == row.gifted_subs_given->0
            &&& row.kicks_donated is None ==> f.kicks_donated == 0
            &&& row.kicks_donated is Some ==> f.kicks_donated == row.kicks_donated->0
            &&& row.chat_messages_30d is None ==> f.chat_messages_30d == 0
            &&& row.chat_messages_30d is Some ==> f.chat_messages_30d == row.chat_messages_30d->0
        }),
{
}

/// A flag or count of a relation is read from the column that a rule names it by, and so is an
/// account's.
pub proof fn law_targets_are_read_from_columns_of_their_names(target: ConditionTarget)
    ensures
        target is IsFollower || target is IsSubscriber || target is IsVip || target is IsModerator
            ==> expr_text(target) == "COALESCE(cr."@ + target.key() + ", false)"@,
        target is IsOg ==> expr_text(target) == "COALESCE(ku."@ + target.key() + ", false)"@,
        target is SubMonthsCumulative || target is SubStreakMonths || target is GiftedSubsGiven
            || target is ChatMessages30d ==> expr_text(target) == "COALESCE(cr."@ + target.key() + ", 0)"@,
        target is CountryCode ==> expr_text(target) == "ku."@ + target.key(),
        target is Username ==> expr_text(target) == "ku.kick_"@ + target.key(),
{
    match target {
        ConditionTarget::IsFollower => {
            assert(expr_text(target) =~= "COALESCE(cr."@ + target.key() + ", false)"@) by {
                reveal_strlit("COALESCE(cr.is_follower, false)");
                reveal_strlit("COALESCE(cr.");
                reveal_strlit("is_follower");
                reveal_strlit(", false)");
            }
        },
        ConditionTarget::IsSubscriber => {
            assert(expr_text(target) =~= "COALESCE(cr."@ + target.key() + ", false)"@) by {
                reveal_strlit("COALESCE(cr.is_subscriber, false)");
                reveal_strlit("COALESCE(cr.");
                reveal_strlit("is_subscriber");
                reveal_strlit(", false)");
            }
        },
        ConditionTarget::IsVip => {
            assert(expr_text(target) =~= "COALESCE(cr."@ + target.key() + ", false)"@) by {
                reveal_strlit("COALESCE(cr.is_vip, false)");
                reveal_strlit("COALESCE(cr.");
                reveal_strlit("is_vip");
                reveal_strlit(", false)");
            }
        },
        ConditionTarget::IsModerator => {
            assert(expr_text(target) =~= "COALESCE(cr."@ + target.key() + ", false)"@) by {
                reveal_strlit("COALESCE(cr.is_moderator, false)");
                reveal_strlit("COALESCE(cr.");
                reveal_strlit("is_moderator");
                reveal_strlit(", false)");
            }
        },
        ConditionTarget::IsOg => {
            assert(expr_text(target) =~= "COALESCE(ku."@ + target.key() + ", false)"@) by {
                reveal_strlit("COALESCE(ku.is_og, false)");
                reveal_strlit("COALESCE(ku.");
                reveal_strlit("is_og");
                reveal_strlit(", false)");
            }
        },
        ConditionTarget::SubMonthsCumulative => {
            assert(expr_text(target) =~= "COALESCE(cr."@ + target.key() + ", 0)"@) by {
                reveal_strlit("COALESCE(cr.sub_months_cumulative, 0)");
                reveal_strlit("COALESCE(cr.");
                reveal_strlit("sub_months_cumulative");
                reveal_strlit(", 0)");
            }
        },
        ConditionTarget::SubStreakMonths => {
            assert(expr_text(target) =~= "COALESCE(cr."@ + target.key() + ", 0)"@) by {
                reveal_strlit("COALESCE(cr.sub_streak_months, 0)");
                reveal_strlit("COALESCE(cr.");
                reveal_strlit("sub_streak_months");
                reveal_strlit(", 0)");
            }
        },
        ConditionTarget::GiftedSubsGiven => {
            assert(expr_text(target) =~= "COALESCE(cr."@ + target.key() + ", 0)"@) by {
                reveal_strlit("COALESCE(cr.gifted_subs_given, 0)");
                reveal_strlit("COALESCE(cr.");
                reveal_strlit("gifted_subs_given");
                reveal_strlit(", 0)");
            }
        },
        ConditionTarget::ChatMessages30d => {
            assert(expr_text(target) =~= "COALESCE(cr."@ + target.key() + ", 0)"@) by {
                reveal_strlit("COALESCE(cr.chat_messages_30d, 0)");
                reveal_strlit("COALESCE(cr.");
                reveal_strlit("chat_messages_30d");
                reveal_strlit(", 0)");
            }
        },
        ConditionTarget::CountryCode => {
            assert(expr_text(target) =~= "ku."@ + target.key()) by {
                reveal_strlit("ku.country_code");
                reveal_strlit("ku.");
                reveal_strlit("country_code");
            }
        },
        ConditionTarget::Username => {
            assert(expr_text(target) =~= "ku.kick_"@ + target.key()) by {
                reveal_strlit("ku.kick_username");
                reveal_strlit("ku.kick_");
                reveal_strlit("username");
            }
        },
        _ => {},
    }
}

/// A joined row holds in each column what is known under the column's name, the relation's in its own
/// table and the account's in its.
pub proof fn law_joined_rows_are_read_by_column(row: JoinedRow)
    ensures
        row_cells(row)(Table::Relation, Column::IsFollower) == flag_or_null(row.is_follower),
        row_cells(row)(Table::Relation, Column::FollowedAt) == time(row.followed_at),
        row_cells(row)(Table::Relation, Column::IsSubscriber) == flag_or_null(row.is_subscriber),
        row_cells(row)(Table::Relation, Column::SubMonthsCumulative) == number_or_null(row.sub_months_cumulative),
        row_cells(row)(Table::Relation, Column::SubStreakMonths) == number_or_null(row.sub_streak_months),
        row_cells(row)(Table::Relation, Column::SubIsGift) == flag_or_null(row.sub_is_gift),
        row_cells(row)(Table::Relation, Column::GiftedSubsGiven) == number_or_null(row.gifted_subs_given),
        row_cells(row)(Table::Relation, Column::IsVip) == flag_or_null(row.is_vip),
        row_cells(row)(Table::Relation, Column::IsModerator) == flag_or_null(row.is_moderator),
        row_cells(row)(Table::Relation, Column::KicksDonated) == number_or_null(row.kicks_donated),
        row_cells(row)(Table::Relation, Column::ChatMessages30d) == number_or_null(row.chat_messages_30d),
        row_cells(row)(Table::User, Column::IsOg) == flag(row.is_og),
        row_cells(row)(Table::User, Column::KickCreatedAt) == sql::SqlValue::Time(row.kick_created_at),
        row_cells(row)(Table::User, Column::KickUsername) == sql::SqlValue::Text(row.kick_username),
{
}

/// No two targets share an expression.
pub proof fn law_each_target_has_its_own_expression(a: ConditionTarget, b: ConditionTarget)
    requires
        expr_text(a) == expr_text(b),
    ensures
        a == b,
{
    assert("ku.country_code"@.len() == 15) by {
        reveal_strlit("ku.country_code");
    }
    assert("ku.kick_username"@.len() == 16) by {
        reveal_strlit("ku.kick_username");
    }
    assert("COALESCE(ku.is_og, false)"@.len() == 25) by {
        reveal_strlit("COALESCE(ku.is_og, false)");
    }
    assert("COALESCE(cr.is_vip, false)"@.len() == 26) by {
        reveal_strlit("COALESCE(cr.is_vip, false)");
    }
    assert("COALESCE(cr.kicks_donated, 0)"@.len() == 29) by {
        reveal_strlit("COALESCE(cr.kicks_donated, 0)");
    }
    assert("COALESCE(cr.is_follower, false)"@.len() == 31 && "COALESCE(cr.is_follower, false)"@[12] == 'i') by {
        reveal_strlit("COALESCE(cr.is_follower, false)");
    }
    assert("COALESCE(cr.sub_is_gift, false)"@.len() == 31 && "COALESCE(cr.sub_is_gift, false)"@[12] == 's') by {
        reveal_strlit("COALESCE(cr.sub_is_gift, false)");
    }
    assert("COALESCE(cr.is_moderator, false)"@.len() == 32) by {
        reveal_strlit("COALESCE(cr.is_moderator, false)");
    }
    assert("COALESCE(cr.is_subscriber, false)"@.len() == 33 && "COALESCE(cr.is_subscriber, false)"@[12] == 'i') by {
        reveal_strlit("COALESCE(cr.is_subscriber, false)");
    }
    assert("COALESCE(cr.sub_streak_months, 0)"@.len() == 33 && "COALESCE(cr.sub_streak_months, 0)"@[12] == 's') by {
        reveal_strlit("COALESCE(cr.sub_streak_months, 0)");
    }
    assert("COALESCE(cr.gifted_subs_given, 0)"@.len() == 33 && "COALESCE(cr.gifted_subs_given, 0)"@[12] == 'g') by {
        reveal_strlit("COALESCE(cr.gifted_subs_given, 0)");
    }
    assert("COALESCE(cr.chat_messages_30d, 0)"@.len() == 33 && "COALESCE(cr.chat_messages_30d, 0)"@[12] == 'c') by {
        reveal_strlit("COALESCE(cr.chat_messages_30d, 0)");
    }
    assert("COALESCE(cr.sub_months_cumulative, 0)"@.len() == 37) by {
        reveal_strlit("COALESCE(cr.sub_months_cumulative, 0)");
    }
    assert("FLOOR(EXTRACT(EPOCH FROM (now() - cr.followed_at)) / 86400)"@.len() == 59) by {
        reveal_strlit("FLOOR(EXTRACT(EPOCH FROM (now() - cr.followed_at)) / 86400)");
    }
    assert("FLOOR(EXTRACT(EPOCH FROM (now() - ku.kick_created_at)) / 86400)"@.len() == 63) by {
        reveal_strlit("FLOOR(EXTRACT(EPOCH FROM (now() - ku.kick_created_at)) / 86400)");
    }
}

/// The sign in a predicate's text is that of the order that it asks for: on a number `x`, against a
/// number `n`, it passes where the two stand in that order.
pub proof fn law_signs_compare(
    target: ConditionTarget,
    at: nat,
    high: nat,
    row: JoinedRow,
    s: Session,
    x: int,
    n: i64,
    m: i64,
)
    requires
        expr_value(target, row, s.now) == SqlValue::Number(x),
        s.param(at) == BindView::Int(n),
        s.param(high) == BindView::Int(m),
    ensures
        ({
            let expr = expr_text(target);
            let less = Clause::Compare { target, by: Comparison::Less, at };
            let at_most = Clause::Compare { target, by: Comparison::AtMost, at };
            let greater = Clause::Compare { target, by: Comparison::Greater, at };
            let at_least = Clause::Compare { target, by: Comparison::AtLeast, at };
            let within = Clause::Within { target, low: at, high };
            let equal = Clause::Equal { target, at };
            let unequal = Clause::Unequal { target, at };
            &&& clause_text(less) == "("@ + expr + ") < $"@ + decimal(at)
            &&& clause_truth(less, row, s) == Some(x < n)
            &&& clause_text(at_most) == "("@ + expr + ") <= $"@ + decimal(at)
            &&& clause_truth(at_most, row, s) == Some(x <= n)
            &&& clause_text(greater) == "("@ + expr + ") > $"@ + decimal(at)
            &&& clause_truth(greater, row, s) == Some(x > n)
            &&& clause_text(at_least) == "("@ + expr + ") >= $"@ + decimal(at)
            &&& clause_truth(at_least, row, s) == Some(x >= n)
            &&& clause_text(within) == "(("@ + expr + ") >= $"@ + decimal(at) + " AND ("@ + expr + ") <= $"@ + decimal(
                high,
            ) + ")"@
            &&& clause_truth(within, row, s) == Some(n <= x <= m)
            &&& clause_text(equal) == expr + " = $"@ + decimal(at)
            &&& clause_truth(equal, row, s) == Some(x == n)
            &&& clause_text(unequal) == expr + " <> $"@ + decimal(at)
            &&& clause_truth(unequal, row, s) == Some(x != n)
        }),
{
    reveal(clause_truth);
}

/// The predicates on a text are what their words say: the same, another or none, like a pattern,
/// one of a list, or set and none of it.
pub proof fn law_words_compare_texts(
    target: ConditionTarget,
    at: nat,
    row: JoinedRow,
    s: Session,
    x: Seq<char>,
    t: Seq<char>,
    list: Seq<Seq<char>>,
)
    requires
        expr_value(target, row, s.now) == SqlValue::Text(x),
    ensures
        ({
            let expr = expr_text(target);
            let equal = Clause::Equal { target, at };
            let distinct = Clause::Distinct { target, at };
            let matches = Clause::Matches { target, at };
            let one_of = Clause::OneOf { target, at };
            let none_of = Clause::NoneOf { target, at };
            &&& clause_text(equal) == expr + " = $"@ + decimal(at)
            &&& clause_text(distinct) == expr + " IS DISTINCT FROM $"@ + decimal(at)
            &&& clause_text(Clause::Present { target }) == expr + " IS NOT NULL"@
            &&& clause_text(Clause::Like { target, at }) == expr + " LIKE $"@ + decimal(at)
            &&& clause_text(matches) == expr + " ~ $"@ + decimal(at)
            &&& clause_text(one_of) == expr + " = ANY($"@ + decimal(at) + "::text[])"@
            &&& clause_text(none_of) == "("@ + expr + " IS NOT NULL AND "@ + expr + " <> ALL($"@ + decimal(at)
                + "::text[]))"@
            &&& clause_truth(Clause::Present { target }, row, s) == Some(true)
            &&& s.param(at) == BindView::Text(t) ==> {
                &&& clause_truth(equal, row, s) == Some(x == t)
                &&& clause_truth(distinct, row, s) == Some(x != t)
                &&& clause_truth(matches, row, s) == Some((s.matches)(t, x))
            }
            &&& s.param(at) == BindView::TextArray(list) ==> {
                &&& clause_truth(one_of, row, s) == Some(list.contains(x))
                &&& clause_truth(none_of, row, s) == Some(!list.contains(x))
            }
        }),
{
    reveal(clause_truth);
}

/// What is not set passes no predicate that asks for a value, but is distinct from every value.
pub proof fn law_what_is_not_set_is_only_distinct(target: ConditionTarget, at: nat, row: JoinedRow, s: Session)
    requires
        expr_value(target, row, s.now) is Null,
    ensures
        clause_truth(Clause::Distinct { target, at }, row, s) == Some(true),
        clause_truth(Clause::Present { target }, row, s) == Some(false),
        clause_truth(Clause::Equal { target, at }, row, s) != Some(true),
        clause_truth(Clause::Unequal { target, at }, row, s) != Some(true),
        clause_truth(Clause::OneOf { target, at }, row, s) != Some(true),
        clause_truth(Clause::NoneOf { target, at }, row, s) != Some(true),
        forall|by: Comparison| clause_truth(#[trigger] compare(target, by, at), row, s) != Some(true),
{
    reveal(clause_truth);
}

/// A comparison of a target.
pub open spec fn compare(target: ConditionTarget, by: Comparison, at: nat) -> Clause {
    Clause::Compare { target, by, at }
}

/// A group's text joins its predicates by `AND`, and a clause's joins its groups by `OR`: each with
/// one more of them ends in that one.
pub proof fn law_groups_are_alternatives(group: Seq<Clause>, clause: Clause, groups: Seq<Seq<Clause>>)
    ensures
        group_text(seq![clause]) == "("@ + clause_text(clause) + ")"@,
        group.len() > 0 ==> group_text(group.push(clause)) == group_text(group).drop_last() + " AND "@ + clause_text(
            clause,
        ) + ")"@,
        group_text(seq![]) == "FALSE"@,
        where_text(Where::Groups(seq![group])) == "("@ + group_text(group) + ")"@,
        groups.len() > 0 ==> where_text(Where::Groups(groups.push(group))) == where_text(
            Where::Groups(groups),
        ).drop_last() + " OR "@ + group_text(group) + ")"@,
        where_text(Where::Everyone) == "TRUE"@,
        where_text(Where::Nobody) == "FALSE"@,
{
    reveal_strlit(")");
    let one = |c: Clause| clause_text(c);
    let all = |g: Seq<Clause>| group_text(g);
    assert(seq![clause].map_values(one) =~= seq![clause_text(clause)]);
    assert(group.push(clause).map_values(one) =~= group.map_values(one).push(clause_text(clause)));
    lemma_joined_push(group.map_values(one), clause_text(clause), " AND "@);
    assert(seq![group].map_values(all) =~= seq![group_text(group)]);
    assert(groups.push(group).map_values(all) =~= groups.map_values(all).push(group_text(group)));
    lemma_joined_push(groups.map_values(all), group_text(group), " OR "@);
    lemma_joined_push(seq![], clause_text(clause), " AND "@);
    lemma_joined_push(seq![], group_text(group), " OR "@);
    if group.len() > 0 {
        assert(group_text(group).drop_last() =~= "("@ + joined(group.map_values(one), " AND "@));
        assert(group_text(group.push(clause)) =~= group_text(group).drop_last() + " AND "@ + clause_text(clause)
            + ")"@);
    }
    if groups.len() > 0 {
        let before = where_text(Where::Groups(groups));
        assert(before.drop_last() =~= "("@ + joined(groups.map_values(all), " OR "@));
        assert(where_text(Where::Groups(groups.push(group))) =~= before.drop_last() + " OR "@ + group_text(group)
            + ")"@);
    }
}

proof fn lemma_joined_push(parts: Seq<Seq<char>>, part: Seq<char>, sep: Seq<char>)
    ensures
        joined(parts.push(part), sep) == (if parts.len() == 0 {
            part
        } else {
            joined(parts, sep) + sep + part
        }),
{
    assert(parts.push(part).drop_last() =~= parts);
}

} // verus!
