//! Statements as the database reads them: the columns by name, expressions over them, and updates,
//! each with its text and with what it comes to.

use vstd::prelude::*;

use crate::text::{decimal, joined};
use crate::time::Timestamp;

verus! {

/// The value of an expression.
pub enum SqlValue {
    Null,
    Bool(bool),
    Number(int),
    Text(Seq<char>),
    Time(Timestamp),
}

/// A column.
pub enum Column {
    IsFollower,
    FollowedAt,
    FollowConfirmedAt,
    FollowProbedAt,
    FollowProbeAttemptedAt,
    FollowMissedAt,
    FollowProbeMisses,
    IsSubscriber,
    SubscribedAt,
    SubExpiresAt,
    SubMonthsCumulative,
    SubStreakMonths,
    SubIsGift,
    GiftedSubsGiven,
    IsVip,
    IsModerator,
    IsOg,
    KicksDonated,
    ChatMessages30d,
    LastSeenAt,
    LastSyncedAt,
    KickCreatedAt,
    CountryCode,
    KickUsername,
    IsLive,
    LiveStartedAt,
    LastLiveAt,
    ViewerCount,
    CurrentCategory,
    UpdatedAt,
}

impl Column {
    /// What statements call the column by.
    pub open spec fn name(self) -> Seq<char> {
        match self {
            Column::IsFollower => "is_follower"@,
            Column::FollowedAt => "followed_at"@,
            Column::FollowConfirmedAt => "follow_confirmed_at"@,
            Column::FollowProbedAt => "follow_probed_at"@,
            Column::FollowProbeAttemptedAt => "follow_probe_attempted_at"@,
            Column::FollowMissedAt => "follow_missed_at"@,
            Column::FollowProbeMisses => "follow_probe_misses"@,
            Column::IsSubscriber => "is_subscriber"@,
            Column::SubscribedAt => "subscribed_at"@,
            Column::SubExpiresAt => "sub_expires_at"@,
            Column::SubMonthsCumulative => "sub_months_cumulative"@,
            Column::SubStreakMonths => "sub_streak_months"@,
            Column::SubIsGift => "sub_is_gift"@,
            Column::GiftedSubsGiven => "gifted_subs_given"@,
            Column::IsVip => "is_vip"@,
            Column::IsModerator => "is_moderator"@,
            Column::IsOg => "is_og"@,
            Column::KicksDonated => "kicks_donated"@,
            Column::ChatMessages30d => "chat_messages_30d"@,
            Column::LastSeenAt => "last_seen_at"@,
            Column::LastSyncedAt => "last_synced_at"@,
            Column::KickCreatedAt => "kick_created_at"@,
            Column::CountryCode => "country_code"@,
            Column::KickUsername => "kick_username"@,
            Column::IsLive => "is_live"@,
            Column::LiveStartedAt => "live_started_at"@,
            Column::LastLiveAt => "last_live_at"@,
            Column::ViewerCount => "viewer_count"@,
            Column::CurrentCategory => "current_category"@,
            Column::UpdatedAt => "updated_at"@,
        }
    }
}

/// The table that a column is of.
pub enum Table {
    /// The one that the statement is about.
    Own,
    /// The relations, under the alias `cr`.
    Relation,
    /// The accounts, under the alias `ku`.
    User,
}

impl Table {
    /// How the name of one of its columns begins.
    pub open spec fn alias(self) -> Seq<char> {
        match self {
            Table::Own => seq![],
            Table::Relation => "cr."@,
            Table::User => "ku."@,
        }
    }
}

/// An expression.
pub enum Expr {
    True,
    False,
    Null,
    Now,
    Number(nat),
    Param(nat),
    Column { of: Table, column: Column },
    Coalesce(Box<Expr>, Box<Expr>),
    Coalesce3(Box<Expr>, Box<Expr>, Box<Expr>),
    Greatest(Box<Expr>, Box<Expr>),
    Plus(Box<Expr>, Box<Expr>),
    Or(Box<Expr>, Box<Expr>),
    And(Box<Expr>, Box<Expr>),
    Case(Box<Expr>, Box<Expr>, Box<Expr>),
    Distinct(Box<Expr>, Box<Expr>),
    Less(Box<Expr>, Box<Expr>),
    Equal(Box<Expr>, Box<Expr>),
    IsSet(Box<Expr>),
    Paren(Box<Expr>),
    DaysAgo(nat),
    DaysSince(Box<Expr>),
}

/// A column of the row itself.
#[verifier::inline]
pub open spec fn own(column: Column) -> Expr {
    Expr::Column { of: Table::Own, column }
}

/// A column of the joined relation.
#[verifier::inline]
pub open spec fn of_relation(column: Column) -> Expr {
    Expr::Column { of: Table::Relation, column }
}

/// A column of the joined account.
#[verifier::inline]
pub open spec fn of_user(column: Column) -> Expr {
    Expr::Column { of: Table::User, column }
}

/// `COALESCE(a, b)`
#[verifier::inline]
pub open spec fn coalesce(a: Expr, b: Expr) -> Expr {
    Expr::Coalesce(Box::new(a), Box::new(b))
}

/// `COALESCE(a, b, c)`
#[verifier::inline]
pub open spec fn coalesce_all(a: Expr, b: Expr, c: Expr) -> Expr {
    Expr::Coalesce3(Box::new(a), Box::new(b), Box::new(c))
}

/// `GREATEST(a, b)`
#[verifier::inline]
pub open spec fn greatest(a: Expr, b: Expr) -> Expr {
    Expr::Greatest(Box::new(a), Box::new(b))
}

/// `a + b`
#[verifier::inline]
pub open spec fn plus(a: Expr, b: Expr) -> Expr {
    Expr::Plus(Box::new(a), Box::new(b))
}

/// `a OR b`
#[verifier::inline]
pub open spec fn either(a: Expr, b: Expr) -> Expr {
    Expr::Or(Box::new(a), Box::new(b))
}

/// `a AND b`
#[verifier::inline]
pub open spec fn both(a: Expr, b: Expr) -> Expr {
    Expr::And(Box::new(a), Box::new(b))
}

/// `CASE WHEN a THEN b ELSE c END`
#[verifier::inline]
pub open spec fn case(a: Expr, b: Expr, c: Expr) -> Expr {
    Expr::Case(Box::new(a), Box::new(b), Box::new(c))
}

/// `a IS DISTINCT FROM b`
#[verifier::inline]
pub open spec fn distinct(a: Expr, b: Expr) -> Expr {
    Expr::Distinct(Box::new(a), Box::new(b))
}

/// `a < b`
#[verifier::inline]
pub open spec fn less(a: Expr, b: Expr) -> Expr {
    Expr::Less(Box::new(a), Box::new(b))
}

/// `a = b`
#[verifier::inline]
pub open spec fn equal(a: Expr, b: Expr) -> Expr {
    Expr::Equal(Box::new(a), Box::new(b))
}

/// `a IS NOT NULL`
#[verifier::inline]
pub open spec fn is_set(a: Expr) -> Expr {
    Expr::IsSet(Box::new(a))
}

/// `(a)`
#[verifier::inline]
pub open spec fn paren(a: Expr) -> Expr {
    Expr::Paren(Box::new(a))
}

/// The whole days since `a`.
#[verifier::inline]
pub open spec fn days_since(a: Expr) -> Expr {
    Expr::DaysSince(Box::new(a))
}

/// The text of an expression.
pub open spec fn expr_text(e: Expr) -> Seq<char>
    decreases e,
{
    match e {
        Expr::True => "true"@,
        Expr::False => "false"@,
        Expr::Null => "NULL"@,
        Expr::Now => "now()"@,
        Expr::Number(n) => decimal(n),
        Expr::Param(n) => "$"@ + decimal(n),
        Expr::Column { of, column } => of.alias() + column.name(),
        Expr::Coalesce(a, b) => "COALESCE("@ + expr_text(*a) + ", "@ + expr_text(*b) + ")"@,
        Expr::Coalesce3(a, b, c) => "COALESCE("@ + expr_text(*a) + ", "@ + expr_text(*b) + ", "@ + expr_text(*c)
            + ")"@,
        Expr::Greatest(a, b) => "GREATEST("@ + expr_text(*a) + ", "@ + expr_text(*b) + ")"@,
        Expr::Plus(a, b) => expr_text(*a) + " + "@ + expr_text(*b),
        Expr::Or(a, b) => expr_text(*a) + " OR "@ + expr_text(*b),
        Expr::And(a, b) => expr_text(*a) + " AND "@ + expr_text(*b),
        Expr::Case(a, b, c) => "CASE WHEN "@ + expr_text(*a) + " THEN "@ + expr_text(*b) + " ELSE "@ + expr_text(*c)
            + " END"@,
        Expr::Distinct(a, b) => expr_text(*a) + " IS DISTINCT FROM "@ + expr_text(*b),
        Expr::Less(a, b) => expr_text(*a) + " < "@ + expr_text(*b),
        Expr::Equal(a, b) => expr_text(*a) + " = "@ + expr_text(*b),
        Expr::IsSet(a) => expr_text(*a) + " IS NOT NULL"@,
        Expr::Paren(a) => "("@ + expr_text(*a) + ")"@,
        Expr::DaysAgo(n) => "now() - interval '"@ + decimal(n) + " days'"@,
        Expr::DaysSince(a) => "FLOOR(EXTRACT(EPOCH FROM (now() - "@ + expr_text(*a) + ")) / 86400)"@,
    }
}

/// What an expression is read against: the row's columns, the values bound to the parameters, and
/// the instant.
pub struct Scene {
    pub cell: spec_fn(Table, Column) -> SqlValue,
    pub params: Seq<SqlValue>,
    pub now: Timestamp,
}

/// Whether a value is true.
pub open spec fn holds(v: SqlValue) -> bool {
    v == SqlValue::Bool(true)
}

/// The value of an expression.
pub open spec fn expr_value(e: Expr, s: Scene) -> SqlValue
    decreases e,
{
    match e {
        Expr::True => SqlValue::Bool(true),
        Expr::False => SqlValue::Bool(false),
        Expr::Null => SqlValue::Null,
        Expr::Now => SqlValue::Time(s.now),
        Expr::Number(n) => SqlValue::Number(n as int),
        Expr::Param(n) => s.params[n - 1],
        Expr::Column { of, column } => (s.cell)(of, column),
        Expr::Coalesce(a, b) => if expr_value(*a, s) is Null {
            expr_value(*b, s)
        } else {
            expr_value(*a, s)
        },
        Expr::Coalesce3(a, b, c) => if !(expr_value(*a, s) is Null) {
            expr_value(*a, s)
        } else if !(expr_value(*b, s) is Null) {
            expr_value(*b, s)
        } else {
            expr_value(*c, s)
        },
        Expr::Greatest(a, b) => match (expr_value(*a, s), expr_value(*b, s)) {
            (SqlValue::Number(x), SqlValue::Number(y)) => SqlValue::Number(
                if x >= y {
                    x
                } else {
                    y
                },
            ),
            (SqlValue::Null, y) => y,
            (x, _) => x,
        },
        Expr::Plus(a, b) => match (expr_value(*a, s), expr_value(*b, s)) {
            (SqlValue::Number(x), SqlValue::Number(y)) => SqlValue::Number(x + y),
            _ => SqlValue::Null,
        },
        Expr::Or(a, b) => SqlValue::Bool(holds(expr_value(*a, s)) || holds(expr_value(*b, s))),
        Expr::And(a, b) => SqlValue::Bool(holds(expr_value(*a, s)) && holds(expr_value(*b, s))),
        Expr::Case(a, b, c) => if holds(expr_value(*a, s)) {
            expr_value(*b, s)
        } else {
            expr_value(*c, s)
        },
        Expr::Distinct(a, b) => SqlValue::Bool(expr_value(*a, s) != expr_value(*b, s)),
        Expr::Less(a, b) => match (expr_value(*a, s), expr_value(*b, s)) {
            (SqlValue::Number(x), SqlValue::Number(y)) => SqlValue::Bool(x < y),
            (SqlValue::Time(x), SqlValue::Time(y)) => SqlValue::Bool(!y.not_after(x)),
            _ => SqlValue::Null,
        },
        Expr::Equal(a, b) => if expr_value(*a, s) is Null || expr_value(*b, s) is Null {
            SqlValue::Null
        } else {
            SqlValue::Bool(expr_value(*a, s) == expr_value(*b, s))
        },
        Expr::IsSet(a) => SqlValue::Bool(!(expr_value(*a, s) is Null)),
        Expr::Paren(a) => expr_value(*a, s),
        Expr::DaysAgo(n) => SqlValue::Time(
            Timestamp { secs: (s.now.secs - n * 86_400) as i64, nanos: s.now.nanos },
        ),
        Expr::DaysSince(a) => match expr_value(*a, s) {
            SqlValue::Time(t) => SqlValue::Number(
                ((s.now.secs - t.secs) * 1_000_000_000 + (s.now.nanos - t.nanos)) / 86_400_000_000_000,
            ),
            _ => SqlValue::Null,
        },
    }
}

/// A column and what it is set to.
pub struct Assignment {
    pub column: Column,
    /// The sign between the two, with or without space around it.
    pub sign: Seq<char>,
    pub value: Expr,
}

/// The text of an assignment.
pub open spec fn assignment_text(a: Assignment) -> Seq<char> {
    a.column.name() + a.sign + expr_text(a.value)
}

/// An update of a row.
pub struct Update {
    pub table: Seq<char>,
    pub sets: Seq<Assignment>,
    /// Which row it is.
    pub key: Seq<char>,
    /// What must hold of the row for the update to change it.
    pub only: Option<Expr>,
}

/// The text of an update.
pub open spec fn update_text(u: Update) -> Seq<char> {
    let text = "UPDATE "@ + u.table + " SET "@ + joined(
        u.sets.map_values(|a: Assignment| assignment_text(a)),
        ", "@,
    ) + (" WHERE "@ + u.key);
    match u.only {
        Some(e) => text + (" AND "@ + expr_text(e)),
        None => text,
    }
}

/// Whether an update changes the row.
pub open spec fn runs(u: Update, s: Scene) -> bool {
    match u.only {
        Some(e) => holds(expr_value(e, s)),
        None => true,
    }
}

/// What a column holds once the assignments were made to the row, the last of them first.
pub open spec fn set_to(sets: Seq<Assignment>, column: Column, s: Scene) -> SqlValue
    decreases sets.len(),
{
    if sets.len() == 0 {
        (s.cell)(Table::Own, column)
    } else if sets.last().column == column {
        expr_value(sets.last().value, s)
    } else {
        set_to(sets.drop_last(), column, s)
    }
}

/// What a column holds after an update: where the update changes the row and sets the column, the
/// value of its expression on the row before; else what it held.
pub open spec fn updated_cell(u: Update, column: Column, s: Scene) -> SqlValue {
    if runs(u, s) {
        set_to(u.sets, column, s)
    } else {
        (s.cell)(Table::Own, column)
    }
}

/// Whether an update makes this of a row, column by column.
pub open spec fn brings(u: Update, s: Scene, after: spec_fn(Table, Column) -> SqlValue) -> bool {
    forall|column: Column| #[trigger] updated_cell(u, column, s) == after(Table::Own, column)
}

/// A flag as a value.
pub open spec fn flag(b: bool) -> SqlValue {
    SqlValue::Bool(b)
}

/// An instant as a value.
pub open spec fn time(t: Option<Timestamp>) -> SqlValue {
    match t {
        Some(t) => SqlValue::Time(t),
        None => SqlValue::Null,
    }
}

/// A number as a value.
pub open spec fn number(n: Option<i64>) -> SqlValue {
    match n {
        Some(n) => SqlValue::Number(n as int),
        None => SqlValue::Null,
    }
}

/// Each column has its own name.
pub proof fn law_columns_have_their_names()
    ensures
        Column::IsFollower.name() == "is_follower"@,
        Column::FollowedAt.name() == "followed_at"@,
        Column::FollowConfirmedAt.name() == "follow_confirmed_at"@,
        Column::FollowProbedAt.name() == "follow_probed_at"@,
        Column::FollowProbeAttemptedAt.name() == "follow_probe_attempted_at"@,
        Column::FollowMissedAt.name() == "follow_missed_at"@,
        Column::FollowProbeMisses.name() == "follow_probe_misses"@,
        Column::IsSubscriber.name() == "is_subscriber"@,
        Column::SubscribedAt.name() == "subscribed_at"@,
        Column::SubExpiresAt.name() == "sub_expires_at"@,
        Column::SubMonthsCumulative.name() == "sub_months_cumulative"@,
        Column::SubStreakMonths.name() == "sub_streak_months"@,
        Column::SubIsGift.name() == "sub_is_gift"@,
        Column::GiftedSubsGiven.name() == "gifted_subs_given"@,
        Column::IsVip.name() == "is_vip"@,
        Column::IsModerator.name() == "is_moderator"@,
        Column::IsOg.name() == "is_og"@,
        Column::KicksDonated.name() == "kicks_donated"@,
        Column::ChatMessages30d.name() == "chat_messages_30d"@,
        Column::LastSeenAt.name() == "last_seen_at"@,
        Column::LastSyncedAt.name() == "last_synced_at"@,
        Column::KickCreatedAt.name() == "kick_created_at"@,
        Column::CountryCode.name() == "country_code"@,
        Column::KickUsername.name() == "kick_username"@,
        Column::IsLive.name() == "is_live"@,
        Column::LiveStartedAt.name() == "live_started_at"@,
        Column::LastLiveAt.name() == "last_live_at"@,
        Column::ViewerCount.name() == "viewer_count"@,
        Column::CurrentCategory.name() == "current_category"@,
        Column::UpdatedAt.name() == "updated_at"@,
        Table::Relation.alias() == "cr."@,
        Table::User.alias() == "ku."@,
        Table::Own.alias().len() == 0,
{
}

} // verus!
