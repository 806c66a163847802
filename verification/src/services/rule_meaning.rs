//! What a rule's WHERE clause means on a row, and that it passes whom the rule holds of.

use vstd::prelude::*;

use crate::json::JsonView;
use crate::models::condition::{ConditionOperator, ConditionTarget, ConditionView, TargetKind};
use crate::models::facts::FactsView;
use crate::models::rule::RuleView;
use crate::services::condition_eval::{
    age_days, evaluates, group_holds, lists, regex_match, single_holds, REGEX_LIMIT,
};
use crate::services::rule_sql::{
    binds_of, clause_of, escaped, group_binds, group_clauses, groups_binds, listed, rule_binds, strings_in,
    where_of, BindView, Clause, Comparison, Where,
};
use crate::text::{begins_with, contains_text, occurs_at};
use crate::time::{elapsed_nanos, Timestamp};

verus! {

/// An account's row, joined with its relation to a channel. An account without a relation has no
/// value in the relation's columns.
pub struct JoinedRow {
    pub is_follower: Option<bool>,
    pub followed_at: Option<Timestamp>,
    pub is_subscriber: Option<bool>,
    pub sub_months_cumulative: Option<i32>,
    pub sub_streak_months: Option<i32>,
    pub sub_is_gift: Option<bool>,
    pub gifted_subs_given: Option<i32>,
    pub is_vip: Option<bool>,
    pub is_moderator: Option<bool>,
    pub kicks_donated: Option<i32>,
    pub chat_messages_30d: Option<i32>,
    pub is_og: bool,
    pub kick_created_at: Timestamp,
    pub country_code: Option<Seq<char>>,
    pub kick_username: Seq<char>,
}

/// `COALESCE(column, false)`
pub open spec fn or_false(column: Option<bool>) -> bool {
    match column {
        Some(b) => b,
        None => false,
    }
}

/// `COALESCE(column, 0)`
pub open spec fn or_zero(column: Option<i32>) -> i64 {
    match column {
        Some(n) => n as i64,
        None => 0,
    }
}

impl JoinedRow {
    /// The facts that the row gives.
    pub open spec fn facts(self) -> FactsView {
        FactsView {
            is_follower: or_false(self.is_follower),
            followed_at: self.followed_at,
            is_subscriber: or_false(self.is_subscriber),
            sub_months_cumulative: or_zero(self.sub_months_cumulative),
            sub_streak_months: or_zero(self.sub_streak_months),
            sub_is_gift: or_false(self.sub_is_gift),
            gifted_subs_given: or_zero(self.gifted_subs_given),
            is_vip: or_false(self.is_vip),
            is_moderator: or_false(self.is_moderator),
            kicks_donated: or_zero(self.kicks_donated),
            chat_messages_30d: or_zero(self.chat_messages_30d),
            is_og: self.is_og,
            kick_created_at: Some(self.kick_created_at),
            country_code: self.country_code,
            username: self.kick_username,
        }
    }

    /// Whether the row's instants lie in the past, none within a leap second.
    pub open spec fn past(self, now: Timestamp) -> bool {
        &&& now.nanos < 1_000_000_000
        &&& self.kick_created_at.nanos < 1_000_000_000
        &&& self.kick_created_at.not_after(now)
        &&& self.followed_at is Some ==> {
            &&& self.followed_at->0.nanos < 1_000_000_000
            &&& self.followed_at->0.not_after(now)
        }
    }
}

/// The value of an expression.
pub enum SqlValue {
    Null,
    Bool(bool),
    Number(int),
    Text(Seq<char>),
}

/// `FLOOR(EXTRACT(EPOCH FROM (now() - column)) / 86400)`
pub open spec fn floor_days(column: Option<Timestamp>, now: Timestamp) -> SqlValue {
    match column {
        Some(t) => SqlValue::Number(
            ((now.secs - t.secs) * 1_000_000_000 + (now.nanos - t.nanos)) / 86_400_000_000_000,
        ),
        None => SqlValue::Null,
    }
}

/// The value of a target's expression on a row.
pub open spec fn expr_value(target: ConditionTarget, row: JoinedRow, now: Timestamp) -> SqlValue {
    match target {
        ConditionTarget::IsFollower => SqlValue::Bool(or_false(row.is_follower)),
        ConditionTarget::FollowAgeDays => floor_days(row.followed_at, now),
        ConditionTarget::IsSubscriber => SqlValue::Bool(or_false(row.is_subscriber)),
        ConditionTarget::SubMonthsCumulative => SqlValue::Number(or_zero(row.sub_months_cumulative) as int),
        ConditionTarget::SubStreakMonths => SqlValue::Number(or_zero(row.sub_streak_months) as int),
        ConditionTarget::IsGiftRecipient => SqlValue::Bool(or_false(row.sub_is_gift)),
        ConditionTarget::GiftedSubsGiven => SqlValue::Number(or_zero(row.gifted_subs_given) as int),
        ConditionTarget::IsVip => SqlValue::Bool(or_false(row.is_vip)),
        ConditionTarget::IsModerator => SqlValue::Bool(or_false(row.is_moderator)),
        ConditionTarget::KicksDonatedToChannel => SqlValue::Number(or_zero(row.kicks_donated) as int),
        ConditionTarget::ChatMessages30d => SqlValue::Number(or_zero(row.chat_messages_30d) as int),
        ConditionTarget::IsOg => SqlValue::Bool(row.is_og),
        ConditionTarget::AccountAgeDays => floor_days(Some(row.kick_created_at), now),
        ConditionTarget::CountryCode => match row.country_code {
            Some(s) => SqlValue::Text(s),
            None => SqlValue::Null,
        },
        ConditionTarget::Username => SqlValue::Text(row.kick_username),
    }
}

/// Whether a text is like a pattern, in which `%` stands for any text, `_` for any character, and
/// a backslash takes the meaning from the character behind it.
pub open spec fn like(text: Seq<char>, pattern: Seq<char>) -> bool
    decreases pattern.len(), text.len(),
{
    if pattern.len() == 0 {
        text.len() == 0
    } else if pattern[0] == '%' {
        like(text, pattern.skip(1)) || (text.len() > 0 && like(text.skip(1), pattern))
    } else if text.len() == 0 {
        false
    } else if pattern[0] == '_' {
        like(text.skip(1), pattern.skip(1))
    } else if pattern[0] == '\\' {
        pattern.len() > 1 && text[0] == pattern[1] && like(text.skip(1), pattern.skip(2))
    } else {
        text[0] == pattern[0] && like(text.skip(1), pattern.skip(1))
    }
}

/// `a = b`; unknown where one is not set, or where the two cannot be compared.
pub open spec fn equal(a: SqlValue, b: BindView) -> Option<bool> {
    match (a, b) {
        (SqlValue::Bool(x), BindView::Bool(y)) => Some(x == y),
        (SqlValue::Number(x), BindView::Int(y)) => Some(x == y),
        (SqlValue::Text(x), BindView::Text(y)) => Some(x == y),
        _ => None,
    }
}

/// `a > b` and the like; unknown where one is not set, or where the two cannot be compared.
pub open spec fn compared(a: SqlValue, by: Comparison, b: BindView) -> Option<bool> {
    match (a, b) {
        (SqlValue::Number(x), BindView::Int(y)) => Some(
            match by {
                Comparison::Greater => x > y,
                Comparison::AtLeast => x >= y,
                Comparison::Less => x < y,
                Comparison::AtMost => x <= y,
            },
        ),
        _ => None,
    }
}

/// `a AND b`
pub open spec fn both(a: Option<bool>, b: Option<bool>) -> Option<bool> {
    if a == Some(false) || b == Some(false) {
        Some(false)
    } else if a is None || b is None {
        None
    } else {
        Some(true)
    }
}

/// What a database knows beside the row: the values bound to the parameters after the first
/// `offset`, the instant, and which texts a pattern matches.
pub struct Session {
    pub offset: nat,
    pub binds: Seq<BindView>,
    pub now: Timestamp,
    pub matches: spec_fn(Seq<char>, Seq<char>) -> bool,
}

impl Session {
    /// The value of a parameter.
    pub open spec fn param(self, at: nat) -> BindView {
        self.binds[at - self.offset - 1]
    }
}

/// The truth of a predicate on a row.
#[verifier::opaque]
pub open spec fn clause_truth(clause: Clause, row: JoinedRow, s: Session) -> Option<bool> {
    match clause {
        Clause::Never => Some(false),
        Clause::Present { target } => Some(expr_value(target, row, s.now) !is Null),
        Clause::Equal { target, at } => equal(expr_value(target, row, s.now), s.param(at)),
        Clause::Unequal { target, at } => match equal(expr_value(target, row, s.now), s.param(at)) {
            Some(b) => Some(!b),
            None => None,
        },
        Clause::Distinct { target, at } => Some(
            equal(expr_value(target, row, s.now), s.param(at)) != Some(true),
        ),
        Clause::Compare { target, by, at } => compared(expr_value(target, row, s.now), by, s.param(at)),
        Clause::Within { target, low, high } => both(
            compared(expr_value(target, row, s.now), Comparison::AtLeast, s.param(low)),
            compared(expr_value(target, row, s.now), Comparison::AtMost, s.param(high)),
        ),
        Clause::Like { target, at } => match (expr_value(target, row, s.now), s.param(at)) {
            (SqlValue::Text(x), BindView::Text(p)) => Some(like(x, p)),
            _ => None,
        },
        Clause::Matches { target, at } => match (expr_value(target, row, s.now), s.param(at)) {
            (SqlValue::Text(x), BindView::Text(p)) => Some((s.matches)(p, x)),
            _ => None,
        },
        Clause::OneOf { target, at } => match (expr_value(target, row, s.now), s.param(at)) {
            (SqlValue::Text(x), BindView::TextArray(a)) => Some(a.contains(x)),
            _ => None,
        },
        Clause::NoneOf { target, at } => match (expr_value(target, row, s.now), s.param(at)) {
            (SqlValue::Null, _) => Some(false),
            (SqlValue::Text(x), BindView::TextArray(a)) => Some(!a.contains(x)),
            _ => None,
        },
    }
}

/// Whether a row passes all the predicates of a group.
pub open spec fn group_passes(clauses: Seq<Clause>, row: JoinedRow, s: Session) -> bool {
    clauses.len() > 0 && forall|i: int|
        0 <= i < clauses.len() ==> clause_truth(#[trigger] clauses[i], row, s) == Some(true)
}

/// Whether a row passes a WHERE clause.
pub open spec fn passes(w: Where, row: JoinedRow, s: Session) -> bool {
    match w {
        Where::Everyone => true,
        Where::Nobody => false,
        Where::Groups(groups) => exists|i: int|
            0 <= i < groups.len() && group_passes(#[trigger] groups[i], row, s),
    }
}

/// Whether a condition's operator fits its target and its value fits both.
pub open spec fn well_typed(c: ConditionView) -> bool {
    &&& c.operator.fits(c.target.data_kind())
    &&& match c.target.data_kind() {
        TargetKind::Bool => c.value is Bool,
        TargetKind::Int => c.value is Int,
        TargetKind::String => c.operator is In || c.operator is NotIn || c.value is Str,
    }
}

/// Whether every condition of the rule is well typed.
pub open spec fn sound(tree: RuleView) -> bool {
    forall|i: int, j: int|
        0 <= i < tree.groups.len() && 0 <= j < tree.groups[i].len() ==> well_typed(
            #[trigger] tree.groups[i][j],
        )
}

/// Whether no condition of the rule asks for a pattern.
pub open spec fn without_patterns(tree: RuleView) -> bool {
    forall|i: int, j: int|
        0 <= i < tree.groups.len() && 0 <= j < tree.groups[i].len() ==> (
        #[trigger] tree.groups[i][j]).operator !is Regex
}

/// Whether the database's patterns match what the evaluator's match.
pub open spec fn same_dialect(matches: spec_fn(Seq<char>, Seq<char>) -> bool) -> bool {
    forall|p: Seq<char>, t: Seq<char>|
        #[trigger] matches(p, t) == (regex_match(p, REGEX_LIMIT, REGEX_LIMIT, t) == Some(true))
}

proof fn lemma_escaped_front(v: Seq<char>)
    requires
        v.len() > 0,
    ensures
        escaped(v) == escaped(v.take(1)) + escaped(v.skip(1)),
    decreases v.len(),
{
    if v.len() == 1 {
        assert(v.take(1) =~= v);
        assert(escaped(v.skip(1)) =~= seq![]);
    } else {
        lemma_escaped_front(v.drop_last());
        assert(v.drop_last().take(1) =~= v.take(1));
        assert(v.drop_last().skip(1) =~= v.skip(1).drop_last());
        assert(v.skip(1).last() == v.last());
        assert(escaped(v) =~= escaped(v.take(1)) + escaped(v.skip(1)));
    }
}

proof fn lemma_like_any(text: Seq<char>)
    ensures
        like(text, seq!['%']),
    decreases text.len(),
{
    let any: Seq<char> = seq!['%'];
    if text.len() > 0 {
        lemma_like_any(text.skip(1));
    } else {
        assert(any.skip(1) =~= seq![]);
        assert(like(text, any.skip(1)));
    }
}

proof fn lemma_like_begins(text: Seq<char>, v: Seq<char>)
    ensures
        like(text, escaped(v) + seq!['%']) == begins_with(text, v),
    decreases v.len(),
{
    let any: Seq<char> = seq!['%'];
    let pattern = escaped(v) + any;
    if v.len() == 0 {
        assert(pattern =~= any);
        lemma_like_any(text);
        assert(text.subrange(0, 0) =~= v);
    } else {
        let rest = v.skip(1);
        lemma_escaped_front(v);
        lemma_like_begins(text.skip(1), rest);
        let head = escaped(v.take(1));
        reveal_with_fuel(escaped, 2);
        assert(v.take(1).drop_last() =~= seq![]);
        assert(v.take(1).last() == v[0]);
        let tail = escaped(rest) + any;
        assert(pattern =~= head + tail);
        if v[0] == '\\' || v[0] == '%' || v[0] == '_' {
            assert(head =~= seq!['\\', v[0]]);
            assert(pattern.skip(2) =~= tail);
        } else {
            assert(head =~= seq![v[0]]);
            assert(pattern.skip(1) =~= tail);
        }
        if text.len() > 0 {
            assert(like(text, pattern) == (text[0] == v[0] && like(text.skip(1), tail)));
            if begins_with(text, v) {
                assert(text.subrange(0, v.len() as int)[0] == v[0]);
                assert(text.skip(1).subrange(0, rest.len() as int) =~= text.subrange(0, v.len() as int).skip(1));
            }
            if text[0] == v[0] && begins_with(text.skip(1), rest) {
                assert forall|i: int| 0 <= i < v.len() implies text[i] == v[i] by {
                    if i > 0 {
                        assert(text.skip(1).subrange(0, rest.len() as int)[i - 1] == rest[i - 1]);
                    }
                }
                assert(text.subrange(0, v.len() as int) =~= v);
            }
        }
    }
}

/// A text is like a pattern made of any text, an escaped text and any text if and only if it
/// contains the text.
pub proof fn law_like_escaped_is_contains(text: Seq<char>, v: Seq<char>)
    ensures
        like(text, seq!['%'] + escaped(v) + seq!['%']) == contains_text(text, v),
    decreases text.len(),
{
    let any: Seq<char> = seq!['%'];
    let pattern = any + escaped(v) + any;
    assert(pattern[0] == '%');
    assert(pattern.skip(1) =~= escaped(v) + any);
    lemma_like_begins(text, v);
    if text.len() > 0 {
        let rest = text.skip(1);
        law_like_escaped_is_contains(rest, v);
        if contains_text(rest, v) {
            let k = choose|k: int| occurs_at(rest, v, k);
            assert(text.subrange(k + 1, k + 1 + v.len()) =~= rest.subrange(k, k + v.len()));
            assert(occurs_at(text, v, k + 1));
        }
        if contains_text(text, v) && !begins_with(text, v) {
            let k = choose|k: int| occurs_at(text, v, k);
            assert(rest.subrange(k - 1, k - 1 + v.len()) =~= text.subrange(k, k + v.len()));
            assert(occurs_at(rest, v, k - 1));
        }
    } else if contains_text(text, v) {
        let k = choose|k: int| occurs_at(text, v, k);
        assert(occurs_at(text, v, 0));
    }
}

proof fn lemma_strings_in(items: Seq<JsonView>, needle: Seq<char>)
    ensures
        strings_in(items).contains(needle) == (exists|i: int|
            0 <= i < items.len() && #[trigger] items[i] == JsonView::Str(needle)),
    decreases items.len(),
{
    if items.len() > 0 {
        let init = items.drop_last();
        lemma_strings_in(init, needle);
        assert forall|i: int| 0 <= i < init.len() implies #[trigger] init[i] == items[i] by {}
        if strings_in(items).contains(needle) {
            let k = choose|k: int| 0 <= k < strings_in(items).len() && strings_in(items)[k] == needle;
            if k < strings_in(init).len() {
                assert(strings_in(init)[k] == needle);
                let i = choose|i: int| 0 <= i < init.len() && #[trigger] init[i] == JsonView::Str(needle);
                assert(items[i] == JsonView::Str(needle));
            } else {
                assert(items[items.len() - 1] == JsonView::Str(needle));
            }
        }
        if exists|i: int| 0 <= i < items.len() && #[trigger] items[i] == JsonView::Str(needle) {
            let i = choose|i: int| 0 <= i < items.len() && #[trigger] items[i] == JsonView::Str(needle);
            if i < init.len() {
                assert(init[i] == JsonView::Str(needle));
                let k = choose|k: int| 0 <= k < strings_in(init).len() && strings_in(init)[k] == needle;
                assert(strings_in(items)[k] == needle);
            } else {
                assert(strings_in(items)[strings_in(init).len() as int] == needle);
            }
        }
    }
}

proof fn lemma_listed(c: ConditionView, needle: Seq<char>)
    ensures
        listed(c).contains(needle) == lists(c.value, needle),
{
    if let JsonView::Array(a) = c.value {
        lemma_strings_in(a, needle);
    }
}

proof fn lemma_days_agree(row: JoinedRow, now: Timestamp)
    requires
        row.past(now),
    ensures
        floor_days(Some(row.kick_created_at), now) == SqlValue::Number(
            age_days(Some(row.kick_created_at), now)->0,
        ),
        row.followed_at is Some ==> floor_days(row.followed_at, now) == SqlValue::Number(
            age_days(row.followed_at, now)->0,
        ),
{
    assert(elapsed_nanos(now, row.kick_created_at) >= 0);
    if let Some(t) = row.followed_at {
        assert(elapsed_nanos(now, t) >= 0);
    }
}

/// A condition's predicate is true of a row if and only if the condition holds of its facts.
proof fn lemma_clause_agrees(c: ConditionView, before: nat, row: JoinedRow, s: Session)
    requires
        well_typed(c),
        row.past(s.now),
        before >= s.offset,
        before - s.offset + binds_of(c).len() <= s.binds.len(),
        s.binds.subrange(before - s.offset, before - s.offset + binds_of(c).len()) == binds_of(c),
        c.operator is Regex ==> same_dialect(s.matches),
    ensures
        (clause_truth(clause_of(c, before), row, s) == Some(true)) == single_holds(c, row.facts(), s.now),
{
    reveal(single_holds);
    reveal(clause_truth);
    lemma_days_agree(row, s.now);
    let own = s.binds.subrange(before - s.offset, before - s.offset + binds_of(c).len());
    if binds_of(c).len() > 0 {
        assert(own[0] == s.param(before + 1));
    }
    if binds_of(c).len() > 1 {
        assert(own[1] == s.param(before + 2));
    }
    match c.target.data_kind() {
        TargetKind::Bool => {},
        TargetKind::Int => {},
        TargetKind::String => {
            let actual = match c.target {
                ConditionTarget::CountryCode => row.country_code,
                _ => Some(row.kick_username),
            };
            if let Some(a) = actual {
                lemma_listed(c, a);
                match c.operator {
                    ConditionOperator::Contains => {
                        law_like_escaped_is_contains(a, c.value->Str_0);
                    },
                    ConditionOperator::Regex => {
                        assert((s.matches)(c.value->Str_0, a) == (regex_match(
                            c.value->Str_0,
                            REGEX_LIMIT,
                            REGEX_LIMIT,
                            a,
                        ) == Some(true)));
                    },
                    _ => {},
                }
            }
        },
    }
}

proof fn lemma_group_binds_at(g: Seq<ConditionView>, i: int)
    requires
        0 <= i < g.len(),
    ensures
        group_binds(g.take(i)).len() + binds_of(g[i]).len() <= group_binds(g).len(),
        group_binds(g).subrange(
            group_binds(g.take(i)).len() as int,
            (group_binds(g.take(i)).len() + binds_of(g[i]).len()) as int,
        ) == binds_of(g[i]),
    decreases g.len(),
{
    let init = g.drop_last();
    if i == init.len() {
        assert(g.take(i) =~= init);
        assert(group_binds(g).subrange(
            group_binds(init).len() as int,
            (group_binds(init).len() + binds_of(g[i]).len()) as int,
        ) =~= binds_of(g[i]));
    } else {
        lemma_group_binds_at(init, i);
        assert(init.take(i) =~= g.take(i));
        let from = group_binds(g.take(i)).len() as int;
        let to = from + binds_of(g[i]).len();
        assert(group_binds(g).subrange(from, to) =~= group_binds(init).subrange(from, to));
    }
}

proof fn lemma_groups_binds_at(groups: Seq<Seq<ConditionView>>, i: int)
    requires
        0 <= i < groups.len(),
    ensures
        groups_binds(groups.take(i)).len() + group_binds(groups[i]).len() <= groups_binds(groups).len(),
        groups_binds(groups).subrange(
            groups_binds(groups.take(i)).len() as int,
            (groups_binds(groups.take(i)).len() + group_binds(groups[i]).len()) as int,
        ) == group_binds(groups[i]),
    decreases groups.len(),
{
    let init = groups.drop_last();
    if i == init.len() {
        assert(groups.take(i) =~= init);
        assert(groups_binds(groups).subrange(
            groups_binds(init).len() as int,
            (groups_binds(init).len() + group_binds(groups[i]).len()) as int,
        ) =~= group_binds(groups[i]));
    } else {
        lemma_groups_binds_at(init, i);
        assert(init.take(i) =~= groups.take(i));
        let from = groups_binds(groups.take(i)).len() as int;
        let to = from + group_binds(groups[i]).len();
        assert(groups_binds(groups).subrange(from, to) =~= groups_binds(init).subrange(from, to));
    }
}

#[verifier::spinoff_prover]
#[verifier::rlimit(60)]
proof fn lemma_condition_agrees(tree: RuleView, k: int, i: int, row: JoinedRow, s: Session)
    requires
        0 <= k < tree.groups.len(),
        0 <= i < tree.groups[k].len(),
        sound(tree),
        row.past(s.now),
        s.binds == groups_binds(tree.groups),
        without_patterns(tree) || same_dialect(s.matches),
    ensures
        (clause_truth(
            clause_of(
                tree.groups[k][i],
                s.offset + groups_binds(tree.groups.take(k)).len() + group_binds(tree.groups[k].take(i)).len(),
            ),
            row,
            s,
        ) == Some(true)) == single_holds(tree.groups[k][i], row.facts(), s.now),
{
    let g = tree.groups[k];
    let c = tree.groups[k][i];
    let start = groups_binds(tree.groups.take(k)).len();
    let inner = group_binds(g.take(i)).len();
    let count = binds_of(c).len();
    lemma_groups_binds_at(tree.groups, k);
    lemma_group_binds_at(g, i);
    let own = s.binds.subrange(start as int, (start + group_binds(g).len()) as int);
    assert(own == group_binds(g));
    assert(s.binds.subrange((start + inner) as int, (start + inner + count) as int) =~= own.subrange(
        inner as int,
        (inner + count) as int,
    ));
    lemma_clause_agrees(c, s.offset + start + inner, row, s);
}

proof fn lemma_group_agrees(tree: RuleView, k: int, row: JoinedRow, s: Session)
    requires
        0 <= k < tree.groups.len(),
        sound(tree),
        row.past(s.now),
        s.binds == groups_binds(tree.groups),
        without_patterns(tree) || same_dialect(s.matches),
    ensures
        group_passes(
            group_clauses(tree.groups[k], s.offset + groups_binds(tree.groups.take(k)).len()),
            row,
            s,
        ) == group_holds(tree.groups[k], row.facts(), s.now),
{
    let g = tree.groups[k];
    let clauses = group_clauses(g, s.offset + groups_binds(tree.groups.take(k)).len());
    assert forall|i: int| 0 <= i < g.len() implies (clause_truth(#[trigger] clauses[i], row, s) == Some(true))
        == single_holds(g[i], row.facts(), s.now) by {
        lemma_condition_agrees(tree, k, i, row, s);
    }
    if group_passes(clauses, row, s) {
        assert forall|i: int| 0 <= i < g.len() implies single_holds(#[trigger] g[i], row.facts(), s.now) by {
            assert(clause_truth(clauses[i], row, s) == Some(true));
        }
    }
    if group_holds(g, row.facts(), s.now) {
        assert forall|i: int| 0 <= i < clauses.len() implies clause_truth(#[trigger] clauses[i], row, s) == Some(
            true,
        ) by {
            assert(single_holds(g[i], row.facts(), s.now));
        }
    }
}

/// The database and the evaluator agree: where the rule's conditions are well typed and the row's
/// instants lie in the past, the rule's WHERE clause, with the values that it binds, passes a row
/// if and only if the rule holds of the facts that the row gives. A rule with patterns needs a
/// database whose patterns match what the evaluator's match.
pub proof fn law_clause_passes_whom_the_rule_holds_of(
    tree: RuleView,
    row: JoinedRow,
    offset: nat,
    now: Timestamp,
    matches: spec_fn(Seq<char>, Seq<char>) -> bool,
)
    requires
        sound(tree),
        row.past(now),
    ensures
        without_patterns(tree) || same_dialect(matches) ==> passes(
            where_of(tree, offset),
            row,
            (Session { offset, binds: rule_binds(tree), now, matches }),
        ) == evaluates(tree, row.facts(), now),
{
    let s = Session { offset, binds: rule_binds(tree), now, matches };
    if (without_patterns(tree) || same_dialect(matches)) && !tree.grant_on_any_relation && tree.groups.len() > 0 {
        let groups = where_of(tree, offset)->Groups_0;
        assert forall|k: int| 0 <= k < tree.groups.len() implies group_passes(#[trigger] groups[k], row, s)
            == group_holds(tree.groups[k], row.facts(), now) by {
            lemma_group_agrees(tree, k, row, s);
        }
        if passes(where_of(tree, offset), row, s) {
            let k = choose|k: int| 0 <= k < groups.len() && group_passes(#[trigger] groups[k], row, s);
            assert(group_holds(tree.groups[k], row.facts(), now));
        }
        if evaluates(tree, row.facts(), now) {
            let k = choose|k: int|
                0 <= k < tree.groups.len() && group_holds(#[trigger] tree.groups[k], row.facts(), now);
            assert(group_passes(groups[k], row, s));
        }
    }
}

} // verus!
