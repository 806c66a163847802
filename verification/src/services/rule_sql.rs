//! A rule as a WHERE clause, so that the database finds whom it holds of.
//!
//! The clause speaks of two aliases that the statement around it provides: `ku`, the accounts, and
//! `cr`, the channel relations, joined so that an account without one still has a row.

use vstd::prelude::*;
use vstd::string::*;

use crate::json::{jsons, Json, JsonView};
use crate::models::condition::{Condition, ConditionOperator, ConditionTarget, ConditionView};
use crate::models::rule::{ConditionGroup, RuleTree, RuleView};
use crate::text::{chars_of, decimal, decimal_of, join, joined, texts};

verus! {

/// A value bound to a parameter of the clause.
#[derive(Debug, Clone)]
pub enum Bind {
    Bool(bool),
    Int(i64),
    Text(String),
    TextArray(Vec<String>),
}

/// What a bound value is.
pub enum BindView {
    Bool(bool),
    Int(i64),
    Text(Seq<char>),
    TextArray(Seq<Seq<char>>),
}

impl View for Bind {
    type V = BindView;

    open spec fn view(&self) -> BindView {
        match *self {
            Bind::Bool(b) => BindView::Bool(b),
            Bind::Int(n) => BindView::Int(n),
            Bind::Text(s) => BindView::Text(s@),
            Bind::TextArray(a) => BindView::TextArray(texts(a@)),
        }
    }
}

/// What a list of bound values is.
pub open spec fn bound(binds: Seq<Bind>) -> Seq<BindView> {
    binds.map_values(|b: Bind| b@)
}

/// An order between two numbers.
pub enum Comparison {
    Greater,
    AtLeast,
    Less,
    AtMost,
}

/// A predicate on the column of a target; the numbers are those of the parameters it speaks of.
pub enum Clause {
    /// No row passes.
    Never,
    /// `IS NOT NULL`
    Present { target: ConditionTarget },
    /// `=`
    Equal { target: ConditionTarget, at: nat },
    /// `<>`
    Unequal { target: ConditionTarget, at: nat },
    /// `IS DISTINCT FROM`
    Distinct { target: ConditionTarget, at: nat },
    /// `>`, `>=`, `<`, `<=`
    Compare { target: ConditionTarget, by: Comparison, at: nat },
    /// `>=` the one and `<=` the other.
    Within { target: ConditionTarget, low: nat, high: nat },
    /// `LIKE`
    Like { target: ConditionTarget, at: nat },
    /// `~`
    Matches { target: ConditionTarget, at: nat },
    /// `= ANY`
    OneOf { target: ConditionTarget, at: nat },
    /// Set, and `<> ALL`
    NoneOf { target: ConditionTarget, at: nat },
}

/// The WHERE clause of a rule.
pub enum Where {
    Everyone,
    Nobody,
    /// Any of the groups; of a group, all its clauses, and no row where it has none.
    Groups(Seq<Seq<Clause>>),
}

/// The strings of an array.
pub open spec fn strings_in(items: Seq<JsonView>) -> Seq<Seq<char>>
    decreases items.len(),
{
    if items.len() == 0 {
        seq![]
    } else {
        match items.last() {
            JsonView::Str(s) => strings_in(items.drop_last()).push(s),
            _ => strings_in(items.drop_last()),
        }
    }
}

/// The strings that a condition lists.
pub open spec fn listed(c: ConditionView) -> Seq<Seq<char>> {
    match c.value {
        JsonView::Array(a) => strings_in(a),
        _ => seq![],
    }
}

/// `s` with a backslash before each character that a LIKE pattern gives a meaning.
pub open spec fn escaped(s: Seq<char>) -> Seq<char>
    decreases s.len(),
{
    if s.len() == 0 {
        seq![]
    } else if s.last() == '\\' || s.last() == '%' || s.last() == '_' {
        escaped(s.drop_last()).push('\\').push(s.last())
    } else {
        escaped(s.drop_last()).push(s.last())
    }
}

/// The number that a condition compares with, 0 where it has none.
pub open spec fn number_or_zero(v: JsonView) -> i64 {
    match v {
        JsonView::Int(n) => n,
        _ => 0,
    }
}

/// The upper bound of a range, where the condition has one.
pub open spec fn upper_bound(c: ConditionView) -> Option<i64> {
    match c.value_end {
        Some(JsonView::Int(n)) => Some(n),
        _ => None,
    }
}

/// The text that a condition compares with, empty where it has none.
pub open spec fn text_or_empty(v: JsonView) -> Seq<char> {
    match v {
        JsonView::Str(s) => s,
        _ => seq![],
    }
}

/// The values that a condition binds, in the order of their parameters.
pub open spec fn binds_of(c: ConditionView) -> Seq<BindView> {
    match c.operator {
        ConditionOperator::Eq => match c.value {
            JsonView::Bool(b) => seq![BindView::Bool(b)],
            JsonView::Int(n) => seq![BindView::Int(n)],
            _ => seq![BindView::Text(text_or_empty(c.value))],
        },
        ConditionOperator::Neq => match c.value {
            JsonView::Int(n) => seq![BindView::Int(n)],
            _ => seq![BindView::Text(text_or_empty(c.value))],
        },
        ConditionOperator::Gt
        | ConditionOperator::Gte
        | ConditionOperator::Lt
        | ConditionOperator::Lte => seq![BindView::Int(number_or_zero(c.value))],
        ConditionOperator::Between => match upper_bound(c) {
            Some(high) => seq![BindView::Int(number_or_zero(c.value)), BindView::Int(high)],
            None => seq![],
        },
        ConditionOperator::Contains => seq![
            BindView::Text(seq!['%'] + escaped(text_or_empty(c.value)) + seq!['%']),
        ],
        ConditionOperator::Regex => seq![BindView::Text(text_or_empty(c.value))],
        ConditionOperator::In | ConditionOperator::NotIn => if listed(c).len() == 0 {
            seq![]
        } else {
            seq![BindView::TextArray(listed(c))]
        },
    }
}

/// The predicate that a condition becomes where `before` parameters come before its own. A range
/// without an upper bound holds of nobody, and a text that is not set is in none of no strings
/// either.
pub open spec fn clause_of(c: ConditionView, before: nat) -> Clause {
    let target = c.target;
    let at = before + 1;
    match c.operator {
        ConditionOperator::Eq => Clause::Equal { target, at },
        ConditionOperator::Neq => if c.value is Int {
            Clause::Unequal { target, at }
        } else {
            Clause::Distinct { target, at }
        },
        ConditionOperator::Gt => Clause::Compare { target, by: Comparison::Greater, at },
        ConditionOperator::Gte => Clause::Compare { target, by: Comparison::AtLeast, at },
        ConditionOperator::Lt => Clause::Compare { target, by: Comparison::Less, at },
        ConditionOperator::Lte => Clause::Compare { target, by: Comparison::AtMost, at },
        ConditionOperator::Between => if upper_bound(c) is None {
            Clause::Never
        } else {
            Clause::Within { target, low: at, high: before + 2 }
        },
        ConditionOperator::Contains => Clause::Like { target, at },
        ConditionOperator::Regex => Clause::Matches { target, at },
        ConditionOperator::In => if listed(c).len() == 0 {
            Clause::Never
        } else {
            Clause::OneOf { target, at }
        },
        ConditionOperator::NotIn => if listed(c).len() == 0 {
            Clause::Present { target }
        } else {
            Clause::NoneOf { target, at }
        },
    }
}

/// The values that a group's conditions bind.
pub open spec fn group_binds(g: Seq<ConditionView>) -> Seq<BindView>
    decreases g.len(),
{
    if g.len() == 0 {
        seq![]
    } else {
        group_binds(g.drop_last()) + binds_of(g.last())
    }
}

/// The values that the groups' conditions bind.
pub open spec fn groups_binds(groups: Seq<Seq<ConditionView>>) -> Seq<BindView>
    decreases groups.len(),
{
    if groups.len() == 0 {
        seq![]
    } else {
        groups_binds(groups.drop_last()) + group_binds(groups.last())
    }
}

/// The values that a rule's clause binds.
pub open spec fn rule_binds(tree: RuleView) -> Seq<BindView> {
    if tree.grant_on_any_relation {
        seq![]
    } else {
        groups_binds(tree.groups)
    }
}

/// The predicates of a group where `before` parameters come before its own.
pub open spec fn group_clauses(g: Seq<ConditionView>, before: nat) -> Seq<Clause> {
    Seq::new(g.len(), |i: int| clause_of(g[i], before + group_binds(g.take(i)).len()))
}

/// The clause of a rule where `offset` parameters come before its own. A rule without groups holds
/// of nobody.
pub open spec fn where_of(tree: RuleView, offset: nat) -> Where {
    if tree.grant_on_any_relation {
        Where::Everyone
    } else if tree.groups.len() == 0 {
        Where::Nobody
    } else {
        Where::Groups(
            Seq::new(
                tree.groups.len(),
                |i: int| group_clauses(tree.groups[i], offset + groups_binds(tree.groups.take(i)).len()),
            ),
        )
    }
}

/// The expression for a target.
pub open spec fn expr_text(target: ConditionTarget) -> Seq<char> {
    match target {
        ConditionTarget::IsFollower => "COALESCE(cr.is_follower, false)"@,
        ConditionTarget::FollowAgeDays => "FLOOR(EXTRACT(EPOCH FROM (now() - cr.followed_at)) / 86400)"@,
        ConditionTarget::IsSubscriber => "COALESCE(cr.is_subscriber, false)"@,
        ConditionTarget::SubMonthsCumulative => "COALESCE(cr.sub_months_cumulative, 0)"@,
        ConditionTarget::SubStreakMonths => "COALESCE(cr.sub_streak_months, 0)"@,
        ConditionTarget::IsGiftRecipient => "COALESCE(cr.sub_is_gift, false)"@,
        ConditionTarget::GiftedSubsGiven => "COALESCE(cr.gifted_subs_given, 0)"@,
        ConditionTarget::IsVip => "COALESCE(cr.is_vip, false)"@,
        ConditionTarget::IsModerator => "COALESCE(cr.is_moderator, false)"@,
        ConditionTarget::KicksDonatedToChannel => "COALESCE(cr.kicks_donated, 0)"@,
        ConditionTarget::ChatMessages30d => "COALESCE(cr.chat_messages_30d, 0)"@,
        ConditionTarget::IsOg => "COALESCE(ku.is_og, false)"@,
        ConditionTarget::AccountAgeDays => "FLOOR(EXTRACT(EPOCH FROM (now() - ku.kick_created_at)) / 86400)"@,
        ConditionTarget::CountryCode => "ku.country_code"@,
        ConditionTarget::Username => "ku.kick_username"@,
    }
}

/// The sign of an order.
pub open spec fn sign_text(by: Comparison) -> Seq<char> {
    match by {
        Comparison::Greater => ") > $"@,
        Comparison::AtLeast => ") >= $"@,
        Comparison::Less => ") < $"@,
        Comparison::AtMost => ") <= $"@,
    }
}

/// The text of a predicate.
pub open spec fn clause_text(clause: Clause) -> Seq<char> {
    match clause {
        Clause::Never => "FALSE"@,
        Clause::Present { target } => expr_text(target) + " IS NOT NULL"@,
        Clause::Equal { target, at } => expr_text(target) + " = $"@ + decimal(at),
        Clause::Unequal { target, at } => expr_text(target) + " <> $"@ + decimal(at),
        Clause::Distinct { target, at } => expr_text(target) + " IS DISTINCT FROM $"@ + decimal(at),
        Clause::Compare { target, by, at } => "("@ + expr_text(target) + sign_text(by) + decimal(at),
        Clause::Within { target, low, high } => "(("@ + expr_text(target) + ") >= $"@ + decimal(low)
            + " AND ("@ + expr_text(target) + ") <= $"@ + decimal(high) + ")"@,
        Clause::Like { target, at } => expr_text(target) + " LIKE $"@ + decimal(at),
        Clause::Matches { target, at } => expr_text(target) + " ~ $"@ + decimal(at),
        Clause::OneOf { target, at } => expr_text(target) + " = ANY($"@ + decimal(at) + "::text[])"@,
        Clause::NoneOf { target, at } => "("@ + expr_text(target) + " IS NOT NULL AND "@ + expr_text(target)
            + " <> ALL($"@ + decimal(at) + "::text[]))"@,
    }
}

/// The text of a group.
pub open spec fn group_text(clauses: Seq<Clause>) -> Seq<char> {
    if clauses.len() == 0 {
        "FALSE"@
    } else {
        "("@ + joined(clauses.map_values(|c: Clause| clause_text(c)), " AND "@) + ")"@
    }
}

/// The text of a WHERE clause.
pub open spec fn where_text(w: Where) -> Seq<char> {
    match w {
        Where::Everyone => "TRUE"@,
        Where::Nobody => "FALSE"@,
        Where::Groups(groups) => "("@ + joined(
            groups.map_values(|g: Seq<Clause>| group_text(g)),
            " OR "@,
        ) + ")"@,
    }
}

/// The expression for a target.
fn target_expr(target: ConditionTarget) -> (r: &'static str)
    ensures
        r@ == expr_text(target),
{
    match target {
        ConditionTarget::IsFollower => "COALESCE(cr.is_follower, false)",
        ConditionTarget::FollowAgeDays => "FLOOR(EXTRACT(EPOCH FROM (now() - cr.followed_at)) / 86400)",
        ConditionTarget::IsSubscriber => "COALESCE(cr.is_subscriber, false)",
        ConditionTarget::SubMonthsCumulative => "COALESCE(cr.sub_months_cumulative, 0)",
        ConditionTarget::SubStreakMonths => "COALESCE(cr.sub_streak_months, 0)",
        ConditionTarget::IsGiftRecipient => "COALESCE(cr.sub_is_gift, false)",
        ConditionTarget::GiftedSubsGiven => "COALESCE(cr.gifted_subs_given, 0)",
        ConditionTarget::IsVip => "COALESCE(cr.is_vip, false)",
        ConditionTarget::IsModerator => "COALESCE(cr.is_moderator, false)",
        ConditionTarget::KicksDonatedToChannel => "COALESCE(cr.kicks_donated, 0)",
        ConditionTarget::ChatMessages30d => "COALESCE(cr.chat_messages_30d, 0)",
        ConditionTarget::IsOg => "COALESCE(ku.is_og, false)",
        ConditionTarget::AccountAgeDays => "FLOOR(EXTRACT(EPOCH FROM (now() - ku.kick_created_at)) / 86400)",
        ConditionTarget::CountryCode => "ku.country_code",
        ConditionTarget::Username => "ku.kick_username",
    }
}

/// `s` with a backslash before each character that a LIKE pattern gives a meaning.
pub fn escape_like(s: &str) -> (r: String)
    ensures
        r@ == escaped(s@),
{
    let chars = chars_of(s);
    let mut r = String::new();
    let mut i: usize = 0;
    while i < chars.len()
        invariant
            i <= chars.len(),
            chars@ == s@,
            r@ == escaped(s@.take(i as int)),
        decreases chars.len() - i,
    {
        let c = chars[i];
        proof {
            assert(s@.take(i + 1).drop_last() =~= s@.take(i as int));
            assert(s@.take(i + 1).last() == c);
        }
        if c == '\\' || c == '%' || c == '_' {
            r.push('\\');
        }
        r.push(c);
        i = i + 1;
    }
    assert(s@.take(i as int) =~= s@);
    r
}

/// The strings that a condition lists.
fn str_array(c: &Condition) -> (r: Vec<String>)
    ensures
        texts(r@) == listed(c@),
{
    let mut r: Vec<String> = Vec::new();
    if let Some(items) = c.value.as_array() {
        let ghost all = c@.value->Array_0;
        let mut i: usize = 0;
        while i < items.len()
            invariant
                i <= items.len(),
                all == jsons(items@),
                texts(r@) == strings_in(all.take(i as int)),
            decreases items.len() - i,
        {
            proof {
                assert(all.take(i + 1).drop_last() =~= all.take(i as int));
                assert(all.take(i + 1).last() == items@[i as int]@);
            }
            if let Some(s) = items[i].as_str() {
                let ghost before = r@;
                r.push(s.to_owned());
                assert(texts(r@) =~= texts(before).push(s@));
            }
            i = i + 1;
        }
        assert(all.take(i as int) =~= all);
    }
    assert(c.value@ !is Array ==> texts(r@) =~= seq![]);
    r
}

/// Appends the value to the bound ones.
fn bind(binds: &mut Vec<Bind>, value: Bind)
    ensures
        final(binds).len() == old(binds).len() + 1,
        bound(final(binds)@) == bound(old(binds)@).push(value@),
{
    binds.push(value);
    assert(bound(binds@) =~= bound(old(binds)@).push(value@));
}

/// The text of a JSON string, empty where the value is none.
fn text_of(value: &Json) -> (r: String)
    ensures
        r@ == text_or_empty(value@),
{
    match value.as_str() {
        Some(s) => s.to_owned(),
        None => {
            let r = String::new();
            assert(r@ =~= text_or_empty(value@));
            r
        },
    }
}

/// The predicate that a condition becomes; its values are appended to `binds`.
fn build_condition(c: &Condition, bind_offset: usize, binds: &mut Vec<Bind>) -> (r: String)
    requires
        bind_offset + old(binds).len() + binds_of(c@).len() <= usize::MAX,
    ensures
        r@ == clause_text(clause_of(c@, (bind_offset + old(binds).len()) as nat)),
        bound(final(binds)@) == bound(old(binds)@) + binds_of(c@),
{
    let expr = target_expr(c.target);
    let ghost before = bound(binds@);
    let listed_ones = str_array(c);
    match c.operator {
        ConditionOperator::In => {
            if listed_ones.len() == 0 {
                assert(listed(c@).len() == 0);
                assert(before + binds_of(c@) =~= before);
                return "FALSE".to_owned();
            }
        },
        ConditionOperator::NotIn => {
            if listed_ones.len() == 0 {
                assert(listed(c@).len() == 0);
                assert(before + binds_of(c@) =~= before);
                return expr.to_owned().concat(" IS NOT NULL");
            }
        },
        _ => {},
    }
    let end: Option<i64> = match &c.value_end {
        Some(end) => end.as_i64(),
        None => None,
    };
    if matches!(c.operator, ConditionOperator::Between) && end.is_none() {
        assert(before + binds_of(c@) =~= before);
        return "FALSE".to_owned();
    }
    let ghost some_listed = listed(c@).len() > 0;
    assert(some_listed == (texts(listed_ones@).len() > 0));
    assert(binds_of(c@).len() >= 1);
    let at: usize = bind_offset + binds.len() + 1;
    let n = decimal_of(at as u64);
    let n = n.as_str();
    match c.operator {
        ConditionOperator::Eq => {
            if let Some(b) = c.value.as_bool() {
                bind(binds, Bind::Bool(b));
            } else if let Some(v) = c.value.as_i64() {
                bind(binds, Bind::Int(v));
            } else {
                bind(binds, Bind::Text(text_of(&c.value)));
            }
            assert(bound(binds@) =~= before + binds_of(c@));
            expr.to_owned().concat(" = $").concat(n)
        },
        ConditionOperator::Neq => {
            if let Some(v) = c.value.as_i64() {
                bind(binds, Bind::Int(v));
                assert(bound(binds@) =~= before + binds_of(c@));
                expr.to_owned().concat(" <> $").concat(n)
            } else {
                bind(binds, Bind::Text(text_of(&c.value)));
                assert(bound(binds@) =~= before + binds_of(c@));
                expr.to_owned().concat(" IS DISTINCT FROM $").concat(n)
            }
        },
        ConditionOperator::Gt
        | ConditionOperator::Gte
        | ConditionOperator::Lt
        | ConditionOperator::Lte => {
            let v: i64 = match c.value.as_i64() {
                Some(v) => v,
                None => 0,
            };
            bind(binds, Bind::Int(v));
            assert(bound(binds@) =~= before + binds_of(c@));
            let sign = match c.operator {
                ConditionOperator::Gt => ") > $",
                ConditionOperator::Gte => ") >= $",
                ConditionOperator::Lt => ") < $",
                _ => ") <= $",
            };
            "(".to_owned().concat(expr).concat(sign).concat(n)
        },
        ConditionOperator::Between => {
            let low: i64 = match c.value.as_i64() {
                Some(v) => v,
                None => 0,
            };
            let high: i64 = end.unwrap();
            bind(binds, Bind::Int(low));
            let next: usize = bind_offset + binds.len() + 1;
            bind(binds, Bind::Int(high));
            assert(bound(binds@) =~= before + binds_of(c@));
            let m = decimal_of(next as u64);
            "((".to_owned().concat(expr).concat(") >= $").concat(n).concat(" AND (").concat(expr).concat(
                ") <= $",
            ).concat(m.as_str()).concat(")")
        },
        ConditionOperator::Contains => {
            let v = text_of(&c.value);
            let pattern = {
                let mut p = String::new();
                p.push('%');
                let e = escape_like(v.as_str());
                p.append(e.as_str());
                p.push('%');
                p
            };
            assert(pattern@ =~= seq!['%'] + escaped(text_or_empty(c.value@)) + seq!['%']);
            bind(binds, Bind::Text(pattern));
            assert(bound(binds@) =~= before + binds_of(c@));
            expr.to_owned().concat(" LIKE $").concat(n)
        },
        ConditionOperator::Regex => {
            bind(binds, Bind::Text(text_of(&c.value)));
            assert(bound(binds@) =~= before + binds_of(c@));
            expr.to_owned().concat(" ~ $").concat(n)
        },
        ConditionOperator::In => {
            bind(binds, Bind::TextArray(listed_ones));
            assert(bound(binds@) =~= before + binds_of(c@));
            expr.to_owned().concat(" = ANY($").concat(n).concat("::text[])")
        },
        ConditionOperator::NotIn => {
            bind(binds, Bind::TextArray(listed_ones));
            assert(bound(binds@) =~= before + binds_of(c@));
            "(".to_owned().concat(expr).concat(" IS NOT NULL AND ").concat(expr).concat(" <> ALL($").concat(
                n,
            ).concat("::text[]))")
        },
    }
}

proof fn lemma_group_binds_grow(g: Seq<ConditionView>, i: int)
    requires
        0 <= i <= g.len(),
    ensures
        group_binds(g.take(i)).len() <= group_binds(g).len(),
    decreases g.len() - i,
{
    if i < g.len() {
        lemma_group_binds_grow(g, i + 1);
        assert(g.take(i + 1).drop_last() =~= g.take(i));
    } else {
        assert(g.take(i) =~= g);
    }
}

proof fn lemma_groups_binds_grow(groups: Seq<Seq<ConditionView>>, i: int)
    requires
        0 <= i <= groups.len(),
    ensures
        groups_binds(groups.take(i)).len() <= groups_binds(groups).len(),
    decreases groups.len() - i,
{
    if i < groups.len() {
        lemma_groups_binds_grow(groups, i + 1);
        assert(groups.take(i + 1).drop_last() =~= groups.take(i));
    } else {
        assert(groups.take(i) =~= groups);
    }
}

/// The text of a group; its values are appended to `binds`.
fn build_group(group: &ConditionGroup, bind_offset: usize, binds: &mut Vec<Bind>) -> (r: String)
    requires
        bind_offset + old(binds).len() + group_binds(group@).len() <= usize::MAX,
    ensures
        r@ == group_text(group_clauses(group@, (bind_offset + old(binds).len()) as nat)),
        bound(final(binds)@) == bound(old(binds)@) + group_binds(group@),
{
    let ghost before = bound(binds@);
    let ghost g = group@;
    let ghost clauses = group_clauses(g, (bind_offset + binds.len()) as nat);
    let ghost wanted = clauses.map_values(|c: Clause| clause_text(c));
    if group.conditions.len() == 0 {
        assert(before + group_binds(g) =~= before);
        return "FALSE".to_owned();
    }
    let mut cond_clauses: Vec<String> = Vec::new();
    let mut i: usize = 0;
    while i < group.conditions.len()
        invariant
            i <= group.conditions.len(),
            g == group@,
            g.len() == group.conditions.len(),
            forall|j: int| 0 <= j < group.conditions.len() ==> #[trigger] g[j] == group.conditions@[j]@,
            before == bound(old(binds)@),
            bind_offset + before.len() + group_binds(g).len() <= usize::MAX,
            bound(binds@) == before + group_binds(g.take(i as int)),
            clauses == group_clauses(g, bind_offset as nat + before.len()),
            wanted == clauses.map_values(|c: Clause| clause_text(c)),
            texts(cond_clauses@) == wanted.take(i as int),
        decreases group.conditions.len() - i,
    {
        proof {
            lemma_group_binds_grow(g, i + 1);
            assert(g.take(i + 1).drop_last() =~= g.take(i as int));
            assert(g.take(i + 1).last() == g[i as int]);
            assert(g[i as int] == group.conditions@[i as int]@);
            assert(bound(binds@).len() == binds.len());
        }
        let ghost so_far = bound(binds@);
        let ghost texts_so_far = cond_clauses@;
        let text = build_condition(&group.conditions[i], bind_offset, binds);
        proof {
            assert(clauses[i as int] == clause_of(g[i as int], (bind_offset + so_far.len()) as nat));
            assert(text@ == wanted[i as int]);
            assert(bound(binds@) =~= before + group_binds(g.take(i + 1)));
        }
        cond_clauses.push(text);
        assert(texts(cond_clauses@) =~= texts(texts_so_far).push(text@));
        assert(texts(cond_clauses@) =~= wanted.take(i + 1));
        i = i + 1;
    }
    proof {
        assert(g.take(i as int) =~= g);
        assert(wanted.take(i as int) =~= wanted);
    }
    let all = join(&cond_clauses, " AND ");
    "(".to_owned().concat(all.as_str()).concat(")")
}

/// The rule as a WHERE clause, and the values that it binds. Its parameters are numbered from
/// `bind_offset + 1`.
pub fn build_rule_where(tree: &RuleTree, bind_offset: usize) -> (r: (String, Vec<Bind>))
    requires
        bind_offset + rule_binds(tree@).len() <= usize::MAX,
    ensures
        r.0@ == where_text(where_of(tree@, bind_offset as nat)),
        bound(r.1@) == rule_binds(tree@),
{
    let mut binds: Vec<Bind> = Vec::new();
    assert(bound(binds@) =~= seq![]);
    if tree.grant_on_any_relation {
        return ("TRUE".to_owned(), binds);
    }
    if tree.groups.len() == 0 {
        return ("FALSE".to_owned(), binds);
    }
    let ghost groups = tree@.groups;
    let ghost clauses = where_of(tree@, bind_offset as nat)->Groups_0;
    let ghost wanted = clauses.map_values(|g: Seq<Clause>| group_text(g));
    let mut group_texts: Vec<String> = Vec::new();
    let mut i: usize = 0;
    while i < tree.groups.len()
        invariant
            i <= tree.groups.len(),
            groups == tree@.groups,
            !tree@.grant_on_any_relation,
            groups.len() == tree.groups.len(),
            groups.len() > 0,
            forall|j: int| 0 <= j < tree.groups.len() ==> #[trigger] groups[j] == tree.groups@[j]@,
            bind_offset + groups_binds(groups).len() <= usize::MAX,
            bound(binds@) == groups_binds(groups.take(i as int)),
            where_of(tree@, bind_offset as nat) == Where::Groups(clauses),
            wanted == clauses.map_values(|g: Seq<Clause>| group_text(g)),
            texts(group_texts@) == wanted.take(i as int),
        decreases tree.groups.len() - i,
    {
        proof {
            lemma_groups_binds_grow(groups, i + 1);
            assert(groups.take(i + 1).drop_last() =~= groups.take(i as int));
            assert(groups.take(i + 1).last() == groups[i as int]);
            assert(groups[i as int] == tree.groups@[i as int]@);
            assert(bound(binds@).len() == binds.len());
        }
        let ghost texts_so_far = group_texts@;
        let text = build_group(&tree.groups[i], bind_offset, &mut binds);
        assert(text@ == wanted[i as int]);
        group_texts.push(text);
        assert(texts(group_texts@) =~= texts(texts_so_far).push(text@));
        assert(texts(group_texts@) =~= wanted.take(i + 1));
        i = i + 1;
    }
    proof {
        assert(groups.take(i as int) =~= groups);
        assert(wanted.take(i as int) =~= wanted);
    }
    let all = join(&group_texts, " OR ");
    ("(".to_owned().concat(all.as_str()).concat(")"), binds)
}

} // verus!
