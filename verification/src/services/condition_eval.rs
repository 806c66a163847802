//! Whether a rule holds of a viewer's facts.
//!
//! A rule is an OR of AND-groups. Data that is missing holds no condition, with one exception: a
//! text that is not set differs from every other.

use vstd::prelude::*;

use crate::json::{text_opt, Json, JsonView};
use crate::models::condition::{Condition, ConditionOperator, ConditionTarget, ConditionView, TargetKind};
use crate::models::facts::{Facts, FactsView};
use crate::models::rule::{ConditionGroup, RuleTree, RuleView};
use crate::text::{contains, contains_text, occurs_at, str_eq};
use crate::time::{days_between, elapsed_nanos, now, whole_days, Timestamp};

verus! {

/// The most bytes that a compiled pattern, and the cache of its automaton, may take.
pub const REGEX_LIMIT: usize = 1_048_576;

/// Whether a regular expression, compiled within the limits, matches somewhere in a text; none
/// where the pattern does not compile within them.
pub uninterp spec fn regex_match(
    pattern: Seq<char>,
    size_limit: usize,
    dfa_size_limit: usize,
    text: Seq<char>,
) -> Option<bool>;

/// `regex::RegexBuilder::build` with the two limits, then `regex::Regex::is_match`.
#[verifier::external_body]
fn run_regex(pattern: &str, size_limit: usize, dfa_size_limit: usize, text: &str) -> (r: Option<bool>)
    ensures
        r == regex_match(pattern@, size_limit, dfa_size_limit, text@),
{
    match regex::RegexBuilder::new(pattern).size_limit(size_limit).dfa_size_limit(dfa_size_limit).build() {
        Ok(re) => Some(re.is_match(text)),
        Err(_) => None,
    }
}

/// Whether the condition holds of a truth value.
pub open spec fn bool_holds(c: ConditionView, actual: bool) -> bool {
    c.operator is Eq && c.value.bool() == Some(actual)
}

/// Whether the condition holds of a number. It holds of none that is missing.
pub open spec fn int_holds(c: ConditionView, actual: Option<int>) -> bool {
    match (actual, c.value.i64()) {
        (Some(a), Some(n)) => match c.operator {
            ConditionOperator::Eq => a == n,
            ConditionOperator::Neq => a != n,
            ConditionOperator::Gt => a > n,
            ConditionOperator::Gte => a >= n,
            ConditionOperator::Lt => a < n,
            ConditionOperator::Lte => a <= n,
            ConditionOperator::Between => match c.value_end {
                Some(end) => match end.i64() {
                    Some(hi) => n <= a <= hi,
                    None => false,
                },
                None => false,
            },
            _ => false,
        },
        _ => false,
    }
}

/// Whether an array holds the text among its strings.
pub open spec fn lists(value: JsonView, needle: Seq<char>) -> bool {
    match value {
        JsonView::Array(a) => exists|i: int| 0 <= i < a.len() && #[trigger] a[i] == JsonView::Str(needle),
        _ => false,
    }
}

/// Whether the condition holds of a text, given what its pattern's match came to.
pub open spec fn string_holds_given(
    c: ConditionView,
    actual: Option<Seq<char>>,
    matched: Option<bool>,
) -> bool {
    match actual {
        None => c.operator is Neq,
        Some(a) => match c.operator {
            ConditionOperator::Eq => c.value == JsonView::Str(a),
            ConditionOperator::Neq => c.value is Str && c.value != JsonView::Str(a),
            ConditionOperator::Contains => c.value is Str && contains_text(a, c.value->Str_0),
            ConditionOperator::Regex => c.value is Str && matched == Some(true),
            ConditionOperator::In => lists(c.value, a),
            ConditionOperator::NotIn => !lists(c.value, a),
            _ => false,
        },
    }
}

/// What the condition's pattern comes to on a text.
pub open spec fn pattern_match(c: ConditionView, actual: Option<Seq<char>>) -> Option<bool> {
    match (actual, c.value.str()) {
        (Some(a), Some(pattern)) => regex_match(pattern, REGEX_LIMIT, REGEX_LIMIT, a),
        _ => None,
    }
}

/// Whether the condition holds of a text.
pub open spec fn string_holds(c: ConditionView, actual: Option<Seq<char>>) -> bool {
    string_holds_given(c, actual, pattern_match(c, actual))
}

/// The whole days since an instant.
pub open spec fn age_days(ts: Option<Timestamp>, now: Timestamp) -> Option<int> {
    match ts {
        Some(t) => Some(whole_days(now, t)),
        None => None,
    }
}

/// Whether the condition holds of the facts, at the instant `now`.
#[verifier::opaque]
pub open spec fn single_holds(c: ConditionView, f: FactsView, now: Timestamp) -> bool {
    match c.target {
        ConditionTarget::IsFollower => bool_holds(c, f.is_follower),
        ConditionTarget::IsSubscriber => bool_holds(c, f.is_subscriber),
        ConditionTarget::IsGiftRecipient => bool_holds(c, f.sub_is_gift),
        ConditionTarget::IsVip => bool_holds(c, f.is_vip),
        ConditionTarget::IsModerator => bool_holds(c, f.is_moderator),
        ConditionTarget::IsOg => bool_holds(c, f.is_og),
        ConditionTarget::FollowAgeDays => int_holds(c, age_days(f.followed_at, now)),
        ConditionTarget::SubMonthsCumulative => int_holds(c, Some(f.sub_months_cumulative as int)),
        ConditionTarget::SubStreakMonths => int_holds(c, Some(f.sub_streak_months as int)),
        ConditionTarget::GiftedSubsGiven => int_holds(c, Some(f.gifted_subs_given as int)),
        ConditionTarget::KicksDonatedToChannel => int_holds(c, Some(f.kicks_donated as int)),
        ConditionTarget::ChatMessages30d => int_holds(c, Some(f.chat_messages_30d as int)),
        ConditionTarget::AccountAgeDays => int_holds(c, age_days(f.kick_created_at, now)),
        ConditionTarget::CountryCode => string_holds(c, f.country_code),
        ConditionTarget::Username => string_holds(c, Some(f.username)),
    }
}

/// Whether a group holds: it has a condition, and all that it has hold.
pub open spec fn group_holds(g: Seq<ConditionView>, f: FactsView, now: Timestamp) -> bool {
    g.len() > 0 && forall|i: int| 0 <= i < g.len() ==> single_holds(#[trigger] g[i], f, now)
}

/// Whether the rule holds of the facts, at the instant `now`.
pub open spec fn evaluates(tree: RuleView, f: FactsView, now: Timestamp) -> bool {
    tree.grant_on_any_relation || exists|i: int|
        0 <= i < tree.groups.len() && group_holds(#[trigger] tree.groups[i], f, now)
}

/// Whether a condition asks for an age that the facts give.
pub open spec fn asks_age(c: ConditionView, f: FactsView) -> bool {
    ||| c.target is FollowAgeDays && f.followed_at is Some
    ||| c.target is AccountAgeDays && f.kick_created_at is Some
}

/// Whether the clock has a say in whether the rule holds of the facts.
pub open spec fn asks_clock(tree: RuleView, f: FactsView) -> bool {
    exists|i: int, j: int|
        0 <= i < tree.groups.len() && 0 <= j < tree.groups[i].len() && asks_age(
            #[trigger] tree.groups[i][j],
            f,
        )
}

/// A rule that asks for no age that the facts give holds at every instant or at none.
pub proof fn law_without_ages_time_does_not_matter(
    tree: RuleView,
    f: FactsView,
    then: Timestamp,
    now: Timestamp,
)
    requires
        !asks_clock(tree, f),
    ensures
        evaluates(tree, f, then) == evaluates(tree, f, now),
{
    assert forall|i: int| 0 <= i < tree.groups.len() implies group_holds(#[trigger] tree.groups[i], f, then)
        == group_holds(tree.groups[i], f, now) by {
        let g = tree.groups[i];
        assert forall|j: int| 0 <= j < g.len() implies single_holds(#[trigger] g[j], f, then) == single_holds(
            g[j],
            f,
            now,
        ) by {
            reveal(single_holds);
            assert(!asks_age(tree.groups[i][j], f));
        }
    }
    if evaluates(tree, f, then) && !tree.grant_on_any_relation {
        let i = choose|i: int| 0 <= i < tree.groups.len() && group_holds(#[trigger] tree.groups[i], f, then);
        assert(group_holds(tree.groups[i], f, now));
    }
    if evaluates(tree, f, now) && !tree.grant_on_any_relation {
        let i = choose|i: int| 0 <= i < tree.groups.len() && group_holds(#[trigger] tree.groups[i], f, now);
        assert(group_holds(tree.groups[i], f, then));
    }
}

/// A rule that has no groups and does not grant to any linked account holds of nobody.
pub proof fn law_empty_rule_grants_nobody(tree: RuleView, f: FactsView, now: Timestamp)
    requires
        !tree.grant_on_any_relation,
        forall|i: int| 0 <= i < tree.groups.len() ==> (#[trigger] tree.groups[i]).len() == 0,
    ensures
        !evaluates(tree, f, now),
{
}

/// A group more never takes a role away: what the rule held of before, it still holds of.
pub proof fn law_more_groups_grant_more(
    tree: RuleView,
    extra: Seq<ConditionView>,
    f: FactsView,
    now: Timestamp,
)
    requires
        evaluates(tree, f, now),
    ensures
        evaluates(RuleView { groups: tree.groups.push(extra), ..tree }, f, now),
{
    if !tree.grant_on_any_relation {
        let i = choose|i: int| 0 <= i < tree.groups.len() && group_holds(#[trigger] tree.groups[i], f, now);
        let more = RuleView { groups: tree.groups.push(extra), ..tree };
        assert(group_holds(more.groups[i], f, now));
    }
}

/// A condition more never grants a role: what the rule holds of with it, it held of without it,
/// where the condition's group had one before.
pub proof fn law_more_conditions_grant_less(
    tree: RuleView,
    k: int,
    extra: ConditionView,
    f: FactsView,
    now: Timestamp,
)
    requires
        0 <= k < tree.groups.len(),
        tree.groups[k].len() > 0,
        evaluates(RuleView { groups: tree.groups.update(k, tree.groups[k].push(extra)), ..tree }, f, now),
    ensures
        evaluates(tree, f, now),
{
    if !tree.grant_on_any_relation {
        let more = tree.groups.update(k, tree.groups[k].push(extra));
        let i = choose|i: int| 0 <= i < more.len() && group_holds(#[trigger] more[i], f, now);
        let g = tree.groups[i];
        assert forall|j: int| 0 <= j < g.len() implies single_holds(#[trigger] g[j], f, now) by {
            assert(more[i][j] == g[j]);
        }
        assert(group_holds(tree.groups[i], f, now));
    }
}

/// Whether two groups have the same conditions, in whatever order and however often.
pub open spec fn same_conditions(g: Seq<ConditionView>, h: Seq<ConditionView>) -> bool {
    forall|c: ConditionView| #[trigger] g.contains(c) == h.contains(c)
}

/// Whether every group of the one has a group of the other with the same conditions.
pub open spec fn groups_within(a: Seq<Seq<ConditionView>>, b: Seq<Seq<ConditionView>>) -> bool {
    forall|i: int|
        0 <= i < a.len() ==> exists|j: int| 0 <= j < b.len() && same_conditions(#[trigger] a[i], #[trigger] b[j])
}

proof fn lemma_same_conditions_hold_alike(
    g: Seq<ConditionView>,
    h: Seq<ConditionView>,
    f: FactsView,
    now: Timestamp,
)
    requires
        same_conditions(g, h),
        group_holds(g, f, now),
    ensures
        group_holds(h, f, now),
{
    assert(g.contains(g[0]));
    assert(h.contains(g[0]));
    assert forall|j: int| 0 <= j < h.len() implies single_holds(#[trigger] h[j], f, now) by {
        assert(h.contains(h[j]));
        assert(g.contains(h[j]));
        let i = choose|i: int| 0 <= i < g.len() && g[i] == h[j];
        assert(single_holds(g[i], f, now));
    }
}

proof fn lemma_groups_within_grant(a: RuleView, b: RuleView, f: FactsView, now: Timestamp)
    requires
        a.grant_on_any_relation == b.grant_on_any_relation,
        groups_within(a.groups, b.groups),
        evaluates(a, f, now),
    ensures
        evaluates(b, f, now),
{
    if !a.grant_on_any_relation {
        let i = choose|i: int| 0 <= i < a.groups.len() && group_holds(#[trigger] a.groups[i], f, now);
        let j = choose|j: int|
            0 <= j < b.groups.len() && same_conditions(a.groups[i], #[trigger] b.groups[j]);
        lemma_same_conditions_hold_alike(a.groups[i], b.groups[j], f, now);
    }
}

/// The order of a rule's groups, and of the conditions in a group, does not matter, nor does it
/// matter how often one of them is given.
pub proof fn law_order_does_not_matter(a: RuleView, b: RuleView, f: FactsView, now: Timestamp)
    requires
        a.grant_on_any_relation == b.grant_on_any_relation,
        groups_within(a.groups, b.groups),
        groups_within(b.groups, a.groups),
    ensures
        evaluates(a, f, now) == evaluates(b, f, now),
{
    if evaluates(a, f, now) {
        lemma_groups_within_grant(a, b, f, now);
    }
    if evaluates(b, f, now) {
        lemma_groups_within_grant(b, a, f, now);
    }
}

/// The rule that asks one thing only.
pub open spec fn asking(
    target: ConditionTarget,
    operator: ConditionOperator,
    value: JsonView,
    value_end: Option<JsonView>,
) -> RuleView {
    RuleView {
        grant_on_any_relation: false,
        groups: seq![seq![ConditionView { target, operator, value, value_end }]],
    }
}

proof fn lemma_asking(
    target: ConditionTarget,
    operator: ConditionOperator,
    value: JsonView,
    value_end: Option<JsonView>,
    f: FactsView,
    now: Timestamp,
)
    ensures
        evaluates(asking(target, operator, value, value_end), f, now) == single_holds(
            ConditionView { target, operator, value, value_end },
            f,
            now,
        ),
{
    let tree = asking(target, operator, value, value_end);
    let c = ConditionView { target, operator, value, value_end };
    assert(tree.groups[0][0] == c);
    if single_holds(c, f, now) {
        assert(group_holds(tree.groups[0], f, now));
    }
    if evaluates(tree, f, now) {
        let i = choose|i: int| 0 <= i < tree.groups.len() && group_holds(#[trigger] tree.groups[i], f, now);
        assert(single_holds(tree.groups[i][0], f, now));
    }
}

/// Whether a rule that asks for a number of the target compares the viewer's `a` with `n`, and with
/// the range from `n` to `m`, as numbers are compared.
pub open spec fn compares(target: ConditionTarget, a: int, n: i64, m: i64, f: FactsView, now: Timestamp) -> bool {
    let ask = |operator: ConditionOperator| evaluates(asking(target, operator, JsonView::Int(n), None), f, now);
    &&& ask(ConditionOperator::Eq) == (a == n)
    &&& ask(ConditionOperator::Neq) == (a != n)
    &&& ask(ConditionOperator::Lt) == (a < n)
    &&& ask(ConditionOperator::Lte) == (a <= n)
    &&& ask(ConditionOperator::Gt) == (a > n)
    &&& ask(ConditionOperator::Gte) == (a >= n)
    &&& !ask(ConditionOperator::Between)
    &&& evaluates(
        asking(target, ConditionOperator::Between, JsonView::Int(n), Some(JsonView::Int(m))),
        f,
        now,
    ) == (n <= a <= m)
}

proof fn lemma_compares(target: ConditionTarget, a: int, n: i64, m: i64, f: FactsView, now: Timestamp)
    requires
        forall|c: ConditionView| c.target == target ==> #[trigger] single_holds(c, f, now) == int_holds(c, Some(a)),
    ensures
        compares(target, a, n, m, f, now),
{
    assert forall|operator: ConditionOperator| #[trigger] evaluates(
        asking(target, operator, JsonView::Int(n), None),
        f,
        now,
    ) == int_holds(ConditionView { target, operator, value: JsonView::Int(n), value_end: None }, Some(a)) by {
        lemma_asking(target, operator, JsonView::Int(n), None, f, now);
    }
    lemma_asking(target, ConditionOperator::Between, JsonView::Int(n), Some(JsonView::Int(m)), f, now);
}

/// A rule on a count holds of a viewer as numbers compare: below a bound is below it, and so on for
/// every order and every range, and each rule looks at the count that it names.
pub proof fn law_counts_are_compared_as_numbers(f: FactsView, n: i64, m: i64, now: Timestamp)
    ensures
        compares(ConditionTarget::SubMonthsCumulative, f.sub_months_cumulative as int, n, m, f, now),
        compares(ConditionTarget::SubStreakMonths, f.sub_streak_months as int, n, m, f, now),
        compares(ConditionTarget::GiftedSubsGiven, f.gifted_subs_given as int, n, m, f, now),
        compares(ConditionTarget::KicksDonatedToChannel, f.kicks_donated as int, n, m, f, now),
        compares(ConditionTarget::ChatMessages30d, f.chat_messages_30d as int, n, m, f, now),
{
    reveal(single_holds);
    lemma_compares(ConditionTarget::SubMonthsCumulative, f.sub_months_cumulative as int, n, m, f, now);
    lemma_compares(ConditionTarget::SubStreakMonths, f.sub_streak_months as int, n, m, f, now);
    lemma_compares(ConditionTarget::GiftedSubsGiven, f.gifted_subs_given as int, n, m, f, now);
    lemma_compares(ConditionTarget::KicksDonatedToChannel, f.kicks_donated as int, n, m, f, now);
    lemma_compares(ConditionTarget::ChatMessages30d, f.chat_messages_30d as int, n, m, f, now);
}

/// Of two rules on the same number, `lt` and `gte` with the same bound, or `gt` and `lte`, or `eq`
/// and `neq`, exactly one holds wherever the number is known; a larger bound lets through whom a
/// smaller one did.
pub proof fn law_orders_exclude_each_other(target: ConditionTarget, n: i64, m: i64, f: FactsView, now: Timestamp)
    requires
        target.data_kind() is Int,
        n <= m,
        target is FollowAgeDays ==> f.followed_at is Some,
        target is AccountAgeDays ==> f.kick_created_at is Some,
    ensures
        ({
            let ask = |operator: ConditionOperator, bound: i64|
                evaluates(asking(target, operator, JsonView::Int(bound), None), f, now);
            &&& ask(ConditionOperator::Lt, n) != ask(ConditionOperator::Gte, n)
            &&& ask(ConditionOperator::Gt, n) != ask(ConditionOperator::Lte, n)
            &&& ask(ConditionOperator::Eq, n) != ask(ConditionOperator::Neq, n)
            &&& ask(ConditionOperator::Lt, n) ==> ask(ConditionOperator::Lt, m)
            &&& ask(ConditionOperator::Lte, n) ==> ask(ConditionOperator::Lte, m)
            &&& ask(ConditionOperator::Gt, m) ==> ask(ConditionOperator::Gt, n)
            &&& ask(ConditionOperator::Lt, n) ==> ask(ConditionOperator::Lte, n) && ask(ConditionOperator::Neq, n)
            &&& n < m && ask(ConditionOperator::Lte, n) ==> ask(ConditionOperator::Lt, m)
        }),
{
    reveal(single_holds);
    assert forall|bound: i64, operator: ConditionOperator| #[trigger] evaluates(
        asking(target, operator, JsonView::Int(bound), None),
        f,
        now,
    ) == single_holds(ConditionView { target, operator, value: JsonView::Int(bound), value_end: None }, f, now) by {
        lemma_asking(target, operator, JsonView::Int(bound), None, f, now);
    }
}

/// An age is counted in days of 24 hours that have passed in full: a rule that asks for `n` days or
/// more holds from the instant on at which so many have passed, and of nobody whose date is not
/// known. A follow's age runs from the follow, and an account's from its making.
pub proof fn law_ages_are_days_that_have_passed(n: i64, f: FactsView, now: Timestamp)
    requires
        n >= 1,
    ensures
        ({
            let follow = evaluates(
                asking(ConditionTarget::FollowAgeDays, ConditionOperator::Gte, JsonView::Int(n), None),
                f,
                now,
            );
            let account = evaluates(
                asking(ConditionTarget::AccountAgeDays, ConditionOperator::Gte, JsonView::Int(n), None),
                f,
                now,
            );
            &&& follow == (f.followed_at is Some && elapsed_nanos(now, f.followed_at->0) >= n * 86_400_000_000_000)
            &&& account == (f.kick_created_at is Some && elapsed_nanos(now, f.kick_created_at->0) >= n
                * 86_400_000_000_000)
        }),
{
    reveal(single_holds);
    lemma_asking(ConditionTarget::FollowAgeDays, ConditionOperator::Gte, JsonView::Int(n), None, f, now);
    lemma_asking(ConditionTarget::AccountAgeDays, ConditionOperator::Gte, JsonView::Int(n), None, f, now);
}

/// A rule on an age compares the days as numbers, with each order and each range; of a date that is
/// not known no such rule holds.
pub proof fn law_ages_are_compared_as_numbers(
    f: FactsView,
    n: i64,
    m: i64,
    now: Timestamp,
    operator: ConditionOperator,
    value: JsonView,
    end: Option<JsonView>,
)
    ensures
        f.followed_at is Some ==> compares(
            ConditionTarget::FollowAgeDays,
            whole_days(now, f.followed_at->0),
            n,
            m,
            f,
            now,
        ),
        f.kick_created_at is Some ==> compares(
            ConditionTarget::AccountAgeDays,
            whole_days(now, f.kick_created_at->0),
            n,
            m,
            f,
            now,
        ),
        f.followed_at is None ==> !evaluates(asking(ConditionTarget::FollowAgeDays, operator, value, end), f, now),
        f.kick_created_at is None ==> !evaluates(asking(ConditionTarget::AccountAgeDays, operator, value, end), f, now),
{
    reveal(single_holds);
    if let Some(t) = f.followed_at {
        lemma_compares(ConditionTarget::FollowAgeDays, whole_days(now, t), n, m, f, now);
    }
    if let Some(t) = f.kick_created_at {
        lemma_compares(ConditionTarget::AccountAgeDays, whole_days(now, t), n, m, f, now);
    }
    lemma_asking(ConditionTarget::FollowAgeDays, operator, value, end, f, now);
    lemma_asking(ConditionTarget::AccountAgeDays, operator, value, end, f, now);
}

/// A rule on a flag holds of those whose flag is as the rule wants it, and each rule looks at the
/// flag that it names; no other operator and no other value holds of anyone.
pub proof fn law_flags_are_asked_for_by_name(
    f: FactsView,
    now: Timestamp,
    wanted: bool,
    operator: ConditionOperator,
    value: JsonView,
)
    ensures
        ({
            let ask = |target: ConditionTarget|
                evaluates(asking(target, ConditionOperator::Eq, JsonView::Bool(wanted), None), f, now);
            &&& ask(ConditionTarget::IsFollower) == (f.is_follower == wanted)
            &&& ask(ConditionTarget::IsSubscriber) == (f.is_subscriber == wanted)
            &&& ask(ConditionTarget::IsGiftRecipient) == (f.sub_is_gift == wanted)
            &&& ask(ConditionTarget::IsVip) == (f.is_vip == wanted)
            &&& ask(ConditionTarget::IsModerator) == (f.is_moderator == wanted)
            &&& ask(ConditionTarget::IsOg) == (f.is_og == wanted)
        }),
        forall|target: ConditionTarget|
            target.data_kind() is Bool && (!(operator is Eq) || !(value is Bool)) ==> !(#[trigger] evaluates(
                asking(target, operator, value, None),
                f,
                now,
            )),
{
    reveal(single_holds);
    assert forall|target: ConditionTarget| #[trigger] evaluates(
        asking(target, ConditionOperator::Eq, JsonView::Bool(wanted), None),
        f,
        now,
    ) == single_holds(
        ConditionView { target, operator: ConditionOperator::Eq, value: JsonView::Bool(wanted), value_end: None },
        f,
        now,
    ) by {
        lemma_asking(target, ConditionOperator::Eq, JsonView::Bool(wanted), None, f, now);
    }
    assert forall|target: ConditionTarget|
        target.data_kind() is Bool && (!(operator is Eq) || !(value is Bool)) implies !(#[trigger] evaluates(
        asking(target, operator, value, None),
        f,
        now,
    )) by {
        lemma_asking(target, operator, value, None, f, now);
    }
}

/// Whether a rule that asks for a text of the target holds the viewer's `actual` against `s`, and
/// against the strings of a list, as texts are compared.
pub open spec fn reads_text(
    target: ConditionTarget,
    actual: Option<Seq<char>>,
    s: Seq<char>,
    list: Seq<JsonView>,
    f: FactsView,
    now: Timestamp,
) -> bool {
    let ask = |operator: ConditionOperator, value: JsonView| evaluates(asking(target, operator, value, None), f, now);
    &&& ask(ConditionOperator::Eq, JsonView::Str(s)) == (actual == Some(s))
    &&& ask(ConditionOperator::Neq, JsonView::Str(s)) == (actual != Some(s))
    &&& ask(ConditionOperator::Contains, JsonView::Str(s)) == (actual is Some && exists|
        front: Seq<char>,
        back: Seq<char>,
    | actual->0 == #[trigger] (front + s + back))
    &&& ask(ConditionOperator::Regex, JsonView::Str(s)) == (actual is Some && regex_match(
        s,
        1_048_576,
        1_048_576,
        actual->0,
    ) == Some(true))
    &&& ask(ConditionOperator::In, JsonView::Array(list)) == (actual is Some && list.contains(
        JsonView::Str(actual->0),
    ))
    &&& ask(ConditionOperator::NotIn, JsonView::Array(list)) == (actual is Some && !list.contains(
        JsonView::Str(actual->0),
    ))
}

proof fn lemma_reads_text(
    target: ConditionTarget,
    actual: Option<Seq<char>>,
    s: Seq<char>,
    list: Seq<JsonView>,
    f: FactsView,
    now: Timestamp,
)
    requires
        forall|c: ConditionView| c.target == target ==> #[trigger] single_holds(c, f, now) == string_holds(c, actual),
    ensures
        reads_text(target, actual, s, list, f, now),
{
    assert forall|value: JsonView, operator: ConditionOperator| #[trigger] evaluates(
        asking(target, operator, value, None),
        f,
        now,
    ) == string_holds(ConditionView { target, operator, value, value_end: None }, actual) by {
        lemma_asking(target, operator, value, None, f, now);
    }
    if let Some(a) = actual {
        if contains_text(a, s) {
            let k = choose|k: int| occurs_at(a, s, k);
            let front = a.take(k);
            let back = a.skip(k + s.len());
            assert(a =~= front + s + back);
        }
        if exists|front: Seq<char>, back: Seq<char>| a == #[trigger] (front + s + back) {
            let (front, back) = choose|front: Seq<char>, back: Seq<char>| a == #[trigger] (front + s + back);
            assert(a.subrange(front.len() as int, (front.len() + s.len()) as int) =~= s);
            assert(occurs_at(a, s, front.len() as int));
        }
        if list.contains(JsonView::Str(a)) {
            let i = list.index_of(JsonView::Str(a));
            assert(list[i] == JsonView::Str(a));
        }
    }
}

/// A rule on a text holds where the text is the one asked for, is another, holds it, matches it, is
/// on the list or is not on it. A country that is not set differs from every other, and nothing else
/// holds of it.
pub proof fn law_texts_are_read_as_they_stand(f: FactsView, s: Seq<char>, list: Seq<JsonView>, now: Timestamp)
    ensures
        reads_text(ConditionTarget::CountryCode, f.country_code, s, list, f, now),
        reads_text(ConditionTarget::Username, Some(f.username), s, list, f, now),
{
    reveal(single_holds);
    lemma_reads_text(ConditionTarget::CountryCode, f.country_code, s, list, f, now);
    lemma_reads_text(ConditionTarget::Username, Some(f.username), s, list, f, now);
}

/// Whether the condition holds of a truth value.
pub fn bool_match(c: &Condition, actual: bool) -> (r: bool)
    ensures
        r == bool_holds(c@, actual),
{
    if !matches!(c.operator, ConditionOperator::Eq) {
        return false;
    }
    match c.value.as_bool() {
        Some(v) => v == actual,
        None => false,
    }
}

/// A number, where there is one.
pub open spec fn int_opt(n: Option<i64>) -> Option<int> {
    match n {
        Some(v) => Some(v as int),
        None => None,
    }
}

/// Whether the condition holds of a number.
pub fn int_match(c: &Condition, actual: Option<i64>) -> (r: bool)
    ensures
        r == int_holds(c@, int_opt(actual)),
{
    let a: i64 = match actual {
        Some(a) => a,
        None => return false,
    };
    let n: i64 = match c.value.as_i64() {
        Some(n) => n,
        None => return false,
    };
    match c.operator {
        ConditionOperator::Eq => a == n,
        ConditionOperator::Neq => a != n,
        ConditionOperator::Gt => a > n,
        ConditionOperator::Gte => a >= n,
        ConditionOperator::Lt => a < n,
        ConditionOperator::Lte => a <= n,
        ConditionOperator::Between => match &c.value_end {
            Some(end) => match end.as_i64() {
                Some(hi) => a >= n && a <= hi,
                None => false,
            },
            None => false,
        },
        _ => false,
    }
}

/// Whether an array holds the text among its strings.
pub fn list_contains(value: &Json, needle: &str) -> (r: bool)
    ensures
        r == lists(value@, needle@),
{
    match value.as_array() {
        Some(items) => {
            let ghost all = value@->Array_0;
            let mut i: usize = 0;
            while i < items.len()
                invariant
                    i <= items.len(),
                    value@ == JsonView::Array(all),
                    all.len() == items.len(),
                    forall|j: int| 0 <= j < items.len() ==> #[trigger] all[j] == items@[j]@,
                    forall|j: int| 0 <= j < i ==> #[trigger] all[j] != JsonView::Str(needle@),
                decreases items.len() - i,
            {
                assert(all[i as int] == items@[i as int]@);
                if let Some(s) = items[i].as_str() {
                    if str_eq(s, needle) {
                        return true;
                    }
                }
                i = i + 1;
            }
            false
        },
        None => false,
    }
}

/// Whether the condition holds of a text, given what its pattern's match came to.
pub fn string_match_given(c: &Condition, actual: Option<&str>, matched: Option<bool>) -> (r: bool)
    ensures
        r == string_holds_given(c@, text_opt(actual), matched),
{
    let a = match actual {
        Some(a) => a,
        None => return matches!(c.operator, ConditionOperator::Neq),
    };
    match c.operator {
        ConditionOperator::Eq => match c.value.as_str() {
            Some(s) => str_eq(a, s),
            None => false,
        },
        ConditionOperator::Neq => match c.value.as_str() {
            Some(s) => !str_eq(a, s),
            None => false,
        },
        ConditionOperator::Contains => match c.value.as_str() {
            Some(s) => contains(a, s),
            None => false,
        },
        ConditionOperator::Regex => match c.value.as_str() {
            Some(_) => match matched {
                Some(m) => m,
                None => false,
            },
            None => false,
        },
        ConditionOperator::In => list_contains(&c.value, a),
        ConditionOperator::NotIn => !list_contains(&c.value, a),
        _ => false,
    }
}

/// Whether the condition holds of a text. A pattern that does not compile within the limits
/// matches nothing.
pub fn string_match(c: &Condition, actual: Option<&str>) -> (r: bool)
    ensures
        r == string_holds(c@, text_opt(actual)),
{
    let matched = match (c.operator, actual) {
        (ConditionOperator::Regex, Some(a)) => match c.value.as_str() {
            Some(pattern) => run_regex(pattern, REGEX_LIMIT, REGEX_LIMIT, a),
            None => None,
        },
        _ => None,
    };
    string_match_given(c, actual, matched)
}

/// The whole days since an instant, at the instant `now`.
pub fn days_since(ts: Option<Timestamp>, now: Timestamp) -> (r: Option<i64>)
    ensures
        int_opt(r) == age_days(ts, now),
{
    match ts {
        Some(t) => Some(days_between(now, t)),
        None => None,
    }
}

/// Whether the condition holds of the facts, at the instant `now`.
pub fn evaluate_single(c: &Condition, f: &Facts, now: Timestamp) -> (r: bool)
    ensures
        r == single_holds(c@, f@, now),
{
    reveal(single_holds);
    match c.target {
        ConditionTarget::IsFollower => bool_match(c, f.is_follower),
        ConditionTarget::IsSubscriber => bool_match(c, f.is_subscriber),
        ConditionTarget::IsGiftRecipient => bool_match(c, f.sub_is_gift),
        ConditionTarget::IsVip => bool_match(c, f.is_vip),
        ConditionTarget::IsModerator => bool_match(c, f.is_moderator),
        ConditionTarget::IsOg => bool_match(c, f.is_og),
        ConditionTarget::FollowAgeDays => int_match(c, days_since(f.followed_at, now)),
        ConditionTarget::SubMonthsCumulative => int_match(c, Some(f.sub_months_cumulative)),
        ConditionTarget::SubStreakMonths => int_match(c, Some(f.sub_streak_months)),
        ConditionTarget::GiftedSubsGiven => int_match(c, Some(f.gifted_subs_given)),
        ConditionTarget::KicksDonatedToChannel => int_match(c, Some(f.kicks_donated)),
        ConditionTarget::ChatMessages30d => int_match(c, Some(f.chat_messages_30d)),
        ConditionTarget::AccountAgeDays => int_match(c, days_since(f.kick_created_at, now)),
        ConditionTarget::CountryCode => match &f.country_code {
            Some(s) => string_match(c, Some(s.as_str())),
            None => string_match(c, None),
        },
        ConditionTarget::Username => string_match(c, Some(f.username.as_str())),
    }
}

/// Whether a group holds of the facts, at the instant `now`.
fn evaluate_group(g: &ConditionGroup, f: &Facts, now: Timestamp) -> (r: bool)
    ensures
        r == group_holds(g@, f@, now),
{
    if g.conditions.len() == 0 {
        return false;
    }
    let mut i: usize = 0;
    while i < g.conditions.len()
        invariant
            i <= g.conditions.len(),
            g@.len() == g.conditions.len(),
            forall|j: int| 0 <= j < g.conditions.len() ==> #[trigger] g@[j] == g.conditions@[j]@,
            forall|j: int| 0 <= j < i ==> single_holds(#[trigger] g@[j], f@, now),
        decreases g.conditions.len() - i,
    {
        assert(g@[i as int] == g.conditions@[i as int]@);
        if !evaluate_single(&g.conditions[i], f, now) {
            return false;
        }
        i = i + 1;
    }
    true
}

/// Whether the rule holds of the facts, at the instant `now`: it grants to any linked account, or
/// one of its groups has a condition and holds.
pub fn evaluate_at(tree: &RuleTree, facts: &Facts, now: Timestamp) -> (r: bool)
    ensures
        r == evaluates(tree@, facts@, now),
{
    if tree.grant_on_any_relation {
        return true;
    }
    let mut i: usize = 0;
    while i < tree.groups.len()
        invariant
            i <= tree.groups.len(),
            !tree.grant_on_any_relation,
            tree@.groups.len() == tree.groups.len(),
            forall|j: int| 0 <= j < tree.groups.len() ==> #[trigger] tree@.groups[j] == tree.groups@[j]@,
            forall|j: int| 0 <= j < i ==> !group_holds(#[trigger] tree@.groups[j], facts@, now),
        decreases tree.groups.len() - i,
    {
        assert(tree@.groups[i as int] == tree.groups@[i as int]@);
        if evaluate_group(&tree.groups[i], facts, now) {
            return true;
        }
        i = i + 1;
    }
    false
}

/// Whether the rule holds of the facts now. Where it asks for no age that the facts give, the
/// clock has no say in it.
pub fn evaluate(tree: &RuleTree, facts: &Facts) -> (r: bool)
    ensures
        exists|now: Timestamp| now.valid() && r == #[trigger] evaluates(tree@, facts@, now),
        !asks_clock(tree@, facts@) ==> forall|now: Timestamp| r == #[trigger] evaluates(tree@, facts@, now),
{
    let instant = now();
    proof {
        if !asks_clock(tree@, facts@) {
            assert forall|now: Timestamp| evaluates(tree@, facts@, instant) == #[trigger] evaluates(tree@, facts@, now) by {
                law_without_ages_time_does_not_matter(tree@, facts@, instant, now);
            }
        }
    }
    evaluate_at(tree, facts, instant)
}

/// A rule of one group.
pub open spec fn of_group(g: Seq<ConditionView>) -> RuleView {
    RuleView { grant_on_any_relation: false, groups: seq![g] }
}

/// A group asks for all of its conditions, and a rule for one of its groups: a condition more in a group
/// must hold too, and a group more may hold instead. A rule that grants on any relation asks for none.
pub proof fn law_groups_ask_for_all_and_rules_for_one(
    tree: RuleView,
    g: Seq<ConditionView>,
    c: ConditionView,
    f: FactsView,
    now: Timestamp,
)
    ensures
        g.len() > 0 ==> evaluates(of_group(g.push(c)), f, now) == (evaluates(of_group(g), f, now) && evaluates(
            of_group(seq![c]),
            f,
            now,
        )),
        evaluates(RuleView { groups: tree.groups.push(g), ..tree }, f, now) == (evaluates(tree, f, now) || evaluates(
            of_group(g),
            f,
            now,
        )),
        tree.grant_on_any_relation ==> evaluates(tree, f, now),
        !evaluates(of_group(seq![]), f, now),
{
    lemma_of_group(g, f, now);
    lemma_of_group(g.push(c), f, now);
    lemma_of_group(seq![c], f, now);
    lemma_of_group(seq![], f, now);
    let more = g.push(c);
    assert(more[g.len() as int] == c);
    assert(seq![c][0] == c);
    if group_holds(more, f, now) {
        assert forall|i: int| 0 <= i < g.len() implies single_holds(#[trigger] g[i], f, now) by {
            assert(more[i] == g[i]);
        }
    }
    let grown = RuleView { groups: tree.groups.push(g), ..tree };
    assert(grown.groups[tree.groups.len() as int] == g);
    if exists|i: int| 0 <= i < tree.groups.len() && group_holds(#[trigger] tree.groups[i], f, now) {
        let i = choose|i: int| 0 <= i < tree.groups.len() && group_holds(#[trigger] tree.groups[i], f, now);
        assert(grown.groups[i] == tree.groups[i]);
    }
    if exists|i: int| 0 <= i < grown.groups.len() && group_holds(#[trigger] grown.groups[i], f, now) {
        let i = choose|i: int| 0 <= i < grown.groups.len() && group_holds(#[trigger] grown.groups[i], f, now);
        if i < tree.groups.len() {
            assert(tree.groups[i] == grown.groups[i]);
        }
    }
}

proof fn lemma_of_group(g: Seq<ConditionView>, f: FactsView, now: Timestamp)
    ensures
        evaluates(of_group(g), f, now) == group_holds(g, f, now),
{
    assert(of_group(g).groups[0] == g);
}

/// A condition on a truth holds only where it asks whether it is a given truth; one on a number, only
/// where it compares with a number; one on a text, only where it compares with a text or a list.
pub proof fn law_only_what_can_be_compared_holds(
    target: ConditionTarget,
    operator: ConditionOperator,
    value: JsonView,
    value_end: Option<JsonView>,
    f: FactsView,
    now: Timestamp,
)
    requires
        evaluates(asking(target, operator, value, value_end), f, now),
    ensures
        target.data_kind() is Bool ==> operator is Eq && value is Bool,
        target.data_kind() is Int ==> value is Int && operator.fits(TargetKind::Int),
        target is Username ==> operator.fits(TargetKind::String),
        target.data_kind() is Int && operator is Between ==> value_end is Some && value_end->0 is Int,
        target is Username && (operator is Eq || operator is Neq || operator is Contains || operator is Regex)
            ==> value is Str,
        target is Username && operator is In ==> value is Array,
{
    lemma_asking(target, operator, value, value_end, f, now);
    reveal(single_holds);
}

} // verus!
