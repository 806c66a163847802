//! How the parameters of a rule's WHERE clause are numbered.

use vstd::prelude::*;
use vstd::string::*;

use crate::models::condition::{ConditionTarget, ConditionView};
use crate::models::rule::RuleView;
use crate::services::rule_sql::{
    binds_of, clause_of, clause_text, expr_text, group_binds, group_clauses, group_text, groups_binds, rule_binds,
    sign_text, where_of, where_text, Clause,
};
use crate::text::{all_digits, decimal, digit, digits_value, is_digit, joined};

verus! {

/// How many digits a text begins with.
pub open spec fn digit_run(s: Seq<char>) -> nat
    decreases s.len(),
{
    if s.len() > 0 && is_digit(s[0]) {
        1 + digit_run(s.skip(1))
    } else {
        0
    }
}

/// The length of the parameter that a text begins with, `$` and a numeral; 0 where it begins with
/// none.
pub open spec fn param_len(s: Seq<char>) -> nat {
    if s.len() > 0 && s[0] == '$' && digit_run(s.skip(1)) > 0 {
        1 + digit_run(s.skip(1))
    } else {
        0
    }
}

/// The number of the parameter that a text begins with.
pub open spec fn param_number(s: Seq<char>) -> int {
    digits_value(s.subrange(1, param_len(s) as int))
}

/// The numbers of the parameters in a text, from left to right.
pub open spec fn params(s: Seq<char>) -> Seq<int>
    decreases s.len(),
{
    proof {
        lemma_digit_run(s.skip(1));
    }
    if s.len() == 0 {
        seq![]
    } else if param_len(s) > 0 {
        seq![param_number(s)] + params(s.skip(param_len(s) as int))
    } else {
        params(s.skip(1))
    }
}

/// The text with each parameter's number raised by `by`.
pub open spec fn renumbered(s: Seq<char>, by: nat) -> Seq<char>
    decreases s.len(),
{
    proof {
        lemma_digit_run(s.skip(1));
    }
    if s.len() == 0 {
        seq![]
    } else if param_len(s) > 0 {
        seq!['$'] + decimal((param_number(s) + by) as nat) + renumbered(s.skip(param_len(s) as int), by)
    } else {
        seq![s[0]] + renumbered(s.skip(1), by)
    }
}

/// `count` numbers, from the one behind `before`.
pub open spec fn numbers_from(before: nat, count: nat) -> Seq<int> {
    Seq::new(count, |i: int| before + 1 + i)
}

/// A text begins with no more digits than it has characters.
pub proof fn lemma_digit_run(s: Seq<char>)
    ensures
        digit_run(s) <= s.len(),
    decreases s.len(),
{
    if s.len() > 0 && is_digit(s[0]) {
        lemma_digit_run(s.skip(1));
    }
}

/// Whether no numeral goes on into a text.
spec fn ends_numeral(s: Seq<char>) -> bool {
    s.len() == 0 || !is_digit(s[0])
}

/// Whether a text has these parameters, and is the other one with its parameters' numbers raised,
/// whatever comes behind it that ends a numeral.
#[verifier::opaque]
spec fn reads(s: Seq<char>, raised: Seq<char>, by: nat, numbers: Seq<int>) -> bool {
    forall|b: Seq<char>|
        #![trigger params(s + b)]
        #![trigger renumbered(s + b, by)]
        ends_numeral(b) ==> params(s + b) == numbers + params(b) && renumbered(s + b, by) == raised + renumbered(
            b,
            by,
        )
}

/// Whether a text has no dollar sign, and no numeral goes on into it.
spec fn plain(s: Seq<char>) -> bool {
    ends_numeral(s) && forall|i: int| 0 <= i < s.len() ==> #[trigger] s[i] != '$'
}

proof fn lemma_plain_front(s: Seq<char>, b: Seq<char>, by: nat)
    requires
        forall|i: int| 0 <= i < s.len() ==> #[trigger] s[i] != '$',
    ensures
        params(s + b) == params(b),
        renumbered(s + b, by) == s + renumbered(b, by),
    decreases s.len(),
{
    if s.len() == 0 {
        assert(s + b =~= b);
        assert(s + renumbered(b, by) =~= renumbered(b, by));
    } else {
        assert((s + b)[0] == s[0]);
        assert((s + b).skip(1) =~= s.skip(1) + b);
        assert forall|i: int| 0 <= i < s.skip(1).len() implies #[trigger] s.skip(1)[i] != '$' by {
            assert(s[i + 1] != '$');
        }
        lemma_plain_front(s.skip(1), b, by);
        assert(seq![s[0]] + (s.skip(1) + renumbered(b, by)) =~= s + renumbered(b, by));
    }
}

proof fn lemma_plain(s: Seq<char>, by: nat)
    requires
        plain(s),
    ensures
        reads(s, s, by, seq![]),
{
    reveal(reads);
    assert forall|b: Seq<char>| ends_numeral(b) implies params(s + b) == Seq::<int>::empty() + params(b)
        && renumbered(s + b, by) == s + renumbered(b, by) by {
        lemma_plain_front(s, b, by);
        assert(Seq::<int>::empty() + params(b) =~= params(b));
    }
}

proof fn lemma_decimal(n: nat)
    ensures
        decimal(n).len() > 0,
        all_digits(decimal(n)),
        digits_value(decimal(n)) == n,
    decreases n,
{
    if n < 10 {
        assert(decimal(n).drop_last() =~= seq![]);
        assert(digits_value(seq![]) == 0);
        assert(is_digit(digit(n)));
    } else {
        lemma_decimal(n / 10);
        let front = decimal(n / 10);
        assert(decimal(n).drop_last() =~= front);
        assert(is_digit(digit(n % 10)));
        assert forall|i: int| 0 <= i < decimal(n).len() implies is_digit(#[trigger] decimal(n)[i]) by {
            if i < front.len() {
                assert(is_digit(front[i]));
            }
        }
    }
}

proof fn lemma_run_of(digits: Seq<char>, b: Seq<char>)
    requires
        all_digits(digits),
        ends_numeral(b),
    ensures
        digit_run(digits + b) == digits.len(),
    decreases digits.len(),
{
    if digits.len() == 0 {
        assert(digits + b =~= b);
    } else {
        assert((digits + b)[0] == digits[0]);
        assert((digits + b).skip(1) =~= digits.skip(1) + b);
        assert forall|i: int| 0 <= i < digits.skip(1).len() implies is_digit(#[trigger] digits.skip(1)[i]) by {
            assert(is_digit(digits[i + 1]));
        }
        lemma_run_of(digits.skip(1), b);
    }
}

/// Text that ends in a dollar sign, and a numeral behind it.
proof fn lemma_param(lead: Seq<char>, n: nat, by: nat)
    requires
        lead.len() > 0,
        lead.last() == '$',
        plain(lead.drop_last()),
    ensures
        reads(lead + decimal(n), lead + decimal(n + by), by, seq![n as int]),
{
    reveal(reads);
    lemma_decimal(n);
    let front = lead.drop_last();
    assert forall|b: Seq<char>| ends_numeral(b) implies params((lead + decimal(n)) + b) == seq![n as int] + params(b)
        && renumbered((lead + decimal(n)) + b, by) == (lead + decimal(n + by)) + renumbered(b, by) by {
        let rest = seq!['$'] + decimal(n) + b;
        lemma_run_of(decimal(n), b);
        assert(rest.skip(1) =~= decimal(n) + b);
        assert(rest.subrange(1, (1 + decimal(n).len()) as int) =~= decimal(n));
        assert(rest.skip((1 + decimal(n).len()) as int) =~= b);
        assert((lead + decimal(n)) + b =~= front + rest);
        lemma_plain_front(front, rest, by);
        assert(front + (seq!['$'] + decimal(n + by) + renumbered(b, by)) =~= (lead + decimal(n + by)) + renumbered(
            b,
            by,
        ));
    }
}

proof fn lemma_then(
    s: Seq<char>,
    s_raised: Seq<char>,
    s_numbers: Seq<int>,
    t: Seq<char>,
    t_raised: Seq<char>,
    t_numbers: Seq<int>,
    by: nat,
)
    requires
        reads(s, s_raised, by, s_numbers),
        reads(t, t_raised, by, t_numbers),
        ends_numeral(t),
    ensures
        reads(s + t, s_raised + t_raised, by, s_numbers + t_numbers),
        ends_numeral(s) ==> ends_numeral(s + t),
{
    reveal(reads);
    assert forall|b: Seq<char>| ends_numeral(b) implies params((s + t) + b) == (s_numbers + t_numbers) + params(b)
        && renumbered((s + t) + b, by) == (s_raised + t_raised) + renumbered(b, by) by {
        let rest = t + b;
        assert(ends_numeral(rest));
        assert((s + t) + b =~= s + rest);
        assert(params(s + rest) == s_numbers + params(rest));
        assert(s_numbers + (t_numbers + params(b)) =~= (s_numbers + t_numbers) + params(b));
        assert(renumbered(s + rest, by) == s_raised + renumbered(rest, by));
        assert(s_raised + (t_raised + renumbered(b, by)) =~= (s_raised + t_raised) + renumbered(b, by));
    }
}

/// Plain text behind.
proof fn lemma_then_plain(s: Seq<char>, raised: Seq<char>, numbers: Seq<int>, t: Seq<char>, by: nat)
    requires
        reads(s, raised, by, numbers),
        plain(t),
    ensures
        reads(s + t, raised + t, by, numbers),
        ends_numeral(s) ==> ends_numeral(s + t),
{
    lemma_plain(t, by);
    lemma_then(s, raised, numbers, t, t, seq![], by);
    assert(numbers + Seq::<int>::empty() =~= numbers);
}

/// A parameter behind.
proof fn lemma_then_param(
    s: Seq<char>,
    raised: Seq<char>,
    numbers: Seq<int>,
    lead: Seq<char>,
    n: nat,
    by: nat,
)
    requires
        reads(s, raised, by, numbers),
        lead.len() > 0,
        lead.last() == '$',
        plain(lead.drop_last()),
    ensures
        reads(s + lead + decimal(n), raised + lead + decimal(n + by), by, numbers.push(n as int)),
        ends_numeral(s) ==> ends_numeral(s + lead + decimal(n)),
{
    lemma_param(lead, n, by);
    let t = lead + decimal(n);
    assert(ends_numeral(t)) by {
        assert(t[0] == lead[0]);
        if lead.len() > 1 {
            assert(lead.drop_last()[0] == lead[0]);
        }
    }
    lemma_then(s, raised, numbers, t, lead + decimal(n + by), seq![n as int], by);
    assert(s + t =~= s + lead + decimal(n));
    assert(raised + (lead + decimal(n + by)) =~= raised + lead + decimal(n + by));
    assert(numbers + seq![n as int] =~= numbers.push(n as int));
}

proof fn lemma_expr_is_plain(target: ConditionTarget)
    ensures
        plain(expr_text(target)),
        expr_text(target).len() > 0,
{
    match target {
        ConditionTarget::IsFollower => {
            reveal_strlit("COALESCE(cr.is_follower, false)");
        },
        ConditionTarget::FollowAgeDays => {
            reveal_strlit("FLOOR(EXTRACT(EPOCH FROM (now() - cr.followed_at)) / 86400)");
        },
        ConditionTarget::IsSubscriber => {
            reveal_strlit("COALESCE(cr.is_subscriber, false)");
        },
        ConditionTarget::SubMonthsCumulative => {
            reveal_strlit("COALESCE(cr.sub_months_cumulative, 0)");
        },
        ConditionTarget::SubStreakMonths => {
            reveal_strlit("COALESCE(cr.sub_streak_months, 0)");
        },
        ConditionTarget::IsGiftRecipient => {
            reveal_strlit("COALESCE(cr.sub_is_gift, false)");
        },
        ConditionTarget::GiftedSubsGiven => {
            reveal_strlit("COALESCE(cr.gifted_subs_given, 0)");
        },
        ConditionTarget::IsVip => {
            reveal_strlit("COALESCE(cr.is_vip, false)");
        },
        ConditionTarget::IsModerator => {
            reveal_strlit("COALESCE(cr.is_moderator, false)");
        },
        ConditionTarget::KicksDonatedToChannel => {
            reveal_strlit("COALESCE(cr.kicks_donated, 0)");
        },
        ConditionTarget::ChatMessages30d => {
            reveal_strlit("COALESCE(cr.chat_messages_30d, 0)");
        },
        ConditionTarget::IsOg => {
            reveal_strlit("COALESCE(ku.is_og, false)");
        },
        ConditionTarget::AccountAgeDays => {
            reveal_strlit("FLOOR(EXTRACT(EPOCH FROM (now() - ku.kick_created_at)) / 86400)");
        },
        ConditionTarget::CountryCode => {
            reveal_strlit("ku.country_code");
        },
        ConditionTarget::Username => {
            reveal_strlit("ku.kick_username");
        },
    }
}

/// The text of a condition's predicate speaks of the next parameters, each once and in order, and
/// another count of parameters before it only shifts them.
proof fn lemma_clause_reads(c: ConditionView, before: nat, by: nat)
    ensures
        reads(
            clause_text(clause_of(c, before)),
            clause_text(clause_of(c, before + by)),
            by,
            numbers_from(before, binds_of(c).len()),
        ),
        ends_numeral(clause_text(clause_of(c, before))),
{
    let expr = expr_text(c.target);
    let numbers = numbers_from(before, binds_of(c).len());
    let none: Seq<int> = seq![];
    let first: Seq<int> = none.push(before as int + 1);
    let at = before + 1;
    lemma_expr_is_plain(c.target);
    lemma_plain(expr, by);
    let open = "("@;
    reveal_strlit("(");
    lemma_plain(open, by);
    lemma_then_plain(open, open, none, expr, by);
    match clause_of(c, before) {
        Clause::Never => {
            reveal_strlit("FALSE");
            lemma_plain("FALSE"@, by);
            assert(numbers =~= none);
        },
        Clause::Present { .. } => {
            reveal_strlit(" IS NOT NULL");
            lemma_then_plain(expr, expr, none, " IS NOT NULL"@, by);
            assert(numbers =~= none);
        },
        Clause::Equal { .. } => {
            reveal_strlit(" = $");
            lemma_then_param(expr, expr, none, " = $"@, at, by);
            assert(numbers =~= first);
        },
        Clause::Unequal { .. } => {
            reveal_strlit(" <> $");
            lemma_then_param(expr, expr, none, " <> $"@, at, by);
            assert(numbers =~= first);
        },
        Clause::Distinct { .. } => {
            reveal_strlit(" IS DISTINCT FROM $");
            lemma_then_param(expr, expr, none, " IS DISTINCT FROM $"@, at, by);
            assert(numbers =~= first);
        },
        Clause::Compare { by: order, .. } => {
            reveal_strlit(") > $");
            reveal_strlit(") >= $");
            reveal_strlit(") < $");
            reveal_strlit(") <= $");
            lemma_then_param(open + expr, open + expr, none, sign_text(order), at, by);
            assert(numbers =~= first);
        },
        Clause::Within { .. } => {
            let twice = "(("@;
            reveal_strlit("((");
            reveal_strlit(") >= $");
            reveal_strlit(" AND (");
            reveal_strlit(") <= $");
            reveal_strlit(")");
            lemma_plain(twice, by);
            lemma_then_plain(twice, twice, none, expr, by);
            let s = twice + expr;
            lemma_then_param(s, s, none, ") >= $"@, at, by);
            let s = s + ") >= $"@ + decimal(at);
            let r = twice + expr + ") >= $"@ + decimal(at + by);
            lemma_then_plain(s, r, first, " AND ("@, by);
            let s = s + " AND ("@;
            let r = r + " AND ("@;
            lemma_then_plain(s, r, first, expr, by);
            let s = s + expr;
            let r = r + expr;
            lemma_then_param(s, r, first, ") <= $"@, before + 2, by);
            let s = s + ") <= $"@ + decimal(before + 2);
            let r = r + ") <= $"@ + decimal(before + 2 + by);
            lemma_then_plain(s, r, first.push(before as int + 2), ")"@, by);
            assert(numbers =~= first.push(before as int + 2));
        },
        Clause::Like { .. } => {
            reveal_strlit(" LIKE $");
            lemma_then_param(expr, expr, none, " LIKE $"@, at, by);
            assert(numbers =~= first);
        },
        Clause::Matches { .. } => {
            reveal_strlit(" ~ $");
            lemma_then_param(expr, expr, none, " ~ $"@, at, by);
            assert(numbers =~= first);
        },
        Clause::OneOf { .. } => {
            reveal_strlit(" = ANY($");
            reveal_strlit("::text[])");
            lemma_then_param(expr, expr, none, " = ANY($"@, at, by);
            lemma_then_plain(
                expr + " = ANY($"@ + decimal(at),
                expr + " = ANY($"@ + decimal(at + by),
                first,
                "::text[])"@,
                by,
            );
            assert(numbers =~= first);
        },
        Clause::NoneOf { .. } => {
            reveal_strlit(" IS NOT NULL AND ");
            reveal_strlit(" <> ALL($");
            reveal_strlit("::text[]))");
            let s = open + expr;
            lemma_then_plain(s, s, none, " IS NOT NULL AND "@, by);
            let s = s + " IS NOT NULL AND "@;
            lemma_then_plain(s, s, none, expr, by);
            let s = s + expr;
            lemma_then_param(s, s, none, " <> ALL($"@, at, by);
            lemma_then_plain(
                s + " <> ALL($"@ + decimal(at),
                s + " <> ALL($"@ + decimal(at + by),
                first,
                "::text[]))"@,
                by,
            );
            assert(numbers =~= first);
        },
    }
}

/// The texts of a group's predicates.
spec fn clause_texts(g: Seq<ConditionView>, before: nat) -> Seq<Seq<char>> {
    group_clauses(g, before).map_values(|c: Clause| clause_text(c))
}

proof fn lemma_more_numbers(before: nat, count: nat, more: nat)
    ensures
        numbers_from(before, count) + numbers_from(before + count, more) == numbers_from(before, count + more),
{
    assert(numbers_from(before, count) + numbers_from(before + count, more) =~= numbers_from(before, count + more));
}

proof fn lemma_conditions_read(g: Seq<ConditionView>, before: nat, by: nat)
    requires
        g.len() > 0,
    ensures
        reads(
            joined(clause_texts(g, before), " AND "@),
            joined(clause_texts(g, before + by), " AND "@),
            by,
            numbers_from(before, group_binds(g).len()),
        ),
        ends_numeral(joined(clause_texts(g, before), " AND "@)),
    decreases g.len(),
{
    let init = g.drop_last();
    let count = group_binds(init).len();
    let more = binds_of(g.last()).len();
    let texts = clause_texts(g, before);
    let raised = clause_texts(g, before + by);
    assert(g.take(g.len() - 1) =~= init);
    lemma_clause_reads(g.last(), before + count, by);
    assert(before + count + by == before + by + count);
    if g.len() == 1 {
        assert(init =~= seq![]);
        assert(group_binds(g) =~= binds_of(g.last()));
    } else {
        lemma_conditions_read(init, before, by);
        assert forall|i: int| 0 <= i < init.len() implies #[trigger] init.take(i) == g.take(i) by {
            assert(init.take(i) =~= g.take(i));
        }
        assert(texts.drop_last() =~= clause_texts(init, before));
        assert(raised.drop_last() =~= clause_texts(init, before + by));
        reveal_strlit(" AND ");
        let s = joined(clause_texts(init, before), " AND "@);
        let r = joined(clause_texts(init, before + by), " AND "@);
        lemma_then_plain(s, r, numbers_from(before, count), " AND "@, by);
        lemma_then(
            s + " AND "@,
            r + " AND "@,
            numbers_from(before, count),
            texts.last(),
            raised.last(),
            numbers_from(before + count, more),
            by,
        );
        lemma_more_numbers(before, count, more);
    }
}

proof fn lemma_in_brackets(s: Seq<char>, raised: Seq<char>, numbers: Seq<int>, by: nat)
    requires
        reads(s, raised, by, numbers),
        ends_numeral(s),
    ensures
        reads("("@ + s + ")"@, "("@ + raised + ")"@, by, numbers),
        ends_numeral("("@ + s + ")"@),
{
    reveal_strlit("(");
    reveal_strlit(")");
    lemma_plain("("@, by);
    lemma_then("("@, "("@, seq![], s, raised, numbers, by);
    assert(Seq::<int>::empty() + numbers =~= numbers);
    lemma_then_plain("("@ + s, "("@ + raised, numbers, ")"@, by);
}

proof fn lemma_group_reads(g: Seq<ConditionView>, before: nat, by: nat)
    ensures
        reads(
            group_text(group_clauses(g, before)),
            group_text(group_clauses(g, before + by)),
            by,
            numbers_from(before, group_binds(g).len()),
        ),
        ends_numeral(group_text(group_clauses(g, before))),
{
    if g.len() == 0 {
        reveal_strlit("FALSE");
        lemma_plain("FALSE"@, by);
        assert(numbers_from(before, group_binds(g).len()) =~= seq![]);
    } else {
        lemma_conditions_read(g, before, by);
        lemma_in_brackets(
            joined(clause_texts(g, before), " AND "@),
            joined(clause_texts(g, before + by), " AND "@),
            numbers_from(before, group_binds(g).len()),
            by,
        );
    }
}

/// The texts of a rule's groups.
spec fn group_texts(groups: Seq<Seq<ConditionView>>, before: nat) -> Seq<Seq<char>> {
    Seq::new(
        groups.len(),
        |i: int| group_text(group_clauses(groups[i], before + groups_binds(groups.take(i)).len())),
    )
}

proof fn lemma_groups_read(groups: Seq<Seq<ConditionView>>, before: nat, by: nat)
    requires
        groups.len() > 0,
    ensures
        reads(
            joined(group_texts(groups, before), " OR "@),
            joined(group_texts(groups, before + by), " OR "@),
            by,
            numbers_from(before, groups_binds(groups).len()),
        ),
        ends_numeral(joined(group_texts(groups, before), " OR "@)),
    decreases groups.len(),
{
    let init = groups.drop_last();
    let count = groups_binds(init).len();
    let more = group_binds(groups.last()).len();
    let texts = group_texts(groups, before);
    let raised = group_texts(groups, before + by);
    assert(groups.take(groups.len() - 1) =~= init);
    lemma_group_reads(groups.last(), before + count, by);
    assert(before + count + by == before + by + count);
    if groups.len() == 1 {
        assert(init =~= seq![]);
        assert(groups_binds(groups) =~= group_binds(groups.last()));
    } else {
        lemma_groups_read(init, before, by);
        assert forall|i: int| 0 <= i < init.len() implies #[trigger] init.take(i) == groups.take(i) by {
            assert(init.take(i) =~= groups.take(i));
        }
        assert(texts.drop_last() =~= group_texts(init, before));
        assert(raised.drop_last() =~= group_texts(init, before + by));
        reveal_strlit(" OR ");
        let s = joined(group_texts(init, before), " OR "@);
        let r = joined(group_texts(init, before + by), " OR "@);
        lemma_then_plain(s, r, numbers_from(before, count), " OR "@, by);
        lemma_then(
            s + " OR "@,
            r + " OR "@,
            numbers_from(before, count),
            texts.last(),
            raised.last(),
            numbers_from(before + count, more),
            by,
        );
        lemma_more_numbers(before, count, more);
    }
}

proof fn lemma_rule_reads(tree: RuleView, before: nat, by: nat)
    ensures
        reads(
            where_text(where_of(tree, before)),
            where_text(where_of(tree, before + by)),
            by,
            numbers_from(before, rule_binds(tree).len()),
        ),
{
    if tree.grant_on_any_relation || tree.groups.len() == 0 {
        reveal_strlit("TRUE");
        reveal_strlit("FALSE");
        lemma_plain("TRUE"@, by);
        lemma_plain("FALSE"@, by);
        assert(numbers_from(before, rule_binds(tree).len()) =~= seq![]);
    } else {
        lemma_groups_read(tree.groups, before, by);
        lemma_in_brackets(
            joined(group_texts(tree.groups, before), " OR "@),
            joined(group_texts(tree.groups, before + by), " OR "@),
            numbers_from(before, groups_binds(tree.groups).len()),
            by,
        );
        assert(where_of(tree, before)->Groups_0.map_values(|g: Seq<Clause>| group_text(g)) =~= group_texts(
            tree.groups,
            before,
        ));
        assert(where_of(tree, before + by)->Groups_0.map_values(|g: Seq<Clause>| group_text(g)) =~= group_texts(
            tree.groups,
            before + by,
        ));
    }
}

/// The parameters of a rule's clause, from left to right, are as many as the values that it binds,
/// each once and in order, from the one behind the offset on. Another offset only shifts them: the
/// clause is the one without an offset, with every number raised by it.
pub proof fn law_parameters_are_numbered_in_order(tree: RuleView, offset: nat)
    ensures
        params(where_text(where_of(tree, offset))) == numbers_from(offset, rule_binds(tree).len()),
        where_text(where_of(tree, offset)) == renumbered(where_text(where_of(tree, 0)), offset),
{
    reveal(reads);
    let nothing: Seq<char> = seq![];
    let text = where_text(where_of(tree, offset));
    let unshifted = where_text(where_of(tree, 0));
    lemma_rule_reads(tree, offset, 0);
    lemma_rule_reads(tree, 0, offset);
    assert(text + nothing =~= text);
    assert(unshifted + nothing =~= unshifted);
    assert(params(text + nothing) == numbers_from(offset, rule_binds(tree).len()) + params(nothing));
    assert(numbers_from(offset, rule_binds(tree).len()) + params(nothing) =~= numbers_from(
        offset,
        rule_binds(tree).len(),
    ));
    assert(renumbered(unshifted + nothing, offset) == text + renumbered(nothing, offset));
    assert(text + renumbered(nothing, offset) =~= text);
}

} // verus!
