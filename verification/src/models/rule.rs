//! Rule trees: an OR of AND-groups.

use vstd::prelude::*;

use crate::models::condition::{Condition, ConditionView};

verus! {

/// Conditions that must all hold.
#[derive(Debug)]
pub struct ConditionGroup {
    pub conditions: Vec<Condition>,
}

/// A rule: it holds where one of its groups does, or where it grants to any linked account.
#[derive(Debug)]
pub struct RuleTree {
    pub grant_on_any_relation: bool,
    pub groups: Vec<ConditionGroup>,
}

/// What a rule says.
pub struct RuleView {
    pub grant_on_any_relation: bool,
    pub groups: Seq<Seq<ConditionView>>,
}

impl View for ConditionGroup {
    type V = Seq<ConditionView>;

    open spec fn view(&self) -> Seq<ConditionView> {
        self.conditions@.map_values(|c: Condition| c@)
    }
}

impl View for RuleTree {
    type V = RuleView;

    open spec fn view(&self) -> RuleView {
        RuleView {
            grant_on_any_relation: self.grant_on_any_relation,
            groups: self.groups@.map_values(|g: ConditionGroup| g@),
        }
    }
}

impl Default for RuleTree {
    /// The rule that grants to nobody.
    fn default() -> (r: RuleTree)
        ensures
            !r@.grant_on_any_relation,
            r@.groups == Seq::<Seq<ConditionView>>::empty(),
    {
        let r = RuleTree { grant_on_any_relation: false, groups: Vec::new() };
        assert(r@.groups =~= Seq::<Seq<ConditionView>>::empty());
        r
    }
}

} // verus!
