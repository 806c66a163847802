//! What a rule's condition asks: which fact, by which comparison, against which value.

use vstd::prelude::*;

use crate::json::{Json, JsonView};
use crate::text::str_eq;

verus! {

/// What kind of data a target gives. It decides which operators make sense on it.
#[derive(Debug, Clone, Copy, PartialEq, Eq, Structural)]
pub enum TargetKind {
    Bool,
    Int,
    String,
}

/// A fact that a condition can ask about. The first eleven are of a viewer on a channel, the rest
/// of the viewer's account.
#[derive(Debug, Clone, Copy, PartialEq, Eq, Structural)]
pub enum ConditionTarget {
    /// Whether the viewer follows the channel.
    IsFollower,
    /// Whole days since the follow.
    FollowAgeDays,
    /// Whether the viewer subscribes to the channel.
    IsSubscriber,
    /// Months subscribed, all in all.
    SubMonthsCumulative,
    /// Months subscribed without a break.
    SubStreakMonths,
    /// Whether the subscription was a gift.
    IsGiftRecipient,
    /// Subscriptions given to others.
    GiftedSubsGiven,
    /// Whether the viewer has the VIP badge.
    IsVip,
    /// Whether the viewer moderates the channel.
    IsModerator,
    /// KICKs given to the channel.
    KicksDonatedToChannel,
    /// Chat messages counted for the viewer.
    ChatMessages30d,
    /// Whether the account is an early one.
    IsOg,
    /// Whole days since the account was made.
    AccountAgeDays,
    /// The account's country.
    CountryCode,
    /// The account's name.
    Username,
}

/// A comparison.
#[derive(Debug, Clone, Copy, PartialEq, Eq, Structural)]
pub enum ConditionOperator {
    Eq,
    Neq,
    Gt,
    Gte,
    Lt,
    Lte,
    Between,
    Contains,
    Regex,
    In,
    NotIn,
}

impl ConditionTarget {
    /// The name under which a rule stores this target.
    pub open spec fn key(self) -> Seq<char> {
        match self {
            ConditionTarget::IsFollower => "is_follower"@,
            ConditionTarget::FollowAgeDays => "follow_age_days"@,
            ConditionTarget::IsSubscriber => "is_subscriber"@,
            ConditionTarget::SubMonthsCumulative => "sub_months_cumulative"@,
            ConditionTarget::SubStreakMonths => "sub_streak_months"@,
            ConditionTarget::IsGiftRecipient => "is_gift_recipient"@,
            ConditionTarget::GiftedSubsGiven => "gifted_subs_given"@,
            ConditionTarget::IsVip => "is_vip"@,
            ConditionTarget::IsModerator => "is_moderator"@,
            ConditionTarget::KicksDonatedToChannel => "kicks_donated_to_channel"@,
            ConditionTarget::ChatMessages30d => "chat_messages_30d"@,
            ConditionTarget::IsOg => "is_og"@,
            ConditionTarget::AccountAgeDays => "account_age_days"@,
            ConditionTarget::CountryCode => "country_code"@,
            ConditionTarget::Username => "username"@,
        }
    }

    /// The kind of data that this target gives.
    pub open spec fn data_kind(self) -> TargetKind {
        match self {
            ConditionTarget::IsFollower
            | ConditionTarget::IsSubscriber
            | ConditionTarget::IsGiftRecipient
            | ConditionTarget::IsVip
            | ConditionTarget::IsModerator
            | ConditionTarget::IsOg => TargetKind::Bool,
            ConditionTarget::FollowAgeDays
            | ConditionTarget::SubMonthsCumulative
            | ConditionTarget::SubStreakMonths
            | ConditionTarget::GiftedSubsGiven
            | ConditionTarget::KicksDonatedToChannel
            | ConditionTarget::ChatMessages30d
            | ConditionTarget::AccountAgeDays => TargetKind::Int,
            ConditionTarget::CountryCode
            | ConditionTarget::Username => TargetKind::String,
        }
    }

    /// The kind of data that this target gives.
    pub fn kind(self) -> (r: TargetKind)
        ensures
            r == self.data_kind(),
    {
        match self {
            ConditionTarget::IsFollower
            | ConditionTarget::IsSubscriber
            | ConditionTarget::IsGiftRecipient
            | ConditionTarget::IsVip
            | ConditionTarget::IsModerator
            | ConditionTarget::IsOg => TargetKind::Bool,
            ConditionTarget::FollowAgeDays
            | ConditionTarget::SubMonthsCumulative
            | ConditionTarget::SubStreakMonths
            | ConditionTarget::GiftedSubsGiven
            | ConditionTarget::KicksDonatedToChannel
            | ConditionTarget::ChatMessages30d
            | ConditionTarget::AccountAgeDays => TargetKind::Int,
            ConditionTarget::CountryCode
            | ConditionTarget::Username => TargetKind::String,
        }
    }

    /// The name under which a rule stores this target.
    pub fn as_str(self) -> (r: &'static str)
        ensures
            r@ == self.key(),
    {
        match self {
            ConditionTarget::IsFollower => "is_follower",
            ConditionTarget::FollowAgeDays => "follow_age_days",
            ConditionTarget::IsSubscriber => "is_subscriber",
            ConditionTarget::SubMonthsCumulative => "sub_months_cumulative",
            ConditionTarget::SubStreakMonths => "sub_streak_months",
            ConditionTarget::IsGiftRecipient => "is_gift_recipient",
            ConditionTarget::GiftedSubsGiven => "gifted_subs_given",
            ConditionTarget::IsVip => "is_vip",
            ConditionTarget::IsModerator => "is_moderator",
            ConditionTarget::KicksDonatedToChannel => "kicks_donated_to_channel",
            ConditionTarget::ChatMessages30d => "chat_messages_30d",
            ConditionTarget::IsOg => "is_og",
            ConditionTarget::AccountAgeDays => "account_age_days",
            ConditionTarget::CountryCode => "country_code",
            ConditionTarget::Username => "username",
        }
    }

    /// The target stored under the name `s`; none where no target has it.
    pub fn from_key(s: &str) -> (r: Option<Self>)
        ensures
            forall|t: ConditionTarget| r == Some(t) <==> #[trigger] t.key() == s@,
    {
        proof {
            assert forall|a: ConditionTarget, b: ConditionTarget| #[trigger] a.key() == #[trigger] b.key() implies a == b by {
                law_target_keys_are_distinct(a, b);
            }
            assert(ConditionTarget::IsFollower.key() == "is_follower"@);
            assert(ConditionTarget::FollowAgeDays.key() == "follow_age_days"@);
            assert(ConditionTarget::IsSubscriber.key() == "is_subscriber"@);
            assert(ConditionTarget::SubMonthsCumulative.key() == "sub_months_cumulative"@);
            assert(ConditionTarget::SubStreakMonths.key() == "sub_streak_months"@);
            assert(ConditionTarget::IsGiftRecipient.key() == "is_gift_recipient"@);
            assert(ConditionTarget::GiftedSubsGiven.key() == "gifted_subs_given"@);
            assert(ConditionTarget::IsVip.key() == "is_vip"@);
            assert(ConditionTarget::IsModerator.key() == "is_moderator"@);
            assert(ConditionTarget::KicksDonatedToChannel.key() == "kicks_donated_to_channel"@);
            assert(ConditionTarget::ChatMessages30d.key() == "chat_messages_30d"@);
            assert(ConditionTarget::IsOg.key() == "is_og"@);
            assert(ConditionTarget::AccountAgeDays.key() == "account_age_days"@);
            assert(ConditionTarget::CountryCode.key() == "country_code"@);
            assert(ConditionTarget::Username.key() == "username"@);
        }
        if str_eq(s, "is_follower") {
            Some(ConditionTarget::IsFollower)
        } else if str_eq(s, "follow_age_days") {
            Some(ConditionTarget::FollowAgeDays)
        } else if str_eq(s, "is_subscriber") {
            Some(ConditionTarget::IsSubscriber)
        } else if str_eq(s, "sub_months_cumulative") {
            Some(ConditionTarget::SubMonthsCumulative)
        } else if str_eq(s, "sub_streak_months") {
            Some(ConditionTarget::SubStreakMonths)
        } else if str_eq(s, "is_gift_recipient") {
            Some(ConditionTarget::IsGiftRecipient)
        } else if str_eq(s, "gifted_subs_given") {
            Some(ConditionTarget::GiftedSubsGiven)
        } else if str_eq(s, "is_vip") {
            Some(ConditionTarget::IsVip)
        } else if str_eq(s, "is_moderator") {
            Some(ConditionTarget::IsModerator)
        } else if str_eq(s, "kicks_donated_to_channel") {
            Some(ConditionTarget::KicksDonatedToChannel)
        } else if str_eq(s, "chat_messages_30d") {
            Some(ConditionTarget::ChatMessages30d)
        } else if str_eq(s, "is_og") {
            Some(ConditionTarget::IsOg)
        } else if str_eq(s, "account_age_days") {
            Some(ConditionTarget::AccountAgeDays)
        } else if str_eq(s, "country_code") {
            Some(ConditionTarget::CountryCode)
        } else if str_eq(s, "username") {
            Some(ConditionTarget::Username)
        } else {
            None
        }
    }
}

/// No two targets share a name.
pub proof fn law_target_keys_are_distinct(a: ConditionTarget, b: ConditionTarget)
    requires
        a.key() == b.key(),
    ensures
        a == b,
{
    reveal_strlit("is_follower");
    assert("is_follower"@.len() == 11 && "is_follower"@[0] == 'i');
    reveal_strlit("follow_age_days");
    assert("follow_age_days"@.len() == 15 && "follow_age_days"@[0] == 'f');
    reveal_strlit("is_subscriber");
    assert("is_subscriber"@.len() == 13 && "is_subscriber"@[0] == 'i');
    reveal_strlit("sub_months_cumulative");
    assert("sub_months_cumulative"@.len() == 21 && "sub_months_cumulative"@[0] == 's');
    reveal_strlit("sub_streak_months");
    assert("sub_streak_months"@.len() == 17 && "sub_streak_months"@[0] == 's');
    reveal_strlit("is_gift_recipient");
    assert("is_gift_recipient"@.len() == 17 && "is_gift_recipient"@[0] == 'i');
    reveal_strlit("gifted_subs_given");
    assert("gifted_subs_given"@.len() == 17 && "gifted_subs_given"@[0] == 'g');
    reveal_strlit("is_vip");
    assert("is_vip"@.len() == 6 && "is_vip"@[0] == 'i');
    reveal_strlit("is_moderator");
    assert("is_moderator"@.len() == 12 && "is_moderator"@[0] == 'i');
    reveal_strlit("kicks_donated_to_channel");
    assert("kicks_donated_to_channel"@.len() == 24 && "kicks_donated_to_channel"@[0] == 'k');
    reveal_strlit("chat_messages_30d");
    assert("chat_messages_30d"@.len() == 17 && "chat_messages_30d"@[0] == 'c');
    reveal_strlit("is_og");
    assert("is_og"@.len() == 5 && "is_og"@[0] == 'i');
    reveal_strlit("account_age_days");
    assert("account_age_days"@.len() == 16 && "account_age_days"@[0] == 'a');
    reveal_strlit("country_code");
    assert("country_code"@.len() == 12 && "country_code"@[0] == 'c');
    reveal_strlit("username");
    assert("username"@.len() == 8 && "username"@[0] == 'u');
    assert(a.key().len() == b.key().len() && a.key()[0] == b.key()[0]);
}

impl ConditionOperator {
    /// The name under which a rule stores this operator.
    pub open spec fn key(self) -> Seq<char> {
        match self {
            ConditionOperator::Eq => "eq"@,
            ConditionOperator::Neq => "neq"@,
            ConditionOperator::Gt => "gt"@,
            ConditionOperator::Gte => "gte"@,
            ConditionOperator::Lt => "lt"@,
            ConditionOperator::Lte => "lte"@,
            ConditionOperator::Between => "between"@,
            ConditionOperator::Contains => "contains"@,
            ConditionOperator::Regex => "regex"@,
            ConditionOperator::In => "in"@,
            ConditionOperator::NotIn => "not_in"@,
        }
    }

    /// Whether this operator gives a meaningful predicate on data of the kind.
    pub open spec fn fits(self, kind: TargetKind) -> bool {
        match kind {
            TargetKind::Bool => self is Eq,
            TargetKind::Int => self is Eq || self is Neq || self is Gt || self is Gte || self is Lt || self is Lte
                || self is Between,
            TargetKind::String => self is Eq || self is Neq || self is Contains || self is Regex || self is In
                || self is NotIn,
        }
    }

    /// The name under which a rule stores this operator.
    pub fn as_str(self) -> (r: &'static str)
        ensures
            r@ == self.key(),
    {
        match self {
            ConditionOperator::Eq => "eq",
            ConditionOperator::Neq => "neq",
            ConditionOperator::Gt => "gt",
            ConditionOperator::Gte => "gte",
            ConditionOperator::Lt => "lt",
            ConditionOperator::Lte => "lte",
            ConditionOperator::Between => "between",
            ConditionOperator::Contains => "contains",
            ConditionOperator::Regex => "regex",
            ConditionOperator::In => "in",
            ConditionOperator::NotIn => "not_in",
        }
    }

    /// The operator stored under the name `s`; none where no operator has it.
    pub fn from_key(s: &str) -> (r: Option<Self>)
        ensures
            forall|o: ConditionOperator| r == Some(o) <==> #[trigger] o.key() == s@,
    {
        proof {
            assert forall|a: ConditionOperator, b: ConditionOperator| #[trigger] a.key() == #[trigger] b.key() implies a == b by {
                law_operator_keys_are_distinct(a, b);
            }
            assert(ConditionOperator::Eq.key() == "eq"@);
            assert(ConditionOperator::Neq.key() == "neq"@);
            assert(ConditionOperator::Gt.key() == "gt"@);
            assert(ConditionOperator::Gte.key() == "gte"@);
            assert(ConditionOperator::Lt.key() == "lt"@);
            assert(ConditionOperator::Lte.key() == "lte"@);
            assert(ConditionOperator::Between.key() == "between"@);
            assert(ConditionOperator::Contains.key() == "contains"@);
            assert(ConditionOperator::Regex.key() == "regex"@);
            assert(ConditionOperator::In.key() == "in"@);
            assert(ConditionOperator::NotIn.key() == "not_in"@);
        }
        if str_eq(s, "eq") {
            Some(ConditionOperator::Eq)
        } else if str_eq(s, "neq") {
            Some(ConditionOperator::Neq)
        } else if str_eq(s, "gt") {
            Some(ConditionOperator::Gt)
        } else if str_eq(s, "gte") {
            Some(ConditionOperator::Gte)
        } else if str_eq(s, "lt") {
            Some(ConditionOperator::Lt)
        } else if str_eq(s, "lte") {
            Some(ConditionOperator::Lte)
        } else if str_eq(s, "between") {
            Some(ConditionOperator::Between)
        } else if str_eq(s, "contains") {
            Some(ConditionOperator::Contains)
        } else if str_eq(s, "regex") {
            Some(ConditionOperator::Regex)
        } else if str_eq(s, "in") {
            Some(ConditionOperator::In)
        } else if str_eq(s, "not_in") {
            Some(ConditionOperator::NotIn)
        } else {
            None
        }
    }

    /// Whether this operator gives a meaningful predicate on data of the kind.
    pub fn valid_for(self, kind: TargetKind) -> (r: bool)
        ensures
            r == self.fits(kind),
    {
        match kind {
            TargetKind::Bool => matches!(self, ConditionOperator::Eq),
            TargetKind::Int => matches!(
                self,
                ConditionOperator::Eq
                | ConditionOperator::Neq
                | ConditionOperator::Gt
                | ConditionOperator::Gte
                | ConditionOperator::Lt
                | ConditionOperator::Lte
                | ConditionOperator::Between
            ),
            TargetKind::String => matches!(
                self,
                ConditionOperator::Eq
                | ConditionOperator::Neq
                | ConditionOperator::Contains
                | ConditionOperator::Regex
                | ConditionOperator::In
                | ConditionOperator::NotIn
            ),
        }
    }
}

/// No two operators share a name.
pub proof fn law_operator_keys_are_distinct(a: ConditionOperator, b: ConditionOperator)
    requires
        a.key() == b.key(),
    ensures
        a == b,
{
    reveal_strlit("eq");
    assert("eq"@.len() == 2 && "eq"@[0] == 'e');
    reveal_strlit("neq");
    assert("neq"@.len() == 3 && "neq"@[0] == 'n');
    reveal_strlit("gt");
    assert("gt"@.len() == 2 && "gt"@[0] == 'g');
    reveal_strlit("gte");
    assert("gte"@.len() == 3 && "gte"@[0] == 'g');
    reveal_strlit("lt");
    assert("lt"@.len() == 2 && "lt"@[0] == 'l');
    reveal_strlit("lte");
    assert("lte"@.len() == 3 && "lte"@[0] == 'l');
    reveal_strlit("between");
    assert("between"@.len() == 7 && "between"@[0] == 'b');
    reveal_strlit("contains");
    assert("contains"@.len() == 8 && "contains"@[0] == 'c');
    reveal_strlit("regex");
    assert("regex"@.len() == 5 && "regex"@[0] == 'r');
    reveal_strlit("in");
    assert("in"@.len() == 2 && "in"@[0] == 'i');
    reveal_strlit("not_in");
    assert("not_in"@.len() == 6 && "not_in"@[0] == 'n');
    assert(a.key().len() == b.key().len() && a.key()[0] == b.key()[0]);
}

/// One row of an AND-group.
#[derive(Debug)]
pub struct Condition {
    pub target: ConditionTarget,
    pub operator: ConditionOperator,
    pub value: Json,
    /// The upper end, where the operator is `Between`.
    pub value_end: Option<Json>,
}

/// What a condition asks.
pub struct ConditionView {
    pub target: ConditionTarget,
    pub operator: ConditionOperator,
    pub value: JsonView,
    pub value_end: Option<JsonView>,
}

impl View for Condition {
    type V = ConditionView;

    open spec fn view(&self) -> ConditionView {
        ConditionView {
            target: self.target,
            operator: self.operator,
            value: self.value@,
            value_end: match self.value_end {
                Some(v) => Some(v@),
                None => None,
            },
        }
    }
}

/// A target is kept under its name, and found by it; no other name finds one. Whether someone is
/// something is asked of a truth, how much or how long of a number, and what or who of a text.
pub proof fn law_targets_are_found_by_their_names(s: &str, r: Option<ConditionTarget>)
    requires
        call_ensures(ConditionTarget::from_key, (s,), r),
    ensures
        s@ == "is_follower"@ <==> r == Some(ConditionTarget::IsFollower),
        s@ == "follow_age_days"@ <==> r == Some(ConditionTarget::FollowAgeDays),
        s@ == "is_subscriber"@ <==> r == Some(ConditionTarget::IsSubscriber),
        s@ == "sub_months_cumulative"@ <==> r == Some(ConditionTarget::SubMonthsCumulative),
        s@ == "sub_streak_months"@ <==> r == Some(ConditionTarget::SubStreakMonths),
        s@ == "is_gift_recipient"@ <==> r == Some(ConditionTarget::IsGiftRecipient),
        s@ == "gifted_subs_given"@ <==> r == Some(ConditionTarget::GiftedSubsGiven),
        s@ == "is_vip"@ <==> r == Some(ConditionTarget::IsVip),
        s@ == "is_moderator"@ <==> r == Some(ConditionTarget::IsModerator),
        s@ == "kicks_donated_to_channel"@ <==> r == Some(ConditionTarget::KicksDonatedToChannel),
        s@ == "chat_messages_30d"@ <==> r == Some(ConditionTarget::ChatMessages30d),
        s@ == "is_og"@ <==> r == Some(ConditionTarget::IsOg),
        s@ == "account_age_days"@ <==> r == Some(ConditionTarget::AccountAgeDays),
        s@ == "country_code"@ <==> r == Some(ConditionTarget::CountryCode),
        s@ == "username"@ <==> r == Some(ConditionTarget::Username),
        ConditionTarget::IsFollower.data_kind() is Bool,
        ConditionTarget::FollowAgeDays.data_kind() is Int,
        ConditionTarget::IsSubscriber.data_kind() is Bool,
        ConditionTarget::SubMonthsCumulative.data_kind() is Int,
        ConditionTarget::SubStreakMonths.data_kind() is Int,
        ConditionTarget::IsGiftRecipient.data_kind() is Bool,
        ConditionTarget::GiftedSubsGiven.data_kind() is Int,
        ConditionTarget::IsVip.data_kind() is Bool,
        ConditionTarget::IsModerator.data_kind() is Bool,
        ConditionTarget::KicksDonatedToChannel.data_kind() is Int,
        ConditionTarget::ChatMessages30d.data_kind() is Int,
        ConditionTarget::IsOg.data_kind() is Bool,
        ConditionTarget::AccountAgeDays.data_kind() is Int,
        ConditionTarget::CountryCode.data_kind() is String,
        ConditionTarget::Username.data_kind() is String,
{
    assert(ConditionTarget::IsFollower.key() == "is_follower"@);
    assert(ConditionTarget::FollowAgeDays.key() == "follow_age_days"@);
    assert(ConditionTarget::IsSubscriber.key() == "is_subscriber"@);
    assert(ConditionTarget::SubMonthsCumulative.key() == "sub_months_cumulative"@);
    assert(ConditionTarget::SubStreakMonths.key() == "sub_streak_months"@);
    assert(ConditionTarget::IsGiftRecipient.key() == "is_gift_recipient"@);
    assert(ConditionTarget::GiftedSubsGiven.key() == "gifted_subs_given"@);
    assert(ConditionTarget::IsVip.key() == "is_vip"@);
    assert(ConditionTarget::IsModerator.key() == "is_moderator"@);
    assert(ConditionTarget::KicksDonatedToChannel.key() == "kicks_donated_to_channel"@);
    assert(ConditionTarget::ChatMessages30d.key() == "chat_messages_30d"@);
    assert(ConditionTarget::IsOg.key() == "is_og"@);
    assert(ConditionTarget::AccountAgeDays.key() == "account_age_days"@);
    assert(ConditionTarget::CountryCode.key() == "country_code"@);
    assert(ConditionTarget::Username.key() == "username"@);
}

/// An operator is kept under its name, and found by it.
pub proof fn law_operators_are_found_by_their_names(s: &str, r: Option<ConditionOperator>)
    requires
        call_ensures(ConditionOperator::from_key, (s,), r),
    ensures
        s@ == "eq"@ <==> r == Some(ConditionOperator::Eq),
        s@ == "neq"@ <==> r == Some(ConditionOperator::Neq),
        s@ == "gt"@ <==> r == Some(ConditionOperator::Gt),
        s@ == "gte"@ <==> r == Some(ConditionOperator::Gte),
        s@ == "lt"@ <==> r == Some(ConditionOperator::Lt),
        s@ == "lte"@ <==> r == Some(ConditionOperator::Lte),
        s@ == "between"@ <==> r == Some(ConditionOperator::Between),
        s@ == "contains"@ <==> r == Some(ConditionOperator::Contains),
        s@ == "regex"@ <==> r == Some(ConditionOperator::Regex),
        s@ == "in"@ <==> r == Some(ConditionOperator::In),
        s@ == "not_in"@ <==> r == Some(ConditionOperator::NotIn),
{
    assert(ConditionOperator::Eq.key() == "eq"@);
    assert(ConditionOperator::Neq.key() == "neq"@);
    assert(ConditionOperator::Gt.key() == "gt"@);
    assert(ConditionOperator::Gte.key() == "gte"@);
    assert(ConditionOperator::Lt.key() == "lt"@);
    assert(ConditionOperator::Lte.key() == "lte"@);
    assert(ConditionOperator::Between.key() == "between"@);
    assert(ConditionOperator::Contains.key() == "contains"@);
    assert(ConditionOperator::Regex.key() == "regex"@);
    assert(ConditionOperator::In.key() == "in"@);
    assert(ConditionOperator::NotIn.key() == "not_in"@);
}

/// Whether two are the same can be asked of all data; whether they differ, of numbers and texts; the
/// orders, of numbers alone; the parts, patterns and lists, of texts alone.
pub proof fn law_operators_fit_what_they_can_compare(kind: TargetKind)
    ensures
        ConditionOperator::Eq.fits(kind),
        ConditionOperator::Neq.fits(kind) <==> kind is Int || kind is String,
        ConditionOperator::Gt.fits(kind) <==> kind is Int,
        ConditionOperator::Gte.fits(kind) <==> kind is Int,
        ConditionOperator::Lt.fits(kind) <==> kind is Int,
        ConditionOperator::Lte.fits(kind) <==> kind is Int,
        ConditionOperator::Between.fits(kind) <==> kind is Int,
        ConditionOperator::Contains.fits(kind) <==> kind is String,
        ConditionOperator::Regex.fits(kind) <==> kind is String,
        ConditionOperator::In.fits(kind) <==> kind is String,
        ConditionOperator::NotIn.fits(kind) <==> kind is String,
{
}

} // verus!
