//! The facts about a viewer and a channel that conditions are held against.

use vstd::prelude::*;

use crate::json::string_opt;
use crate::time::Timestamp;

verus! {

/// The facts about one viewer on one channel.
#[derive(Debug, Clone)]
pub struct Facts {
    pub is_follower: bool,
    pub followed_at: Option<Timestamp>,
    pub is_subscriber: bool,
    pub sub_months_cumulative: i64,
    pub sub_streak_months: i64,
    pub sub_is_gift: bool,
    pub gifted_subs_given: i64,
    pub is_vip: bool,
    pub is_moderator: bool,
    pub kicks_donated: i64,
    pub chat_messages_30d: i64,
    pub is_og: bool,
    pub kick_created_at: Option<Timestamp>,
    pub country_code: Option<String>,
    pub username: String,
}

/// What the facts are.
pub struct FactsView {
    pub is_follower: bool,
    pub followed_at: Option<Timestamp>,
    pub is_subscriber: bool,
    pub sub_months_cumulative: i64,
    pub sub_streak_months: i64,
    pub sub_is_gift: bool,
    pub gifted_subs_given: i64,
    pub is_vip: bool,
    pub is_moderator: bool,
    pub kicks_donated: i64,
    pub chat_messages_30d: i64,
    pub is_og: bool,
    pub kick_created_at: Option<Timestamp>,
    pub country_code: Option<Seq<char>>,
    pub username: Seq<char>,
}

impl View for Facts {
    type V = FactsView;

    open spec fn view(&self) -> FactsView {
        FactsView {
            is_follower: self.is_follower,
            followed_at: self.followed_at,
            is_subscriber: self.is_subscriber,
            sub_months_cumulative: self.sub_months_cumulative,
            sub_streak_months: self.sub_streak_months,
            sub_is_gift: self.sub_is_gift,
            gifted_subs_given: self.gifted_subs_given,
            is_vip: self.is_vip,
            is_moderator: self.is_moderator,
            kicks_donated: self.kicks_donated,
            chat_messages_30d: self.chat_messages_30d,
            is_og: self.is_og,
            kick_created_at: self.kick_created_at,
            country_code: string_opt(self.country_code),
            username: self.username@,
        }
    }
}

/// The facts of a viewer of whom nothing is known.
pub open spec fn no_facts() -> FactsView {
    FactsView {
        is_follower: false,
        followed_at: None,
        is_subscriber: false,
        sub_months_cumulative: 0,
        sub_streak_months: 0,
        sub_is_gift: false,
        gifted_subs_given: 0,
        is_vip: false,
        is_moderator: false,
        kicks_donated: 0,
        chat_messages_30d: 0,
        is_og: false,
        kick_created_at: None,
        country_code: None,
        username: seq![],
    }
}

impl Default for Facts {
    fn default() -> (r: Facts)
        ensures
            r@ == no_facts(),
    {
        Facts {
            is_follower: false,
            followed_at: None,
            is_subscriber: false,
            sub_months_cumulative: 0,
            sub_streak_months: 0,
            sub_is_gift: false,
            gifted_subs_given: 0,
            is_vip: false,
            is_moderator: false,
            kicks_donated: 0,
            chat_messages_30d: 0,
            is_og: false,
            kick_created_at: None,
            country_code: None,
            username: String::new(),
        }
    }
}

/// Of a viewer of whom nothing is known, nothing is held to be so, nothing is counted, and nothing is
/// set.
pub proof fn law_nothing_is_known_by_default(r: Facts)
    requires
        call_ensures(<Facts as Default>::default, (), r),
    ensures
        !r@.is_follower && !r@.is_subscriber && !r@.sub_is_gift && !r@.is_vip && !r@.is_moderator && !r@.is_og,
        r@.sub_months_cumulative == 0 && r@.sub_streak_months == 0 && r@.gifted_subs_given == 0,
        r@.kicks_donated == 0 && r@.chat_messages_30d == 0,
        r@.followed_at is None && r@.kick_created_at is None && r@.country_code is None,
        r@.username.len() == 0,
{
}

} // verus!
