//! Kick's events, and the writes that each asks for.
//!
//! Kick tells neither of an unfollow nor of the end of a subscription, so no event
//! takes a follow or a subscription away; the badges in a chat message, though, are all that the
//! sender has, and are set and cleared by it.

use vstd::prelude::*;
use vstd::string::*;

use crate::json::{jsons, string_opt, Json, JsonView};
use crate::text::{lowered, str_eq, to_ascii_lowercase};
use crate::time::{parse_rfc3339, rfc3339, Timestamp};

verus! {

/// The header with a delivery's identifier.
pub const H_MESSAGE_ID: &'static str = "kick-event-message-id";

/// The header with the time at which a delivery was sent.
pub const H_TIMESTAMP: &'static str = "kick-event-message-timestamp";

/// The header with a delivery's signature.
pub const H_SIGNATURE: &'static str = "kick-event-signature";

/// The header with the event's name.
pub const H_EVENT_TYPE: &'static str = "kick-event-type";

/// A write that an event asks for.
#[derive(Debug)]
pub enum EventOp {
    /// The channel went live.
    LiveStarted { channel: i64, started_at: Option<Timestamp> },
    /// The channel's stream ended.
    LiveEnded { channel: i64 },
    /// The channel streams something else.
    CategoryChanged { channel: i64, category: String },
    /// The viewer has a row for the channel from now on.
    EnsureRelation { channel: i64, user: i64 },
    /// The viewer follows.
    Followed { channel: i64, user: i64 },
    /// The viewer subscribed.
    Subscribed {
        channel: i64,
        user: i64,
        created_at: Option<Timestamp>,
        expires_at: Option<Timestamp>,
        months: Option<i64>,
    },
    /// The viewer's subscription goes on.
    Renewed { channel: i64, user: i64, months: Option<i64>, expires_at: Option<Timestamp> },
    /// The viewer gave subscriptions away.
    GiftsGiven { channel: i64, user: i64, count: i64 },
    /// The viewer was given a subscription.
    GiftReceived { channel: i64, user: i64, expires_at: Option<Timestamp> },
    /// The viewer wrote in the chat.
    ChatSeen { channel: i64, user: i64 },
    /// The viewer has these badges, and of the three no others.
    Badges { channel: i64, user: i64, is_moderator: bool, is_vip: bool, is_og: bool },
    /// The viewer has the badge of a subscriber of so many months.
    SubscriberBadge { channel: i64, user: i64, months: i64 },
    /// The viewer has the badge of someone who gave so many subscriptions away.
    GifterBadge { channel: i64, user: i64, gifted: i64 },
    /// The viewer gave KICKs.
    KicksGifted { channel: i64, user: i64, amount: i64 },
    /// The viewer's roles are looked at again.
    SyncPlayer { user: i64 },
    /// The viewer's roles are looked at again if a badge written before this changed a row.
    SyncPlayerIfChanged { user: i64 },
}

/// What a write is.
pub enum OpView {
    LiveStarted { channel: i64, started_at: Option<Timestamp> },
    LiveEnded { channel: i64 },
    CategoryChanged { channel: i64, category: Seq<char> },
    EnsureRelation { channel: i64, user: i64 },
    Followed { channel: i64, user: i64 },
    Subscribed {
        channel: i64,
        user: i64,
        created_at: Option<Timestamp>,
        expires_at: Option<Timestamp>,
        months: Option<i64>,
    },
    Renewed { channel: i64, user: i64, months: Option<i64>, expires_at: Option<Timestamp> },
    GiftsGiven { channel: i64, user: i64, count: i64 },
    GiftReceived { channel: i64, user: i64, expires_at: Option<Timestamp> },
    ChatSeen { channel: i64, user: i64 },
    Badges { channel: i64, user: i64, is_moderator: bool, is_vip: bool, is_og: bool },
    SubscriberBadge { channel: i64, user: i64, months: i64 },
    GifterBadge { channel: i64, user: i64, gifted: i64 },
    KicksGifted { channel: i64, user: i64, amount: i64 },
    SyncPlayer { user: i64 },
    SyncPlayerIfChanged { user: i64 },
}

impl View for EventOp {
    type V = OpView;

    open spec fn view(&self) -> OpView {
        match *self {
            EventOp::LiveStarted { channel, started_at } => OpView::LiveStarted { channel, started_at },
            EventOp::LiveEnded { channel } => OpView::LiveEnded { channel },
            EventOp::CategoryChanged { channel, category } => OpView::CategoryChanged {
                channel,
                category: category@,
            },
            EventOp::EnsureRelation { channel, user } => OpView::EnsureRelation { channel, user },
            EventOp::Followed { channel, user } => OpView::Followed { channel, user },
            EventOp::Subscribed { channel, user, created_at, expires_at, months } => OpView::Subscribed {
                channel,
                user,
                created_at,
                expires_at,
                months,
            },
            EventOp::Renewed { channel, user, months, expires_at } => OpView::Renewed {
                channel,
                user,
                months,
                expires_at,
            },
            EventOp::GiftsGiven { channel, user, count } => OpView::GiftsGiven { channel, user, count },
            EventOp::GiftReceived { channel, user, expires_at } => OpView::GiftReceived {
                channel,
                user,
                expires_at,
            },
            EventOp::ChatSeen { channel, user } => OpView::ChatSeen { channel, user },
            EventOp::Badges { channel, user, is_moderator, is_vip, is_og } => OpView::Badges {
                channel,
                user,
                is_moderator,
                is_vip,
                is_og,
            },
            EventOp::SubscriberBadge { channel, user, months } => OpView::SubscriberBadge {
                channel,
                user,
                months,
            },
            EventOp::GifterBadge { channel, user, gifted } => OpView::GifterBadge { channel, user, gifted },
            EventOp::KicksGifted { channel, user, amount } => OpView::KicksGifted { channel, user, amount },
            EventOp::SyncPlayer { user } => OpView::SyncPlayer { user },
            EventOp::SyncPlayerIfChanged { user } => OpView::SyncPlayerIfChanged { user },
        }
    }
}

/// What the writes of a list are.
pub open spec fn ops(list: Seq<EventOp>) -> Seq<OpView> {
    list.map_values(|op: EventOp| op@)
}

/// What an event is about.
#[derive(Debug, Clone, Copy, PartialEq, Eq, Structural)]
pub enum EventKind {
    LiveStatus,
    LiveMetadata,
    Follow,
    SubscriptionNew,
    SubscriptionRenewal,
    SubscriptionGifts,
    Chat,
    Kicks,
    Other,
}

/// What an event of the given name, whatever its case, is about.
pub open spec fn kind_of(event_type: Seq<char>) -> EventKind {
    let name = lowered(event_type);
    if name == "livestream.status.updated"@ {
        EventKind::LiveStatus
    } else if name == "livestream.metadata.updated"@ {
        EventKind::LiveMetadata
    } else if name == "channel.followed"@ {
        EventKind::Follow
    } else if name == "channel.subscription.new"@ {
        EventKind::SubscriptionNew
    } else if name == "channel.subscription.renewal"@ {
        EventKind::SubscriptionRenewal
    } else if name == "channel.subscription.gifts"@ {
        EventKind::SubscriptionGifts
    } else if name == "chat.message.sent"@ {
        EventKind::Chat
    } else if name == "kicks.gifted"@ {
        EventKind::Kicks
    } else {
        EventKind::Other
    }
}

/// What an event of the given name is about.
pub fn event_kind(event_type: &str) -> (r: EventKind)
    ensures
        r == kind_of(event_type@),
{
    let name = to_ascii_lowercase(event_type);
    let name = name.as_str();
    if str_eq(name, "livestream.status.updated") {
        EventKind::LiveStatus
    } else if str_eq(name, "livestream.metadata.updated") {
        EventKind::LiveMetadata
    } else if str_eq(name, "channel.followed") {
        EventKind::Follow
    } else if str_eq(name, "channel.subscription.new") {
        EventKind::SubscriptionNew
    } else if str_eq(name, "channel.subscription.renewal") {
        EventKind::SubscriptionRenewal
    } else if str_eq(name, "channel.subscription.gifts") {
        EventKind::SubscriptionGifts
    } else if str_eq(name, "chat.message.sent") {
        EventKind::Chat
    } else if str_eq(name, "kicks.gifted") {
        EventKind::Kicks
    } else {
        EventKind::Other
    }
}

/// The user's number in the member `role` of a payload.
pub open spec fn user_in(p: JsonView, role: Seq<char>) -> Option<i64> {
    match p.get(role) {
        Some(person) => person.i64_at("user_id"@),
        None => None,
    }
}

/// The user's number in the member `role` of a payload.
fn user_id_of(p: &Json, role: &str) -> (r: Option<i64>)
    ensures
        r == user_in(p@, role@),
{
    match p.get(role) {
        Some(person) => person.i64_at("user_id"),
        None => None,
    }
}

/// The instant in the member `key` of a payload.
pub open spec fn time_in(p: JsonView, key: Seq<char>) -> Option<Timestamp> {
    match p.str_at(key) {
        Some(s) => rfc3339(s),
        None => None,
    }
}

/// The instant in the member `key` of a payload.
pub fn ts_of(p: &Json, key: &str) -> (r: Option<Timestamp>)
    ensures
        r == time_in(p@, key@),
{
    match p.str_at(key) {
        Some(s) => parse_rfc3339(s),
        None => None,
    }
}

/// The instants that a payload may give.
#[derive(Debug, Clone, Copy)]
pub struct Times {
    pub started_at: Option<Timestamp>,
    pub created_at: Option<Timestamp>,
    pub expires_at: Option<Timestamp>,
}

/// The instants that a payload gives.
pub open spec fn times_in(p: JsonView) -> Times {
    Times {
        started_at: time_in(p, "started_at"@),
        created_at: time_in(p, "created_at"@),
        expires_at: time_in(p, "expires_at"@),
    }
}

/// The name of the category in a value.
pub open spec fn category_name(p: JsonView) -> Option<Seq<char>> {
    match p.get("category"@) {
        Some(category) => category.str_at("name"@),
        None => None,
    }
}

/// The category that a payload names, in its metadata or by itself.
pub open spec fn category_in(p: JsonView) -> Option<Seq<char>> {
    let nested = match p.get("metadata"@) {
        Some(metadata) => category_name(metadata),
        None => None,
    };
    match nested {
        Some(_) => nested,
        None => category_name(p),
    }
}

/// The numbers of the users in a list; whoever has none is left out.
pub open spec fn users_in(list: Seq<JsonView>) -> Seq<i64>
    decreases list.len(),
{
    if list.len() == 0 {
        seq![]
    } else {
        match list.last().i64_at("user_id"@) {
            Some(user) => users_in(list.drop_last()).push(user),
            None => users_in(list.drop_last()),
        }
    }
}

/// The numbers of those who were given a subscription.
pub open spec fn giftees_in(p: JsonView) -> Seq<i64> {
    match p.array_at("giftees"@) {
        Some(list) => users_in(list),
        None => seq![],
    }
}

/// A badge: its type, and the count on it.
pub struct BadgeView {
    pub kind: Seq<char>,
    pub count: Option<i64>,
}

/// The badges in a list; what has no type is left out.
pub open spec fn badges_of(list: Seq<JsonView>) -> Seq<BadgeView>
    decreases list.len(),
{
    if list.len() == 0 {
        seq![]
    } else {
        match list.last().str_at("type"@) {
            Some(kind) => badges_of(list.drop_last()).push(
                BadgeView { kind, count: list.last().i64_at("count"@) },
            ),
            None => badges_of(list.drop_last()),
        }
    }
}

/// The list of the sender's badges in a payload.
pub open spec fn badge_list(p: JsonView) -> Option<Seq<JsonView>> {
    match p.get("sender"@) {
        Some(sender) => match sender.get("identity"@) {
            Some(identity) => identity.array_at("badges"@),
            None => None,
        },
        None => None,
    }
}

/// The sender's badges.
pub open spec fn badges_in(p: JsonView) -> Seq<BadgeView> {
    match badge_list(p) {
        Some(list) => badges_of(list),
        None => seq![],
    }
}

/// Whether a badge of this type is among them.
pub open spec fn has_badge(badges: Seq<BadgeView>, kind: Seq<char>) -> bool
    decreases badges.len(),
{
    badges.len() > 0 && (badges[0].kind == kind || has_badge(badges.skip(1), kind))
}

/// The count on the first badge of this type.
pub open spec fn badge_count(badges: Seq<BadgeView>, kind: Seq<char>) -> Option<i64>
    decreases badges.len(),
{
    if badges.len() == 0 {
        None
    } else if badges[0].kind == kind {
        badges[0].count
    } else {
        badge_count(badges.skip(1), kind)
    }
}

/// The months on a subscriber's badge, at least one.
pub open spec fn badge_months(badges: Seq<BadgeView>) -> i64 {
    match badge_count(badges, "subscriber"@) {
        Some(n) => if n > 1 {
            n
        } else {
            1
        },
        None => 1,
    }
}

/// The KICKs that a payload gives.
pub open spec fn amount_in(p: JsonView) -> i64 {
    let gift = match p.get("gift"@) {
        Some(gift) => gift.i64_at("amount"@),
        None => None,
    };
    match gift {
        Some(n) => n,
        None => match p.i64_at("amount"@) {
            Some(n) => n,
            None => 0,
        },
    }
}

/// Who gave the KICKs.
pub open spec fn giver_in(p: JsonView) -> Option<i64> {
    match user_in(p, "sender"@) {
        Some(user) => Some(user),
        None => user_in(p, "gifter"@),
    }
}

/// The writes for those who were given a subscription.
pub open spec fn gift_ops(channel: i64, giftees: Seq<i64>, expires_at: Option<Timestamp>) -> Seq<OpView>
    decreases giftees.len(),
{
    if giftees.len() == 0 {
        seq![]
    } else {
        let user = giftees.last();
        gift_ops(channel, giftees.drop_last(), expires_at).push(OpView::EnsureRelation { channel, user }).push(
            OpView::GiftReceived { channel, user, expires_at },
        ).push(OpView::SyncPlayer { user })
    }
}

/// How many subscriptions were given: as many as there are receivers, and at least one.
pub open spec fn gift_count(giftees: Seq<i64>) -> int {
    if giftees.len() < 1 {
        1
    } else {
        giftees.len() as int
    }
}

/// The writes for a chat message.
pub open spec fn chat_ops(channel: i64, user: i64, badges: Seq<BadgeView>) -> Seq<OpView> {
    let always = seq![
        OpView::EnsureRelation { channel, user },
        OpView::ChatSeen { channel, user },
        OpView::Badges {
            channel,
            user,
            is_moderator: has_badge(badges, "moderator"@),
            is_vip: has_badge(badges, "vip"@),
            is_og: has_badge(badges, "og"@),
        },
    ];
    let with_months = if has_badge(badges, "subscriber"@) || has_badge(badges, "founder"@) {
        always.push(OpView::SubscriberBadge { channel, user, months: badge_months(badges) })
    } else {
        always
    };
    let with_gifts = match badge_count(badges, "sub_gifter"@) {
        Some(gifted) => with_months.push(OpView::GifterBadge { channel, user, gifted }),
        None => with_months,
    };
    with_gifts.push(OpView::SyncPlayerIfChanged { user })
}

/// The writes for gifts.
pub open spec fn gifts_ops(channel: i64, p: JsonView, expires_at: Option<Timestamp>) -> Seq<OpView> {
    let giftees = giftees_in(p);
    let given = match user_in(p, "gifter"@) {
        Some(user) => if user > 0 {
            seq![
                OpView::EnsureRelation { channel, user },
                OpView::GiftsGiven { channel, user, count: gift_count(giftees) as i64 },
                OpView::SyncPlayer { user },
            ]
        } else {
            seq![]
        },
        None => seq![],
    };
    given + gift_ops(channel, giftees, expires_at)
}

/// The writes that an event on a channel asks for, given the instants in its payload.
pub open spec fn channel_ops(kind: EventKind, channel: i64, p: JsonView, times: Times) -> Seq<OpView> {
    match kind {
        EventKind::LiveStatus => if p.bool_at("is_live"@) == Some(true) {
            seq![OpView::LiveStarted { channel, started_at: times.started_at }]
        } else {
            seq![OpView::LiveEnded { channel }]
        },
        EventKind::LiveMetadata => match category_in(p) {
            Some(category) => seq![OpView::CategoryChanged { channel, category }],
            None => seq![],
        },
        EventKind::Follow => match user_in(p, "follower"@) {
            Some(user) => seq![
                OpView::EnsureRelation { channel, user },
                OpView::Followed { channel, user },
                OpView::SyncPlayer { user },
            ],
            None => seq![],
        },
        EventKind::SubscriptionNew => match user_in(p, "subscriber"@) {
            Some(user) => seq![
                OpView::EnsureRelation { channel, user },
                OpView::Subscribed {
                    channel,
                    user,
                    created_at: times.created_at,
                    expires_at: times.expires_at,
                    months: p.i64_at("duration"@),
                },
                OpView::SyncPlayer { user },
            ],
            None => seq![],
        },
        EventKind::SubscriptionRenewal => match user_in(p, "subscriber"@) {
            Some(user) => seq![
                OpView::EnsureRelation { channel, user },
                OpView::Renewed {
                    channel,
                    user,
                    months: p.i64_at("duration"@),
                    expires_at: times.expires_at,
                },
                OpView::SyncPlayer { user },
            ],
            None => seq![],
        },
        EventKind::SubscriptionGifts => gifts_ops(channel, p, times.expires_at),
        EventKind::Chat => match user_in(p, "sender"@) {
            Some(user) => chat_ops(channel, user, badges_in(p)),
            None => seq![],
        },
        EventKind::Kicks => match giver_in(p) {
            Some(user) => if amount_in(p) > 0 {
                seq![
                    OpView::EnsureRelation { channel, user },
                    OpView::KicksGifted { channel, user, amount: amount_in(p) },
                    OpView::SyncPlayer { user },
                ]
            } else {
                seq![]
            },
            None => seq![],
        },
        EventKind::Other => seq![],
    }
}

/// The writes that an event asks for, given the instants in its payload: none where the payload
/// names no channel.
pub open spec fn planned(event_type: Seq<char>, p: JsonView, times: Times) -> Seq<OpView> {
    match user_in(p, "broadcaster"@) {
        Some(channel) => channel_ops(kind_of(event_type), channel, p, times),
        None => seq![],
    }
}

/// A badge: its type, and the count on it.
struct Badge {
    kind: String,
    count: Option<i64>,
}

impl View for Badge {
    type V = BadgeView;

    closed spec fn view(&self) -> BadgeView {
        BadgeView { kind: self.kind@, count: self.count }
    }
}

/// What the badges of a list are.
spec fn badge_views(list: Seq<Badge>) -> Seq<BadgeView> {
    list.map_values(|b: Badge| b@)
}

/// The sender's badges.
fn read_badges(p: &Json) -> (r: Vec<Badge>)
    ensures
        badge_views(r@) == badges_in(p@),
{
    let mut r: Vec<Badge> = Vec::new();
    assert(badge_views(r@) =~= seq![]);
    let sender = match p.get("sender") {
        Some(v) => v,
        None => return r,
    };
    let identity = match sender.get("identity") {
        Some(v) => v,
        None => return r,
    };
    let list = match identity.array_at("badges") {
        Some(list) => list,
        None => return r,
    };
    let ghost all = jsons(list@);
    assert(badges_in(p@) == badges_of(all));
    let mut i: usize = 0;
    while i < list.len()
        invariant
            i <= list.len(),
            all == jsons(list@),
            badge_views(r@) == badges_of(all.take(i as int)),
        decreases list.len() - i,
    {
        proof {
            assert(all.take(i + 1).drop_last() =~= all.take(i as int));
            assert(all.take(i + 1).last() == list@[i as int]@);
        }
        if let Some(kind) = list[i].str_at("type") {
            let badge = Badge { kind: kind.to_owned(), count: list[i].i64_at("count") };
            let ghost before = r@;
            r.push(badge);
            assert(badge_views(r@) =~= badge_views(before).push(badge@));
        }
        i = i + 1;
    }
    assert(all.take(i as int) =~= all);
    r
}

/// Whether a badge of this type is among them.
fn badge_among(badges: &Vec<Badge>, kind: &str) -> (r: bool)
    ensures
        r == has_badge(badge_views(badges@), kind@),
{
    let ghost all = badge_views(badges@);
    let mut i: usize = 0;
    assert(all.skip(0) =~= all);
    while i < badges.len()
        invariant
            i <= badges.len(),
            all == badge_views(badges@),
            has_badge(all, kind@) == has_badge(all.skip(i as int), kind@),
        decreases badges.len() - i,
    {
        assert(all.skip(i as int)[0] == badges@[i as int]@);
        assert(all.skip(i as int).skip(1) =~= all.skip(i + 1));
        if str_eq(badges[i].kind.as_str(), kind) {
            return true;
        }
        i = i + 1;
    }
    false
}

/// The count on the first badge of this type.
fn count_of(badges: &Vec<Badge>, kind: &str) -> (r: Option<i64>)
    ensures
        r == badge_count(badge_views(badges@), kind@),
{
    let ghost all = badge_views(badges@);
    let mut i: usize = 0;
    assert(all.skip(0) =~= all);
    while i < badges.len()
        invariant
            i <= badges.len(),
            all == badge_views(badges@),
            badge_count(all, kind@) == badge_count(all.skip(i as int), kind@),
        decreases badges.len() - i,
    {
        assert(all.skip(i as int)[0] == badges@[i as int]@);
        assert(all.skip(i as int).skip(1) =~= all.skip(i + 1));
        if str_eq(badges[i].kind.as_str(), kind) {
            return badges[i].count;
        }
        i = i + 1;
    }
    None
}

/// The numbers of those who were given a subscription.
fn read_giftees(p: &Json) -> (r: Vec<i64>)
    ensures
        r@ == giftees_in(p@),
{
    let mut r: Vec<i64> = Vec::new();
    let list = match p.array_at("giftees") {
        Some(list) => list,
        None => return r,
    };
    let ghost all = jsons(list@);
    let mut i: usize = 0;
    while i < list.len()
        invariant
            i <= list.len(),
            all == jsons(list@),
            r@ == users_in(all.take(i as int)),
        decreases list.len() - i,
    {
        proof {
            assert(all.take(i + 1).drop_last() =~= all.take(i as int));
            assert(all.take(i + 1).last() == list@[i as int]@);
        }
        if let Some(user) = list[i].i64_at("user_id") {
            r.push(user);
        }
        i = i + 1;
    }
    assert(all.take(i as int) =~= all);
    r
}

/// The name of the category in a value.
fn read_category_name(p: &Json) -> (r: Option<String>)
    ensures
        string_opt(r) == category_name(p@),
{
    match p.get("category") {
        Some(category) => match category.str_at("name") {
            Some(name) => Some(name.to_owned()),
            None => None,
        },
        None => None,
    }
}

/// The category that a payload names.
fn read_category(p: &Json) -> (r: Option<String>)
    ensures
        string_opt(r) == category_in(p@),
{
    if let Some(metadata) = p.get("metadata") {
        if let Some(name) = read_category_name(metadata) {
            return Some(name);
        }
    }
    read_category_name(p)
}

/// The KICKs that a payload gives.
fn read_amount(p: &Json) -> (r: i64)
    ensures
        r == amount_in(p@),
{
    if let Some(gift) = p.get("gift") {
        if let Some(n) = gift.i64_at("amount") {
            return n;
        }
    }
    match p.i64_at("amount") {
        Some(n) => n,
        None => 0,
    }
}

/// Appends a write.
fn push_op(list: &mut Vec<EventOp>, op: EventOp)
    ensures
        ops(final(list)@) == ops(old(list)@).push(op@),
{
    list.push(op);
    assert(ops(list@) =~= ops(old(list)@).push(op@));
}

/// The writes for a chat message.
fn plan_chat(channel: i64, user: i64, p: &Json) -> (r: Vec<EventOp>)
    ensures
        ops(r@) == chat_ops(channel, user, badges_in(p@)),
{
    let badges = read_badges(p);
    let is_moderator = badge_among(&badges, "moderator");
    let is_vip = badge_among(&badges, "vip");
    let is_og = badge_among(&badges, "og");
    let mut r = vec![
        EventOp::EnsureRelation { channel, user },
        EventOp::ChatSeen { channel, user },
        EventOp::Badges { channel, user, is_moderator, is_vip, is_og },
    ];
    assert(ops(r@) =~= seq![
        OpView::EnsureRelation { channel, user },
        OpView::ChatSeen { channel, user },
        OpView::Badges { channel, user, is_moderator, is_vip, is_og },
    ]);
    if badge_among(&badges, "subscriber") || badge_among(&badges, "founder") {
        let months: i64 = match count_of(&badges, "subscriber") {
            Some(n) => if n > 1 {
                n
            } else {
                1
            },
            None => 1,
        };
        push_op(&mut r, EventOp::SubscriberBadge { channel, user, months });
    }
    if let Some(gifted) = count_of(&badges, "sub_gifter") {
        push_op(&mut r, EventOp::GifterBadge { channel, user, gifted });
    }
    push_op(&mut r, EventOp::SyncPlayerIfChanged { user });
    r
}

/// The writes for gifts.
fn plan_gifts(channel: i64, p: &Json, expires_at: Option<Timestamp>) -> (r: Vec<EventOp>)
    ensures
        ops(r@) == gifts_ops(channel, p@, expires_at),
{
    let giftees = read_giftees(p);
    let mut r: Vec<EventOp> = Vec::new();
    assert(ops(r@) =~= seq![]);
    if let Some(user) = user_id_of(p, "gifter") {
        if user > 0 {
            let count: usize = if giftees.len() < 1 {
                1
            } else {
                giftees.len()
            };
            r = vec![
                EventOp::EnsureRelation { channel, user },
                EventOp::GiftsGiven { channel, user, count: count as i64 },
                EventOp::SyncPlayer { user },
            ];
            assert(ops(r@) =~= seq![
                OpView::EnsureRelation { channel, user },
                OpView::GiftsGiven { channel, user, count: gift_count(giftees@) as i64 },
                OpView::SyncPlayer { user },
            ]);
        }
    }
    let ghost given = ops(r@);
    let mut i: usize = 0;
    assert(given + gift_ops(channel, giftees@.take(0), expires_at) =~= given);
    while i < giftees.len()
        invariant
            i <= giftees.len(),
            ops(r@) == given + gift_ops(channel, giftees@.take(i as int), expires_at),
        decreases giftees.len() - i,
    {
        let user: i64 = giftees[i];
        proof {
            assert(giftees@.take(i + 1).drop_last() =~= giftees@.take(i as int));
            assert(giftees@.take(i + 1).last() == user);
        }
        push_op(&mut r, EventOp::EnsureRelation { channel, user });
        push_op(&mut r, EventOp::GiftReceived { channel, user, expires_at });
        push_op(&mut r, EventOp::SyncPlayer { user });
        assert(ops(r@) =~= given + gift_ops(channel, giftees@.take(i + 1), expires_at));
        i = i + 1;
    }
    assert(giftees@.take(i as int) =~= giftees@);
    r
}

/// The writes that make a row for the viewer, change it, and have the viewer's roles looked at.
fn three(first: EventOp, second: EventOp, third: EventOp) -> (r: Vec<EventOp>)
    ensures
        ops(r@) == seq![first@, second@, third@],
{
    let r = vec![first, second, third];
    assert(ops(r@) =~= seq![first@, second@, third@]);
    r
}

/// No write.
fn nothing() -> (r: Vec<EventOp>)
    ensures
        ops(r@) == Seq::<OpView>::empty(),
{
    let r: Vec<EventOp> = Vec::new();
    assert(ops(r@) =~= Seq::<OpView>::empty());
    r
}

/// One write.
fn one(op: EventOp) -> (r: Vec<EventOp>)
    ensures
        ops(r@) == seq![op@],
{
    let r = vec![op];
    assert(ops(r@) =~= seq![op@]);
    r
}

/// The writes that an event asks for, given the instants in its payload.
pub fn plan_given(event_type: &str, p: &Json, times: Times) -> (r: Vec<EventOp>)
    ensures
        ops(r@) == planned(event_type@, p@, times),
{
    let channel: i64 = match user_id_of(p, "broadcaster") {
        Some(channel) => channel,
        None => return nothing(),
    };
    match event_kind(event_type) {
        EventKind::LiveStatus => {
            let is_live = match p.bool_at("is_live") {
                Some(b) => b,
                None => false,
            };
            if is_live {
                one(EventOp::LiveStarted { channel, started_at: times.started_at })
            } else {
                one(EventOp::LiveEnded { channel })
            }
        },
        EventKind::LiveMetadata => match read_category(p) {
            Some(category) => one(EventOp::CategoryChanged { channel, category }),
            None => nothing(),
        },
        EventKind::Follow => match user_id_of(p, "follower") {
            Some(user) => three(
                EventOp::EnsureRelation { channel, user },
                EventOp::Followed { channel, user },
                EventOp::SyncPlayer { user },
            ),
            None => nothing(),
        },
        EventKind::SubscriptionNew => match user_id_of(p, "subscriber") {
            Some(user) => three(
                EventOp::EnsureRelation { channel, user },
                EventOp::Subscribed {
                    channel,
                    user,
                    created_at: times.created_at,
                    expires_at: times.expires_at,
                    months: p.i64_at("duration"),
                },
                EventOp::SyncPlayer { user },
            ),
            None => nothing(),
        },
        EventKind::SubscriptionRenewal => match user_id_of(p, "subscriber") {
            Some(user) => three(
                EventOp::EnsureRelation { channel, user },
                EventOp::Renewed {
                    channel,
                    user,
                    months: p.i64_at("duration"),
                    expires_at: times.expires_at,
                },
                EventOp::SyncPlayer { user },
            ),
            None => nothing(),
        },
        EventKind::SubscriptionGifts => plan_gifts(channel, p, times.expires_at),
        EventKind::Chat => match user_id_of(p, "sender") {
            Some(user) => plan_chat(channel, user, p),
            None => nothing(),
        },
        EventKind::Kicks => {
            let sender = match user_id_of(p, "sender") {
                Some(user) => Some(user),
                None => user_id_of(p, "gifter"),
            };
            match sender {
                Some(user) => {
                    let amount: i64 = read_amount(p);
                    if amount > 0 {
                        three(
                            EventOp::EnsureRelation { channel, user },
                            EventOp::KicksGifted { channel, user, amount },
                            EventOp::SyncPlayer { user },
                        )
                    } else {
                        nothing()
                    }
                },
                None => nothing(),
            }
        },
        EventKind::Other => nothing(),
    }
}

/// The writes that an event asks for.
pub fn plan_event(event_type: &str, p: &Json) -> (r: Vec<EventOp>)
    ensures
        ops(r@) == planned(event_type@, p@, times_in(p@)),
{
    let times = Times {
        started_at: ts_of(p, "started_at"),
        created_at: ts_of(p, "created_at"),
        expires_at: ts_of(p, "expires_at"),
    };
    plan_given(event_type, p, times)
}

} // verus!
