//! The statements that carry out an event's writes, what they do to a relation, and what no event
//! ever does.

use vstd::prelude::*;

use crate::json::JsonView;
use crate::routes::webhooks::{
    badges_in, chat_ops, channel_ops, gift_ops, giftees_in, has_badge, kind_of, planned, user_in,
    BadgeView, EventOp, OpView, Times,
};
use crate::services::relation::{coalesce, greatest, Relation};
use crate::time::Timestamp;

verus! {

/// `$1` is the channel, `$2` when it went live.
pub const LIVE_STARTED: &'static str = "UPDATE broadcasters SET is_live = true, \
    live_started_at = COALESCE($2, now()), updated_at = now() \
    WHERE kick_channel_id = $1";

/// `$1` is the channel.
pub const LIVE_ENDED: &'static str = "UPDATE broadcasters SET is_live = false, last_live_at = now(), \
    viewer_count = 0, updated_at = now() WHERE kick_channel_id = $1";

/// `$1` is the channel, `$2` the category.
pub const CATEGORY_CHANGED: &'static str = "UPDATE broadcasters SET current_category = $2, updated_at = now() \
    WHERE kick_channel_id = $1";

/// `$1` is the channel, `$2` the viewer.
pub const ENSURE_RELATION: &'static str = "INSERT INTO channel_relations (kick_channel_id, kick_user_id) \
    VALUES ($1,$2) ON CONFLICT (kick_channel_id, kick_user_id) DO NOTHING";

/// `$1` is the channel, `$2` the viewer.
pub const FOLLOWED: &'static str = "UPDATE channel_relations SET is_follower=true, \
    followed_at=COALESCE(followed_at, now()), last_synced_at=now() \
    WHERE kick_channel_id=$1 AND kick_user_id=$2";

/// `$1` is the channel, `$2` the viewer, `$3` when it began, `$4` when it ends, `$5` the months.
pub const SUBSCRIBED: &'static str = "UPDATE channel_relations SET is_subscriber=true, \
    subscribed_at=COALESCE(subscribed_at, COALESCE($3, now())), \
    sub_expires_at=COALESCE($4, sub_expires_at), \
    sub_months_cumulative=GREATEST(sub_months_cumulative, COALESCE($5, 1)), \
    sub_streak_months=GREATEST(sub_streak_months, 1), \
    last_synced_at=now() \
    WHERE kick_channel_id=$1 AND kick_user_id=$2";

/// `$1` is the channel, `$2` the viewer, `$3` the months, `$4` when it ends.
pub const RENEWED: &'static str = "UPDATE channel_relations SET is_subscriber=true, \
    sub_expires_at=COALESCE($4, sub_expires_at), \
    sub_months_cumulative=GREATEST(sub_months_cumulative + 1, COALESCE($3, 0)), \
    sub_streak_months=sub_streak_months + 1, \
    last_synced_at=now() \
    WHERE kick_channel_id=$1 AND kick_user_id=$2";

/// `$1` is the channel, `$2` the viewer, `$3` how many were given.
pub const GIFTS_GIVEN: &'static str = "UPDATE channel_relations SET \
    gifted_subs_given = gifted_subs_given + $3, last_synced_at=now() \
    WHERE kick_channel_id=$1 AND kick_user_id=$2";

/// `$1` is the channel, `$2` the viewer, `$3` when it ends.
pub const GIFT_RECEIVED: &'static str = "UPDATE channel_relations SET is_subscriber=true, sub_is_gift=true, \
    subscribed_at=COALESCE(subscribed_at, now()), \
    sub_expires_at=COALESCE($3, sub_expires_at), \
    sub_months_cumulative=GREATEST(sub_months_cumulative, 1), \
    sub_streak_months=GREATEST(sub_streak_months, 1), \
    last_synced_at=now() \
    WHERE kick_channel_id=$1 AND kick_user_id=$2";

/// `$1` is the channel, `$2` the viewer.
pub const CHAT_SEEN: &'static str = "UPDATE channel_relations SET chat_messages_30d = chat_messages_30d + 1, \
    last_seen_at = now() WHERE kick_channel_id=$1 AND kick_user_id=$2";

/// `$1` is the channel, `$2` the viewer, then the badges of a moderator, a VIP and an OG.
pub const BADGES: &'static str = "UPDATE channel_relations SET is_moderator=$3, is_vip=$4, is_og=$5, \
    last_synced_at=now() \
    WHERE kick_channel_id=$1 AND kick_user_id=$2 \
    AND (is_moderator IS DISTINCT FROM $3 \
    OR is_vip IS DISTINCT FROM $4 \
    OR is_og IS DISTINCT FROM $5)";

/// `$1` is the channel, `$2` the viewer, `$3` the months.
pub const SUBSCRIBER_BADGE: &'static str = "UPDATE channel_relations SET is_subscriber=true, \
    subscribed_at=COALESCE(subscribed_at, now()), \
    sub_months_cumulative=GREATEST(sub_months_cumulative, $3), \
    sub_streak_months=GREATEST(sub_streak_months, 1), \
    last_synced_at=now() \
    WHERE kick_channel_id=$1 AND kick_user_id=$2 \
    AND (is_subscriber = false OR sub_months_cumulative < $3)";

/// `$1` is the channel, `$2` the viewer, `$3` how many were given.
pub const GIFTER_BADGE: &'static str = "UPDATE channel_relations SET gifted_subs_given=$3, last_synced_at=now() \
    WHERE kick_channel_id=$1 AND kick_user_id=$2 AND gifted_subs_given < $3";

/// `$1` is the channel, `$2` the viewer, `$3` the amount.
pub const KICKS_GIFTED: &'static str = "UPDATE channel_relations SET kicks_donated = kicks_donated + $3, \
    last_synced_at=now() WHERE kick_channel_id=$1 AND kick_user_id=$2";

/// The statement of a write; none where it only has roles looked at.
pub open spec fn statement_of(op: OpView) -> Option<Seq<char>> {
    match op {
        OpView::LiveStarted { .. } => Some(LIVE_STARTED@),
        OpView::LiveEnded { .. } => Some(LIVE_ENDED@),
        OpView::CategoryChanged { .. } => Some(CATEGORY_CHANGED@),
        OpView::EnsureRelation { .. } => Some(ENSURE_RELATION@),
        OpView::Followed { .. } => Some(FOLLOWED@),
        OpView::Subscribed { .. } => Some(SUBSCRIBED@),
        OpView::Renewed { .. } => Some(RENEWED@),
        OpView::GiftsGiven { .. } => Some(GIFTS_GIVEN@),
        OpView::GiftReceived { .. } => Some(GIFT_RECEIVED@),
        OpView::ChatSeen { .. } => Some(CHAT_SEEN@),
        OpView::Badges { .. } => Some(BADGES@),
        OpView::SubscriberBadge { .. } => Some(SUBSCRIBER_BADGE@),
        OpView::GifterBadge { .. } => Some(GIFTER_BADGE@),
        OpView::KicksGifted { .. } => Some(KICKS_GIFTED@),
        OpView::SyncPlayer { .. } => None,
        OpView::SyncPlayerIfChanged { .. } => None,
    }
}

impl EventOp {
    /// The statement of this write; none where it only has roles looked at.
    pub fn statement(&self) -> (r: Option<&'static str>)
        ensures
            match statement_of(self@) {
                Some(s) => r is Some && r->0@ == s,
                None => r is None,
            },
    {
        match self {
            EventOp::LiveStarted { .. } => Some(LIVE_STARTED),
            EventOp::LiveEnded { .. } => Some(LIVE_ENDED),
            EventOp::CategoryChanged { .. } => Some(CATEGORY_CHANGED),
            EventOp::EnsureRelation { .. } => Some(ENSURE_RELATION),
            EventOp::Followed { .. } => Some(FOLLOWED),
            EventOp::Subscribed { .. } => Some(SUBSCRIBED),
            EventOp::Renewed { .. } => Some(RENEWED),
            EventOp::GiftsGiven { .. } => Some(GIFTS_GIVEN),
            EventOp::GiftReceived { .. } => Some(GIFT_RECEIVED),
            EventOp::ChatSeen { .. } => Some(CHAT_SEEN),
            EventOp::Badges { .. } => Some(BADGES),
            EventOp::SubscriberBadge { .. } => Some(SUBSCRIBER_BADGE),
            EventOp::GifterBadge { .. } => Some(GIFTER_BADGE),
            EventOp::KicksGifted { .. } => Some(KICKS_GIFTED),
            EventOp::SyncPlayer { .. } => None,
            EventOp::SyncPlayerIfChanged { .. } => None,
        }
    }
}

/// Whether a write is of a badge: such a write may change nothing.
pub open spec fn is_badge_write(op: OpView) -> bool {
    op is Badges || op is SubscriberBadge || op is GifterBadge
}

/// Whose roles a write has looked at, where a badge written before it changed a row or did not.
pub open spec fn synced_user(op: OpView, changed: bool) -> Option<i64> {
    match op {
        OpView::SyncPlayer { user } => Some(user),
        OpView::SyncPlayerIfChanged { user } => if changed {
            Some(user)
        } else {
            None
        },
        _ => None,
    }
}

impl EventOp {
    /// Whether a badge has changed a row by now, where this write changed so many rows.
    pub fn badge_changed(&self, changed: bool, rows: u64) -> (r: bool)
        ensures
            r == (changed || (is_badge_write(self@) && rows > 0)),
    {
        match self {
            EventOp::Badges { .. } | EventOp::SubscriberBadge { .. } | EventOp::GifterBadge { .. } => changed || rows
                > 0,
            _ => changed,
        }
    }

    /// Whose roles this write has looked at, where a badge written before it changed a row or did
    /// not.
    pub fn syncs(&self, changed: bool) -> (r: Option<i64>)
        ensures
            r == synced_user(self@, changed),
    {
        match self {
            EventOp::SyncPlayer { user } => Some(*user),
            EventOp::SyncPlayerIfChanged { user } => if changed {
                Some(*user)
            } else {
                None
            },
            _ => None,
        }
    }
}

/// A number, where there is one, or else the given one.
pub open spec fn number_or(n: Option<i64>, other: int) -> int {
    match n {
        Some(v) => v as int,
        None => other,
    }
}

/// The row that a write is about, after it, where it was carried out at the instant `now`.
pub open spec fn effect(op: OpView, row: Relation, now: Timestamp) -> Relation {
    match op {
        OpView::Followed { .. } => row.followed(now),
        OpView::Subscribed { created_at, expires_at, months, .. } => Relation {
            is_subscriber: true,
            subscribed_at: coalesce(row.subscribed_at, coalesce(created_at, Some(now))),
            sub_expires_at: coalesce(expires_at, row.sub_expires_at),
            sub_months_cumulative: greatest(row.sub_months_cumulative, number_or(months, 1)),
            sub_streak_months: greatest(row.sub_streak_months, 1),
            last_synced_at: Some(now),
            ..row
        },
        OpView::Renewed { months, expires_at, .. } => Relation {
            is_subscriber: true,
            sub_expires_at: coalesce(expires_at, row.sub_expires_at),
            sub_months_cumulative: greatest(row.sub_months_cumulative + 1, number_or(months, 0)),
            sub_streak_months: row.sub_streak_months + 1,
            last_synced_at: Some(now),
            ..row
        },
        OpView::GiftsGiven { count, .. } => Relation {
            gifted_subs_given: row.gifted_subs_given + count,
            last_synced_at: Some(now),
            ..row
        },
        OpView::GiftReceived { expires_at, .. } => Relation {
            is_subscriber: true,
            sub_is_gift: true,
            subscribed_at: coalesce(row.subscribed_at, Some(now)),
            sub_expires_at: coalesce(expires_at, row.sub_expires_at),
            sub_months_cumulative: greatest(row.sub_months_cumulative, 1),
            sub_streak_months: greatest(row.sub_streak_months, 1),
            last_synced_at: Some(now),
            ..row
        },
        OpView::ChatSeen { .. } => Relation {
            chat_messages_30d: row.chat_messages_30d + 1,
            last_seen_at: Some(now),
            ..row
        },
        OpView::Badges { is_moderator, is_vip, is_og, .. } => if changes(op, row) {
            Relation { is_moderator, is_vip, is_og, last_synced_at: Some(now), ..row }
        } else {
            row
        },
        OpView::SubscriberBadge { months, .. } => if changes(op, row) {
            Relation {
                is_subscriber: true,
                subscribed_at: coalesce(row.subscribed_at, Some(now)),
                sub_months_cumulative: greatest(row.sub_months_cumulative, months as int),
                sub_streak_months: greatest(row.sub_streak_months, 1),
                last_synced_at: Some(now),
                ..row
            }
        } else {
            row
        },
        OpView::GifterBadge { gifted, .. } => if changes(op, row) {
            Relation { gifted_subs_given: gifted as int, last_synced_at: Some(now), ..row }
        } else {
            row
        },
        OpView::KicksGifted { amount, .. } => Relation {
            kicks_donated: row.kicks_donated + amount,
            last_synced_at: Some(now),
            ..row
        },
        _ => row,
    }
}

/// Whether the statement of a badge changes the row.
pub open spec fn changes(op: OpView, row: Relation) -> bool {
    match op {
        OpView::Badges { is_moderator, is_vip, is_og, .. } => row.is_moderator != is_moderator || row.is_vip
            != is_vip || row.is_og != is_og,
        OpView::SubscriberBadge { months, .. } => !row.is_subscriber || row.sub_months_cumulative < months,
        OpView::GifterBadge { gifted, .. } => row.gifted_subs_given < gifted,
        _ => false,
    }
}

/// The channel that a write is about.
pub open spec fn channel_of(op: OpView) -> Option<i64> {
    match op {
        OpView::LiveStarted { channel, .. } => Some(channel),
        OpView::LiveEnded { channel } => Some(channel),
        OpView::CategoryChanged { channel, .. } => Some(channel),
        OpView::EnsureRelation { channel, .. } => Some(channel),
        OpView::Followed { channel, .. } => Some(channel),
        OpView::Subscribed { channel, .. } => Some(channel),
        OpView::Renewed { channel, .. } => Some(channel),
        OpView::GiftsGiven { channel, .. } => Some(channel),
        OpView::GiftReceived { channel, .. } => Some(channel),
        OpView::ChatSeen { channel, .. } => Some(channel),
        OpView::Badges { channel, .. } => Some(channel),
        OpView::SubscriberBadge { channel, .. } => Some(channel),
        OpView::GifterBadge { channel, .. } => Some(channel),
        OpView::KicksGifted { channel, .. } => Some(channel),
        _ => None,
    }
}

/// The viewer whose row a write changes.
pub open spec fn row_user(op: OpView) -> Option<i64> {
    match op {
        OpView::Followed { user, .. } => Some(user),
        OpView::Subscribed { user, .. } => Some(user),
        OpView::Renewed { user, .. } => Some(user),
        OpView::GiftsGiven { user, .. } => Some(user),
        OpView::GiftReceived { user, .. } => Some(user),
        OpView::ChatSeen { user, .. } => Some(user),
        OpView::Badges { user, .. } => Some(user),
        OpView::SubscriberBadge { user, .. } => Some(user),
        OpView::GifterBadge { user, .. } => Some(user),
        OpView::KicksGifted { user, .. } => Some(user),
        _ => None,
    }
}

/// Whether a write has roles looked at, or may.
pub open spec fn is_sync(op: OpView) -> bool {
    op is SyncPlayer || op is SyncPlayerIfChanged
}

/// Whether the writes are all about one channel.
pub open spec fn on_channel(list: Seq<OpView>, channel: i64) -> bool {
    forall|i: int|
        0 <= i < list.len() ==> is_sync(#[trigger] list[i]) || channel_of(list[i]) == Some(channel)
}

/// Whether every row is made before it is written to.
pub open spec fn rows_first(list: Seq<OpView>, channel: i64) -> bool {
    forall|i: int|
        0 <= i < list.len() && row_user(#[trigger] list[i]) is Some ==> exists|j: int|
            0 <= j < i && #[trigger] list[j] == (OpView::EnsureRelation {
                channel,
                user: row_user(list[i])->0,
            })
}

proof fn lemma_gift_ops(channel: i64, giftees: Seq<i64>, expires_at: Option<Timestamp>)
    ensures
        on_channel(gift_ops(channel, giftees, expires_at), channel),
        rows_first(gift_ops(channel, giftees, expires_at), channel),
    decreases giftees.len(),
{
    if giftees.len() > 0 {
        let init = gift_ops(channel, giftees.drop_last(), expires_at);
        lemma_gift_ops(channel, giftees.drop_last(), expires_at);
        let all = gift_ops(channel, giftees, expires_at);
        assert(all.len() == init.len() + 3);
        assert forall|i: int| 0 <= i < init.len() implies all[i] == init[i] by {}
        assert forall|i: int| 0 <= i < all.len() implies is_sync(#[trigger] all[i]) || channel_of(all[i])
            == Some(channel) by {
            if i < init.len() {
                assert(all[i] == init[i]);
            }
        }
        assert forall|i: int| 0 <= i < all.len() && row_user(#[trigger] all[i]) is Some implies exists|j: int|
            0 <= j < i && #[trigger] all[j] == (OpView::EnsureRelation { channel, user: row_user(all[i])->0 }) by {
            if i < init.len() {
                assert(all[i] == init[i]);
                let j = choose|j: int|
                    0 <= j < i && #[trigger] init[j] == (OpView::EnsureRelation {
                        channel,
                        user: row_user(init[i])->0,
                    });
                assert(all[j] == init[j]);
            } else {
                assert(all[init.len() as int] == (OpView::EnsureRelation { channel, user: giftees.last() }));
            }
        }
    }
}

proof fn lemma_joined_ops(a: Seq<OpView>, b: Seq<OpView>, channel: i64)
    requires
        on_channel(a, channel),
        rows_first(a, channel),
        on_channel(b, channel),
        rows_first(b, channel),
    ensures
        on_channel(a + b, channel),
        rows_first(a + b, channel),
{
    let all = a + b;
    assert forall|i: int| 0 <= i < all.len() implies is_sync(#[trigger] all[i]) || channel_of(all[i]) == Some(
        channel,
    ) by {
        if i < a.len() {
            assert(all[i] == a[i]);
        } else {
            assert(all[i] == b[i - a.len()]);
        }
    }
    assert forall|i: int| 0 <= i < all.len() && row_user(#[trigger] all[i]) is Some implies exists|j: int|
        0 <= j < i && #[trigger] all[j] == (OpView::EnsureRelation { channel, user: row_user(all[i])->0 }) by {
        if i < a.len() {
            assert(all[i] == a[i]);
            let j = choose|j: int|
                0 <= j < i && #[trigger] a[j] == (OpView::EnsureRelation { channel, user: row_user(a[i])->0 });
            assert(all[j] == a[j]);
        } else {
            let k = i - a.len();
            assert(all[i] == b[k]);
            let j = choose|j: int|
                0 <= j < k && #[trigger] b[j] == (OpView::EnsureRelation { channel, user: row_user(b[k])->0 });
            assert(all[a.len() + j] == b[j]);
        }
    }
}

/// What an event has written is about the channel that its payload names, and no other; and every
/// row is made before it is written to.
pub proof fn law_an_event_stays_on_its_channel(event_type: Seq<char>, p: JsonView, times: Times)
    ensures
        user_in(p, "broadcaster"@) is None ==> planned(event_type, p, times).len() == 0,
        user_in(p, "broadcaster"@) matches Some(channel) ==> {
            &&& on_channel(planned(event_type, p, times), channel)
            &&& rows_first(planned(event_type, p, times), channel)
        },
{
    if let Some(channel) = user_in(p, "broadcaster"@) {
        let kind = kind_of(event_type);
        let all = channel_ops(kind, channel, p, times);
        if kind is SubscriptionGifts {
            let giftees = giftees_in(p);
            let tail = gift_ops(channel, giftees, times.expires_at);
            lemma_gift_ops(channel, giftees, times.expires_at);
            if user_in(p, "gifter"@) is Some && user_in(p, "gifter"@)->0 > 0 {
                let head = all.take(3);
                assert(head[0] == (OpView::EnsureRelation { channel, user: user_in(p, "gifter"@)->0 }));
                assert(all =~= head + tail);
                lemma_joined_ops(head, tail, channel);
            } else {
                assert(all =~= tail);
            }
        } else if all.len() > 0 {
            assert(all[0] == all[0]);
        }
    }
}

/// Whether a channel is live, and what it streams, has nobody's roles looked at.
pub proof fn law_live_state_moves_no_roles(event_type: Seq<char>, p: JsonView, times: Times)
    requires
        kind_of(event_type) is LiveStatus || kind_of(event_type) is LiveMetadata,
    ensures
        forall|i: int|
            0 <= i < planned(event_type, p, times).len() ==> !is_sync(
                #[trigger] planned(event_type, p, times)[i],
            ),
{
}

/// What an event has come to for one viewer: the viewer's row, whether a badge changed it, and
/// whether the viewer's roles are looked at.
pub struct Outcome {
    pub row: Relation,
    pub changed: bool,
    pub looked: bool,
}

/// What an event comes to for one viewer, once its writes were carried out in order at the instant
/// `now`.
pub open spec fn outcome(list: Seq<OpView>, user: i64, row: Relation, now: Timestamp) -> Outcome
    decreases list.len(),
{
    if list.len() == 0 {
        Outcome { row, changed: false, looked: false }
    } else {
        let before = outcome(list.drop_last(), user, row, now);
        let op = list.last();
        let own = row_user(op) == Some(user);
        let changed = before.changed || (own && changes(op, before.row));
        Outcome {
            row: if own {
                effect(op, before.row, now)
            } else {
                before.row
            },
            changed,
            looked: before.looked || synced_user(op, changed) == Some(user),
        }
    }
}

/// Whether nothing was taken away: no follow, no subscription, and nothing of a count.
pub open spec fn took_nothing(row: Relation, after: Relation) -> bool {
    &&& row.is_follower ==> after.is_follower
    &&& row.followed_at is Some ==> after.followed_at == row.followed_at
    &&& row.is_subscriber ==> after.is_subscriber
    &&& row.sub_is_gift ==> after.sub_is_gift
    &&& row.sub_expires_at is Some ==> after.sub_expires_at is Some
    &&& after.sub_months_cumulative >= row.sub_months_cumulative
    &&& after.sub_streak_months >= row.sub_streak_months
    &&& after.gifted_subs_given >= row.gifted_subs_given
    &&& after.kicks_donated >= row.kicks_donated
    &&& after.chat_messages_30d >= row.chat_messages_30d
    &&& after.follow_probe_misses == row.follow_probe_misses
    &&& after.follow_missed_at == row.follow_missed_at
}

/// Whether a write adds what it counts.
spec fn adds(op: OpView) -> bool {
    match op {
        OpView::GiftsGiven { count, .. } => count >= 0,
        OpView::KicksGifted { amount, .. } => amount >= 0,
        _ => true,
    }
}

proof fn lemma_outcome_takes_nothing(list: Seq<OpView>, user: i64, row: Relation, now: Timestamp)
    requires
        forall|i: int| 0 <= i < list.len() ==> adds(#[trigger] list[i]),
    ensures
        took_nothing(row, outcome(list, user, row, now).row),
    decreases list.len(),
{
    if list.len() > 0 {
        let init = list.drop_last();
        assert forall|i: int| 0 <= i < init.len() implies adds(#[trigger] init[i]) by {
            assert(init[i] == list[i]);
        }
        lemma_outcome_takes_nothing(init, user, row, now);
        assert(adds(list[list.len() - 1]));
    }
}

proof fn lemma_gift_ops_add(channel: i64, giftees: Seq<i64>, expires_at: Option<Timestamp>)
    ensures
        forall|i: int|
            0 <= i < gift_ops(channel, giftees, expires_at).len() ==> adds(
                #[trigger] gift_ops(channel, giftees, expires_at)[i],
            ),
    decreases giftees.len(),
{
    if giftees.len() > 0 {
        let init = gift_ops(channel, giftees.drop_last(), expires_at);
        let all = gift_ops(channel, giftees, expires_at);
        lemma_gift_ops_add(channel, giftees.drop_last(), expires_at);
        assert forall|i: int| 0 <= i < all.len() implies adds(#[trigger] all[i]) by {
            if i < init.len() {
                assert(all[i] == init[i]);
            }
        }
    }
}

/// No event takes a follow or a subscription away from anyone, and no count ever falls.
pub proof fn law_no_event_takes_away(
    event_type: Seq<char>,
    p: JsonView,
    times: Times,
    user: i64,
    row: Relation,
    now: Timestamp,
)
    requires
        giftees_in(p).len() <= i64::MAX,
    ensures
        took_nothing(row, outcome(planned(event_type, p, times), user, row, now).row),
{
    let list = planned(event_type, p, times);
    if let Some(channel) = user_in(p, "broadcaster"@) {
        if kind_of(event_type) is SubscriptionGifts {
            let tail = gift_ops(channel, giftees_in(p), times.expires_at);
            let head = list.len() - tail.len();
            lemma_gift_ops_add(channel, giftees_in(p), times.expires_at);
            assert forall|i: int| 0 <= i < list.len() implies adds(#[trigger] list[i]) by {
                if i >= head {
                    assert(list[i] == tail[i - head]);
                }
            }
        }
    }
    lemma_outcome_takes_nothing(list, user, row, now);
}

/// What a chat message comes to for its sender, write by write.
proof fn lemma_chat(channel: i64, user: i64, badges: Seq<BadgeView>, row: Relation, now: Timestamp)
    ensures
        ({
            let r = outcome(chat_ops(channel, user, badges), user, row, now);
            &&& r.row.is_moderator == has_badge(badges, "moderator"@)
            &&& r.row.is_vip == has_badge(badges, "vip"@)
            &&& r.row.is_og == has_badge(badges, "og"@)
            &&& r.looked == r.changed
            &&& !r.changed ==> r.row == (Relation {
                chat_messages_30d: row.chat_messages_30d + 1,
                last_seen_at: Some(now),
                ..row
            })
        }),
{
    let list = chat_ops(channel, user, badges);
    let n = list.len() as int;
    assert forall|k: int| 0 < k <= n implies (#[trigger] list.take(k)).drop_last() == list.take(k - 1) by {
        assert(list.take(k).drop_last() =~= list.take(k - 1));
    }
    assert(list.take(n) =~= list);
    assert(list.take(0) =~= seq![]);
    let start = outcome(list.take(0), user, row, now);
    let one = outcome(list.take(1), user, row, now);
    let two = outcome(list.take(2), user, row, now);
    let three = outcome(list.take(3), user, row, now);
    assert(start == (Outcome { row, changed: false, looked: false }));
    assert(one == start);
    assert(two.row == (Relation { chat_messages_30d: row.chat_messages_30d + 1, last_seen_at: Some(now), ..row }));
    assert(!two.changed && !two.looked);
    assert(three.row.is_moderator == has_badge(badges, "moderator"@));
    assert(!three.looked);
    assert(!three.changed ==> three.row == two.row);
    let four = outcome(list.take(4), user, row, now);
    let five = outcome(list.take(5), user, row, now);
    let six = outcome(list.take(6), user, row, now);
}

/// A chat message's badges are all that the sender has: the three flags are set and cleared by it.
pub proof fn law_chat_badges_set_and_clear(
    event_type: Seq<char>,
    p: JsonView,
    times: Times,
    row: Relation,
    now: Timestamp,
)
    requires
        kind_of(event_type) is Chat,
        user_in(p, "broadcaster"@) is Some,
        user_in(p, "sender"@) is Some,
    ensures
        ({
            let after = outcome(planned(event_type, p, times), user_in(p, "sender"@)->0, row, now).row;
            &&& after.is_moderator == has_badge(badges_in(p), "moderator"@)
            &&& after.is_vip == has_badge(badges_in(p), "vip"@)
            &&& after.is_og == has_badge(badges_in(p), "og"@)
        }),
{
    lemma_chat(user_in(p, "broadcaster"@)->0, user_in(p, "sender"@)->0, badges_in(p), row, now);
}

/// A chat message has its sender's roles looked at where a badge told something new; where none did,
/// the message is counted and nothing else changes.
pub proof fn law_chat_alone_moves_no_roles(
    event_type: Seq<char>,
    p: JsonView,
    times: Times,
    row: Relation,
    now: Timestamp,
)
    requires
        kind_of(event_type) is Chat,
        user_in(p, "broadcaster"@) is Some,
        user_in(p, "sender"@) is Some,
    ensures
        ({
            let r = outcome(planned(event_type, p, times), user_in(p, "sender"@)->0, row, now);
            &&& r.looked == r.changed
            &&& !r.changed ==> r.row == (Relation {
                chat_messages_30d: row.chat_messages_30d + 1,
                last_seen_at: Some(now),
                ..row
            })
        }),
{
    lemma_chat(user_in(p, "broadcaster"@)->0, user_in(p, "sender"@)->0, badges_in(p), row, now);
}

/// A badge seen a second time changes nothing, and so has no roles looked at.
pub proof fn law_a_known_badge_changes_nothing(op: OpView, row: Relation, now: Timestamp, later: Timestamp)
    requires
        op is Badges || op is SubscriberBadge || op is GifterBadge,
    ensures
        !changes(op, effect(op, row, now)),
        effect(op, effect(op, row, now), later) == effect(op, row, now),
{
}

} // verus!
