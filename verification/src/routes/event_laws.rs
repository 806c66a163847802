//! What Kick's events come to for a viewer, from the payload to the row.

use vstd::prelude::*;
use vstd::string::*;

use crate::json::JsonView;
use crate::routes::event_effects::{changes, effect, outcome, row_user, statement_of, synced_user};
use crate::routes::webhooks::{
    amount_in, badge_count, badge_list, badge_months, badges_in, badges_of, chat_ops, gift_count, gift_ops, giftees_in,
    has_badge, kind_of, planned, times_in, users_in, BadgeView, EventOp, OpView, Times,
};
use crate::services::relation::Relation;
use crate::text::lowered;
use crate::time::{rfc3339, Timestamp};

verus! {

/// The number under `user_id` of the member that an object has under the role.
pub open spec fn id_under(p: JsonView, role: Seq<char>) -> Option<i64> {
    match p.get(role) {
        Some(person) => match person.get("user_id"@) {
            Some(JsonView::Int(n)) => Some(n),
            _ => None,
        },
        None => None,
    }
}

/// The instant that an object has under the name.
pub open spec fn instant_under(p: JsonView, name: Seq<char>) -> Option<Timestamp> {
    match p.get(name) {
        Some(JsonView::Str(s)) => rfc3339(s),
        _ => None,
    }
}

/// The whole number that an object has under the name.
pub open spec fn number_under(p: JsonView, name: Seq<char>) -> Option<i64> {
    match p.get(name) {
        Some(JsonView::Int(n)) => Some(n),
        _ => None,
    }
}

proof fn lemma_kinds(event_type: Seq<char>)
    ensures
        lowered(event_type) == "livestream.status.updated"@ ==> kind_of(event_type) is LiveStatus,
        lowered(event_type) == "livestream.metadata.updated"@ ==> kind_of(event_type) is LiveMetadata,
        lowered(event_type) == "channel.followed"@ ==> kind_of(event_type) is Follow,
        lowered(event_type) == "channel.subscription.new"@ ==> kind_of(event_type) is SubscriptionNew,
        lowered(event_type) == "channel.subscription.renewal"@ ==> kind_of(event_type) is SubscriptionRenewal,
        lowered(event_type) == "channel.subscription.gifts"@ ==> kind_of(event_type) is SubscriptionGifts,
        lowered(event_type) == "chat.message.sent"@ ==> kind_of(event_type) is Chat,
        lowered(event_type) == "kicks.gifted"@ ==> kind_of(event_type) is Kicks,
        kind_of(event_type) is Other <==> {
            &&& lowered(event_type) != "livestream.status.updated"@
            &&& lowered(event_type) != "livestream.metadata.updated"@
            &&& lowered(event_type) != "channel.followed"@
            &&& lowered(event_type) != "channel.subscription.new"@
            &&& lowered(event_type) != "channel.subscription.renewal"@
            &&& lowered(event_type) != "channel.subscription.gifts"@
            &&& lowered(event_type) != "chat.message.sent"@
            &&& lowered(event_type) != "kicks.gifted"@
        },
{
    reveal_strlit("livestream.status.updated");
    reveal_strlit("livestream.metadata.updated");
    reveal_strlit("channel.followed");
    reveal_strlit("channel.subscription.new");
    reveal_strlit("channel.subscription.renewal");
    reveal_strlit("channel.subscription.gifts");
    reveal_strlit("chat.message.sent");
    reveal_strlit("kicks.gifted");
    assert("livestream.status.updated"@.len() == 25);
    assert("livestream.metadata.updated"@.len() == 27);
    assert("channel.followed"@.len() == 16);
    assert("channel.subscription.new"@.len() == 24);
    assert("channel.subscription.renewal"@.len() == 28);
    assert("channel.subscription.gifts"@.len() == 26);
    assert("chat.message.sent"@.len() == 17);
    assert("kicks.gifted"@.len() == 12);
}

proof fn lemma_one_viewer(op: OpView, channel: i64, viewer: i64, user: i64, row: Relation, now: Timestamp)
    requires
        row_user(op) == Some(viewer),
        !(op is SyncPlayer) && !(op is SyncPlayerIfChanged),
    ensures
        ({
            let list = seq![OpView::EnsureRelation { channel, user: viewer }, op, OpView::SyncPlayer { user: viewer }];
            let r = outcome(list, user, row, now);
            &&& user == viewer ==> r.row == effect(op, row, now) && r.looked
            &&& user != viewer ==> r.row == row && !r.looked
        }),
{
    let list = seq![OpView::EnsureRelation { channel, user: viewer }, op, OpView::SyncPlayer { user: viewer }];
    let two = list.drop_last();
    let one = two.drop_last();
    assert(two.last() == op);
    assert(one.last() == (OpView::EnsureRelation { channel, user: viewer }));
    assert(one.drop_last() =~= seq![]);
    let a = outcome(one.drop_last(), user, row, now);
    let b = outcome(one, user, row, now);
    let c = outcome(two, user, row, now);
    assert(b.row == row && !b.looked);
    assert(synced_user(op, c.changed) is None);
}

/// A follow makes the follower of whoever the payload names under `follower`, from now on or from
/// when a follow was known; nothing else of the row changes, nobody else's does, and the follower's
/// roles are looked at.
pub proof fn law_a_follow_is_recorded(
    event_type: Seq<char>,
    p: JsonView,
    times: Times,
    viewer: i64,
    user: i64,
    row: Relation,
    now: Timestamp,
)
    requires
        lowered(event_type) == "channel.followed"@,
        id_under(p, "broadcaster"@) is Some,
        id_under(p, "follower"@) == Some(viewer),
    ensures
        ({
            let r = outcome(planned(event_type, p, times), user, row, now);
            &&& user == viewer ==> r.looked && r.row == (Relation {
                is_follower: true,
                followed_at: if row.followed_at is Some {
                    row.followed_at
                } else {
                    Some(now)
                },
                last_synced_at: Some(now),
                ..row
            })
            &&& user != viewer ==> r.row == row && !r.looked
        }),
{
    lemma_kinds(event_type);
    let channel = id_under(p, "broadcaster"@)->0;
    lemma_one_viewer(OpView::Followed { channel, user: viewer }, channel, viewer, user, row, now);
}

/// A new subscription makes a subscriber of whoever the payload names under `subscriber`: for the
/// months under `duration` at least, or one, until the instant under `expires_at`, where it names
/// one, and since the one under `created_at`, unless an earlier beginning is known. Nothing else
/// changes.
pub proof fn law_a_subscription_is_recorded(
    event_type: Seq<char>,
    p: JsonView,
    viewer: i64,
    user: i64,
    row: Relation,
    now: Timestamp,
)
    requires
        lowered(event_type) == "channel.subscription.new"@,
        id_under(p, "broadcaster"@) is Some,
        id_under(p, "subscriber"@) == Some(viewer),
    ensures
        ({
            let r = outcome(planned(event_type, p, times_in(p)), user, row, now);
            let months = match number_under(p, "duration"@) {
                Some(n) => n as int,
                None => 1,
            };
            &&& user == viewer ==> r.looked && r.row == (Relation {
                is_subscriber: true,
                subscribed_at: if row.subscribed_at is Some {
                    row.subscribed_at
                } else if instant_under(p, "created_at"@) is Some {
                    instant_under(p, "created_at"@)
                } else {
                    Some(now)
                },
                sub_expires_at: if instant_under(p, "expires_at"@) is Some {
                    instant_under(p, "expires_at"@)
                } else {
                    row.sub_expires_at
                },
                sub_months_cumulative: if row.sub_months_cumulative >= months {
                    row.sub_months_cumulative
                } else {
                    months
                },
                sub_streak_months: if row.sub_streak_months >= 1 {
                    row.sub_streak_months
                } else {
                    1
                },
                last_synced_at: Some(now),
                ..row
            })
            &&& user != viewer ==> r.row == row && !r.looked
        }),
{
    lemma_kinds(event_type);
    let channel = id_under(p, "broadcaster"@)->0;
    let times = times_in(p);
    lemma_one_viewer(
        OpView::Subscribed {
            channel,
            user: viewer,
            created_at: times.created_at,
            expires_at: times.expires_at,
            months: p.i64_at("duration"@),
        },
        channel,
        viewer,
        user,
        row,
        now,
    );
}

/// A renewal is one month more, or the months under `duration` where those are more, and one month
/// more in a row; the subscription lasts until the instant under `expires_at`, where the payload
/// names one. Nothing else changes.
pub proof fn law_a_renewal_is_recorded(
    event_type: Seq<char>,
    p: JsonView,
    viewer: i64,
    user: i64,
    row: Relation,
    now: Timestamp,
)
    requires
        lowered(event_type) == "channel.subscription.renewal"@,
        id_under(p, "broadcaster"@) is Some,
        id_under(p, "subscriber"@) == Some(viewer),
    ensures
        ({
            let r = outcome(planned(event_type, p, times_in(p)), user, row, now);
            let months = number_under(p, "duration"@);
            &&& user == viewer ==> r.looked && r.row == (Relation {
                is_subscriber: true,
                sub_expires_at: if instant_under(p, "expires_at"@) is Some {
                    instant_under(p, "expires_at"@)
                } else {
                    row.sub_expires_at
                },
                sub_months_cumulative: if months is Some && months->0 > row.sub_months_cumulative + 1 {
                    months->0 as int
                } else if months is None && row.sub_months_cumulative + 1 < 0 {
                    0
                } else {
                    row.sub_months_cumulative + 1
                },
                sub_streak_months: row.sub_streak_months + 1,
                last_synced_at: Some(now),
                ..row
            })
            &&& user != viewer ==> r.row == row && !r.looked
        }),
{
    lemma_kinds(event_type);
    let channel = id_under(p, "broadcaster"@)->0;
    lemma_one_viewer(
        OpView::Renewed {
            channel,
            user: viewer,
            months: p.i64_at("duration"@),
            expires_at: times_in(p).expires_at,
        },
        channel,
        viewer,
        user,
        row,
        now,
    );
}

/// KICKs are credited to whoever the payload names under `sender`, or else under `gifter`: as many as
/// stand under `amount` of the gift, or else of the payload. No other count changes, and nothing is
/// credited where there are none.
pub proof fn law_kicks_are_credited(
    event_type: Seq<char>,
    p: JsonView,
    times: Times,
    giver: i64,
    user: i64,
    row: Relation,
    now: Timestamp,
)
    requires
        lowered(event_type) == "kicks.gifted"@,
        id_under(p, "broadcaster"@) is Some,
        Some(giver) == (if id_under(p, "sender"@) is Some {
            id_under(p, "sender"@)
        } else {
            id_under(p, "gifter"@)
        }),
    ensures
        ({
            let r = outcome(planned(event_type, p, times), user, row, now);
            let inner = match p.get("gift"@) {
                Some(gift) => number_under(gift, "amount"@),
                None => None,
            };
            let amount = match inner {
                Some(n) => n as int,
                None => match number_under(p, "amount"@) {
                    Some(n) => n as int,
                    None => 0,
                },
            };
            &&& user == giver && amount > 0 ==> r.looked && r.row == (Relation {
                kicks_donated: row.kicks_donated + amount,
                last_synced_at: Some(now),
                ..row
            })
            &&& user != giver || amount <= 0 ==> r.row == row && !r.looked
        }),
{
    lemma_kinds(event_type);
    let channel = id_under(p, "broadcaster"@)->0;
    let amount = amount_in(p);
    if amount > 0 {
        lemma_one_viewer(OpView::KicksGifted { channel, user: giver, amount }, channel, giver, user, row, now);
    } else {
        assert(planned(event_type, p, times) =~= seq![]);
    }
}

/// Whether the sender of a chat message has a badge of this type.
pub open spec fn wears(p: JsonView, kind: Seq<char>) -> bool {
    match p.get("sender"@) {
        Some(sender) => match sender.get("identity"@) {
            Some(identity) => match identity.get("badges"@) {
                Some(JsonView::Array(list)) => exists|i: int|
                    0 <= i < list.len() && (#[trigger] list[i]).get("type"@) == Some(JsonView::Str(kind)),
                _ => false,
            },
            None => false,
        },
        None => false,
    }
}

proof fn lemma_has_badge(badges: Seq<BadgeView>, kind: Seq<char>)
    ensures
        has_badge(badges, kind) == (exists|i: int| 0 <= i < badges.len() && (#[trigger] badges[i]).kind == kind),
    decreases badges.len(),
{
    if badges.len() > 0 {
        let rest = badges.skip(1);
        lemma_has_badge(rest, kind);
        if exists|i: int| 0 <= i < rest.len() && (#[trigger] rest[i]).kind == kind {
            let i = choose|i: int| 0 <= i < rest.len() && (#[trigger] rest[i]).kind == kind;
            assert(badges[i + 1].kind == kind);
        }
        if exists|i: int| 0 <= i < badges.len() && (#[trigger] badges[i]).kind == kind {
            let i = choose|i: int| 0 <= i < badges.len() && (#[trigger] badges[i]).kind == kind;
            if i > 0 {
                assert(rest[i - 1].kind == kind);
            }
        }
    }
}

proof fn lemma_badges_of(list: Seq<JsonView>, kind: Seq<char>)
    ensures
        (exists|i: int| 0 <= i < badges_of(list).len() && (#[trigger] badges_of(list)[i]).kind == kind) == (exists|
            i: int,
        | 0 <= i < list.len() && (#[trigger] list[i]).get("type"@) == Some(JsonView::Str(kind))),
    decreases list.len(),
{
    if list.len() > 0 {
        let init = list.drop_last();
        lemma_badges_of(init, kind);
        let shown = badges_of(list);
        let before = badges_of(init);
        if exists|i: int| 0 <= i < shown.len() && (#[trigger] shown[i]).kind == kind {
            let i = choose|i: int| 0 <= i < shown.len() && (#[trigger] shown[i]).kind == kind;
            if i < before.len() {
                assert(before[i].kind == kind);
                let j = choose|j: int|
                    0 <= j < init.len() && (#[trigger] init[j]).get("type"@) == Some(JsonView::Str(kind));
                assert(list[j] == init[j]);
            } else {
                assert(list[list.len() - 1].get("type"@) == Some(JsonView::Str(kind)));
            }
        }
        if exists|i: int| 0 <= i < list.len() && (#[trigger] list[i]).get("type"@) == Some(JsonView::Str(kind)) {
            let i = choose|i: int|
                0 <= i < list.len() && (#[trigger] list[i]).get("type"@) == Some(JsonView::Str(kind));
            if i < init.len() {
                assert(init[i] == list[i]);
                let j = choose|j: int| 0 <= j < before.len() && (#[trigger] before[j]).kind == kind;
                assert(shown[j].kind == kind);
            } else {
                assert(shown[before.len() as int].kind == kind);
            }
        }
    }
}

proof fn lemma_wears(p: JsonView, kind: Seq<char>)
    ensures
        has_badge(badges_in(p), kind) == wears(p, kind),
{
    lemma_has_badge(badges_in(p), kind);
    if let Some(list) = badge_list(p) {
        lemma_badges_of(list, kind);
    }
}

proof fn lemma_step(list: Seq<OpView>, op: OpView, user: i64, row: Relation, now: Timestamp)
    ensures
        ({
            let before = outcome(list, user, row, now);
            let r = outcome(list.push(op), user, row, now);
            let own = row_user(op) == Some(user);
            &&& own ==> r.row == effect(op, before.row, now)
            &&& !own ==> r.row == before.row
            &&& r.changed == (before.changed || (own && changes(op, before.row)))
            &&& r.looked == (before.looked || synced_user(op, r.changed) == Some(user))
        }),
{
    assert(list.push(op).drop_last() =~= list);
}

proof fn lemma_chat_outcome(
    channel: i64,
    sender: i64,
    badges: Seq<BadgeView>,
    user: i64,
    row: Relation,
    now: Timestamp,
)
    ensures
        ({
            let r = outcome(chat_ops(channel, sender, badges), user, row, now);
            let subscribes = has_badge(badges, "subscriber"@) || has_badge(badges, "founder"@);
            &&& user == sender ==> {
                &&& r.row.chat_messages_30d == row.chat_messages_30d + 1
                &&& r.row.last_seen_at == Some(now)
                &&& r.row.is_moderator == has_badge(badges, "moderator"@)
                &&& r.row.is_vip == has_badge(badges, "vip"@)
                &&& r.row.is_og == has_badge(badges, "og"@)
                &&& r.row.is_subscriber == (row.is_subscriber || subscribes)
                &&& r.row.sub_months_cumulative >= row.sub_months_cumulative
                &&& r.row.gifted_subs_given >= row.gifted_subs_given
                &&& r.row.is_follower == row.is_follower
                &&& r.row.followed_at == row.followed_at
                &&& r.row.sub_is_gift == row.sub_is_gift
                &&& r.row.sub_expires_at == row.sub_expires_at
                &&& r.row.kicks_donated == row.kicks_donated
                &&& badge_count(badges, "sub_gifter"@) is None ==> r.row.gifted_subs_given == row.gifted_subs_given
                &&& !subscribes ==> r.row.sub_months_cumulative == row.sub_months_cumulative
            }
            &&& user != sender ==> r.row == row && !r.looked
        }),
{
    let nothing = Seq::<OpView>::empty();
    let ensure = OpView::EnsureRelation { channel, user: sender };
    let seen = OpView::ChatSeen { channel, user: sender };
    let flags = OpView::Badges {
        channel,
        user: sender,
        is_moderator: has_badge(badges, "moderator"@),
        is_vip: has_badge(badges, "vip"@),
        is_og: has_badge(badges, "og"@),
    };
    let always = seq![ensure, seen, flags];
    lemma_step(nothing, ensure, user, row, now);
    lemma_step(nothing.push(ensure), seen, user, row, now);
    lemma_step(nothing.push(ensure).push(seen), flags, user, row, now);
    assert(always =~= nothing.push(ensure).push(seen).push(flags));
    let months = OpView::SubscriberBadge { channel, user: sender, months: badge_months(badges) };
    let with_months = if has_badge(badges, "subscriber"@) || has_badge(badges, "founder"@) {
        lemma_step(always, months, user, row, now);
        always.push(months)
    } else {
        always
    };
    let with_gifts = match badge_count(badges, "sub_gifter"@) {
        Some(gifted) => {
            let gifts = OpView::GifterBadge { channel, user: sender, gifted };
            lemma_step(with_months, gifts, user, row, now);
            with_months.push(gifts)
        },
        None => with_months,
    };
    lemma_step(with_gifts, OpView::SyncPlayerIfChanged { user: sender }, user, row, now);
}

/// A chat message counts one message more for its sender, and sets and clears the sender's flags by
/// the badges that it shows: a moderator's, a VIP's and an OG's each by the one of its name. A badge
/// of a subscriber or of a founder makes a subscriber, and none takes a subscription away. Nobody
/// else's row changes.
pub proof fn law_chat_is_taken_at_its_badges(
    event_type: Seq<char>,
    p: JsonView,
    times: Times,
    sender: i64,
    user: i64,
    row: Relation,
    now: Timestamp,
)
    requires
        lowered(event_type) == "chat.message.sent"@,
        id_under(p, "broadcaster"@) is Some,
        id_under(p, "sender"@) == Some(sender),
    ensures
        ({
            let r = outcome(planned(event_type, p, times), user, row, now);
            &&& user == sender ==> {
                &&& r.row.chat_messages_30d == row.chat_messages_30d + 1
                &&& r.row.last_seen_at == Some(now)
                &&& r.row.is_moderator == wears(p, "moderator"@)
                &&& r.row.is_vip == wears(p, "vip"@)
                &&& r.row.is_og == wears(p, "og"@)
                &&& r.row.is_subscriber == (row.is_subscriber || wears(p, "subscriber"@) || wears(p, "founder"@))
                &&& r.row.sub_months_cumulative >= row.sub_months_cumulative
                &&& r.row.gifted_subs_given >= row.gifted_subs_given
                &&& r.row.is_follower == row.is_follower
                &&& r.row.followed_at == row.followed_at
                &&& r.row.sub_is_gift == row.sub_is_gift
                &&& r.row.sub_expires_at == row.sub_expires_at
                &&& r.row.kicks_donated == row.kicks_donated
                &&& !wears(p, "sub_gifter"@) ==> r.row.gifted_subs_given == row.gifted_subs_given
                &&& !wears(p, "subscriber"@) && !wears(p, "founder"@) ==> r.row.sub_months_cumulative
                    == row.sub_months_cumulative
            }
            &&& user != sender ==> r.row == row && !r.looked
        }),
{
    lemma_kinds(event_type);
    let channel = id_under(p, "broadcaster"@)->0;
    let badges = badges_in(p);
    lemma_wears(p, "moderator"@);
    lemma_wears(p, "vip"@);
    lemma_wears(p, "og"@);
    lemma_wears(p, "subscriber"@);
    lemma_wears(p, "founder"@);
    lemma_wears(p, "sub_gifter"@);
    lemma_no_count_without_badge(badges, "sub_gifter"@);
    lemma_chat_outcome(channel, sender, badges, user, row, now);
}

proof fn lemma_no_count_without_badge(badges: Seq<BadgeView>, kind: Seq<char>)
    ensures
        !has_badge(badges, kind) ==> badge_count(badges, kind) is None,
    decreases badges.len(),
{
    if badges.len() > 0 {
        lemma_no_count_without_badge(badges.skip(1), kind);
    }
}

proof fn lemma_gift_outcome(
    channel: i64,
    giftees: Seq<i64>,
    expires_at: Option<Timestamp>,
    front: Seq<OpView>,
    user: i64,
    row: Relation,
    now: Timestamp,
)
    ensures
        ({
            let before = outcome(front, user, row, now);
            let r = outcome(front + gift_ops(channel, giftees, expires_at), user, row, now);
            &&& !giftees.contains(user) ==> r.row == before.row && r.looked == before.looked
            &&& giftees.contains(user) ==> {
                &&& r.looked
                &&& r.row.is_subscriber
                &&& r.row.sub_is_gift
                &&& expires_at is Some ==> r.row.sub_expires_at == expires_at
                &&& expires_at is None ==> r.row.sub_expires_at == before.row.sub_expires_at
                &&& r.row.sub_months_cumulative >= 1
            }
            &&& r.row.gifted_subs_given == before.row.gifted_subs_given
            &&& r.row.is_follower == before.row.is_follower
            &&& r.row.kicks_donated == before.row.kicks_donated
            &&& r.row.is_vip == before.row.is_vip
            &&& r.row.is_moderator == before.row.is_moderator
            &&& r.row.is_og == before.row.is_og
            &&& r.row.chat_messages_30d == before.row.chat_messages_30d
        }),
    decreases giftees.len(),
{
    if giftees.len() == 0 {
        assert(front + gift_ops(channel, giftees, expires_at) =~= front);
    } else {
        let init = giftees.drop_last();
        let last = giftees.last();
        lemma_gift_outcome(channel, init, expires_at, front, user, row, now);
        let all = front + gift_ops(channel, giftees, expires_at);
        let rest = front + gift_ops(channel, init, expires_at);
        let two = all.drop_last();
        let one = two.drop_last();
        assert(all.last() == (OpView::SyncPlayer { user: last }));
        assert(two.last() == (OpView::GiftReceived { channel, user: last, expires_at }));
        assert(one.last() == (OpView::EnsureRelation { channel, user: last }));
        assert(one.drop_last() =~= rest);
        let a = outcome(rest, user, row, now);
        let b = outcome(one, user, row, now);
        let c = outcome(two, user, row, now);
        assert(b.row == a.row && b.looked == a.looked);
        if giftees.contains(user) {
            let i = giftees.index_of(user);
            if i < init.len() {
                assert(init[i] == user);
                assert(init.contains(user));
            } else {
                assert(last == user);
            }
        } else {
            assert(last != user) by {
                assert(giftees[giftees.len() - 1] == last);
            }
            assert(!init.contains(user)) by {
                if init.contains(user) {
                    let i = init.index_of(user);
                    assert(giftees[i] == user);
                }
            }
        }
        if last == user {
            assert(giftees[giftees.len() - 1] == user);
        }
    }
}

/// Whether the payload names someone with this number among those who were given a subscription.
pub open spec fn is_giftee(p: JsonView, user: i64) -> bool {
    match p.get("giftees"@) {
        Some(JsonView::Array(list)) => exists|i: int|
            0 <= i < list.len() && (#[trigger] list[i]).get("user_id"@) == Some(JsonView::Int(user)),
        _ => false,
    }
}

proof fn lemma_giftees(list: Seq<JsonView>, user: i64)
    ensures
        users_in(list).contains(user) == (exists|i: int|
            0 <= i < list.len() && (#[trigger] list[i]).get("user_id"@) == Some(JsonView::Int(user))),
        users_in(list).len() <= list.len(),
    decreases list.len(),
{
    if list.len() > 0 {
        let init = list.drop_last();
        lemma_giftees(init, user);
        let all = users_in(list);
        let before = users_in(init);
        if all.contains(user) {
            let i = all.index_of(user);
            if i < before.len() {
                assert(before[i] == user);
                assert(before.contains(user));
                let j = choose|j: int|
                    0 <= j < init.len() && (#[trigger] init[j]).get("user_id"@) == Some(JsonView::Int(user));
                assert(list[j] == init[j]);
            } else {
                assert(list[list.len() - 1].get("user_id"@) == Some(JsonView::Int(user)));
            }
        }
        if exists|i: int| 0 <= i < list.len() && (#[trigger] list[i]).get("user_id"@) == Some(JsonView::Int(user)) {
            let i = choose|i: int|
                0 <= i < list.len() && (#[trigger] list[i]).get("user_id"@) == Some(JsonView::Int(user));
            if i < init.len() {
                assert(init[i] == list[i]);
                let j = before.index_of(user);
                assert(all[j] == user);
            } else {
                assert(all[before.len() as int] == user);
            }
        }
    }
}

/// Gifts make subscribers, by a gift, of everyone whom the payload names under `giftees`, until the
/// instant under `expires_at` where it names one; whoever it names under `gifter`, unless by no
/// positive number, is credited with one at least and no more than it lists, and no count of anyone
/// else's changes. The roles of all of them are looked at.
pub proof fn law_gifts_go_to_their_receivers(
    event_type: Seq<char>,
    p: JsonView,
    user: i64,
    row: Relation,
    now: Timestamp,
)
    requires
        lowered(event_type) == "channel.subscription.gifts"@,
        id_under(p, "broadcaster"@) is Some,
        p.get("giftees"@) matches Some(JsonView::Array(list)) ==> list.len() <= i64::MAX,
    ensures
        ({
            let r = outcome(planned(event_type, p, times_in(p)), user, row, now);
            let gives = id_under(p, "gifter"@) == Some(user) && user > 0;
            &&& r.looked == (gives || is_giftee(p, user))
            &&& is_giftee(p, user) ==> {
                &&& r.row.is_subscriber
                &&& r.row.sub_is_gift
                &&& r.row.sub_months_cumulative >= 1
                &&& r.row.sub_expires_at == (if instant_under(p, "expires_at"@) is Some {
                    instant_under(p, "expires_at"@)
                } else {
                    row.sub_expires_at
                })
            }
            &&& !is_giftee(p, user) ==> r.row.is_subscriber == row.is_subscriber && r.row.sub_is_gift
                == row.sub_is_gift && r.row.sub_expires_at == row.sub_expires_at && r.row.sub_months_cumulative
                == row.sub_months_cumulative
            &&& gives ==> r.row.gifted_subs_given == row.gifted_subs_given + gift_count(giftees_in(p))
                && r.row.gifted_subs_given > row.gifted_subs_given
            &&& !gives ==> r.row.gifted_subs_given == row.gifted_subs_given
            &&& r.row.kicks_donated == row.kicks_donated
            &&& r.row.is_follower == row.is_follower
            &&& r.row.is_vip == row.is_vip
            &&& r.row.is_moderator == row.is_moderator
            &&& r.row.is_og == row.is_og
            &&& r.row.chat_messages_30d == row.chat_messages_30d
        }),
        gift_count(giftees_in(p)) >= 1,
        p.get("giftees"@) matches Some(JsonView::Array(list)) ==> gift_count(giftees_in(p)) <= list.len() + 1,
        forall|a: i64, b: i64| #![trigger is_giftee(p, a), is_giftee(p, b)]
            a != b && is_giftee(p, a) && is_giftee(p, b) ==> gift_count(giftees_in(p)) >= 2,
{
    lemma_kinds(event_type);
    let channel = id_under(p, "broadcaster"@)->0;
    let times = times_in(p);
    let giftees = giftees_in(p);
    assert forall|u: i64| #[trigger] is_giftee(p, u) == giftees.contains(u) by {
        if let Some(JsonView::Array(list)) = p.get("giftees"@) {
            lemma_giftees(list, u);
        }
    }
    if let Some(JsonView::Array(list)) = p.get("giftees"@) {
        lemma_giftees(list, 0);
    }
    assert forall|a: i64, b: i64| #![trigger is_giftee(p, a), is_giftee(p, b)]
        a != b && is_giftee(p, a) && is_giftee(p, b) implies gift_count(giftees) >= 2 by {
        let i = giftees.index_of(a);
        let j = giftees.index_of(b);
        assert(giftees[i] == a && giftees[j] == b);
    }
    let gifter = id_under(p, "gifter"@);
    let list = planned(event_type, p, times);
    if gifter is Some && gifter->0 > 0 {
        let g = gifter->0;
        let count = gift_count(giftees) as i64;
        let front = seq![
            OpView::EnsureRelation { channel, user: g },
            OpView::GiftsGiven { channel, user: g, count },
            OpView::SyncPlayer { user: g },
        ];
        assert(list =~= front + gift_ops(channel, giftees, times.expires_at));
        lemma_one_viewer(OpView::GiftsGiven { channel, user: g, count }, channel, g, user, row, now);
        lemma_gift_outcome(channel, giftees, times.expires_at, front, user, row, now);
    } else {
        let front: Seq<OpView> = seq![];
        assert(list =~= front + gift_ops(channel, giftees, times.expires_at));
        lemma_gift_outcome(channel, giftees, times.expires_at, front, user, row, now);
    }
}

/// A channel's live state is written for the channel that the payload names: live since the instant
/// under `started_at` where `is_live` is true, and else not live; and its category, where the
/// payload names one.
pub proof fn law_live_events_are_about_their_channel(event_type: Seq<char>, p: JsonView, channel: i64)
    requires
        id_under(p, "broadcaster"@) == Some(channel),
    ensures
        lowered(event_type) == "livestream.status.updated"@ ==> planned(event_type, p, times_in(p)) == (if p.get(
            "is_live"@,
        ) == Some(JsonView::Bool(true)) {
            seq![OpView::LiveStarted { channel, started_at: instant_under(p, "started_at"@) }]
        } else {
            seq![OpView::LiveEnded { channel }]
        }),
        lowered(event_type) == "livestream.metadata.updated"@ ==> forall|i: int|
            0 <= i < planned(event_type, p, times_in(p)).len() ==> {
                let op = #[trigger] planned(event_type, p, times_in(p))[i];
                &&& op matches OpView::CategoryChanged { channel: c, category } && c == channel && {
                    ||| p.get("category"@) is Some && p.get("category"@)->0.get("name"@) == Some(
                        JsonView::Str(category),
                    )
                    ||| p.get("metadata"@) is Some && p.get("metadata"@)->0.get("category"@) is Some && p.get(
                        "metadata"@,
                    )->0.get("category"@)->0.get("name"@) == Some(JsonView::Str(category))
                }
            },
{
    lemma_kinds(event_type);
}

/// What is not an event that is known, or names no channel, or no viewer in the role that its event
/// has, writes nothing.
pub proof fn law_what_is_not_understood_writes_nothing(event_type: Seq<char>, p: JsonView, times: Times)
    ensures
        id_under(p, "broadcaster"@) is None ==> planned(event_type, p, times).len() == 0,
        lowered(event_type) == "channel.followed"@ && id_under(p, "follower"@) is None ==> planned(
            event_type,
            p,
            times,
        ).len() == 0,
        (lowered(event_type) == "channel.subscription.new"@ || lowered(event_type)
            == "channel.subscription.renewal"@) && id_under(p, "subscriber"@) is None ==> planned(
            event_type,
            p,
            times,
        ).len() == 0,
        lowered(event_type) == "chat.message.sent"@ && id_under(p, "sender"@) is None ==> planned(
            event_type,
            p,
            times,
        ).len() == 0,
        lowered(event_type) == "kicks.gifted"@ && id_under(p, "sender"@) is None && id_under(p, "gifter"@) is None
            ==> planned(event_type, p, times).len() == 0,
        planned(event_type, p, times).len() > 0 ==> {
            ||| lowered(event_type) == "livestream.status.updated"@
            ||| lowered(event_type) == "livestream.metadata.updated"@
            ||| lowered(event_type) == "channel.followed"@
            ||| lowered(event_type) == "channel.subscription.new"@
            ||| lowered(event_type) == "channel.subscription.renewal"@
            ||| lowered(event_type) == "channel.subscription.gifts"@
            ||| lowered(event_type) == "chat.message.sent"@
            ||| lowered(event_type) == "kicks.gifted"@
        },
{
    lemma_kinds(event_type);
}

/// Whether every badge of this type that the sender of a chat message shows has this count.
pub open spec fn counts(p: JsonView, kind: Seq<char>, n: i64) -> bool {
    match badge_list(p) {
        Some(list) => forall|i: int|
            0 <= i < list.len() && (#[trigger] list[i]).get("type"@) == Some(JsonView::Str(kind)) ==> number_under(
                list[i],
                "count"@,
            ) == Some(n),
        None => true,
    }
}

proof fn lemma_counted(list: Seq<JsonView>, kind: Seq<char>, n: i64)
    requires
        forall|i: int|
            0 <= i < list.len() && (#[trigger] list[i]).get("type"@) == Some(JsonView::Str(kind)) ==> number_under(
                list[i],
                "count"@,
            ) == Some(n),
    ensures
        forall|i: int|
            0 <= i < badges_of(list).len() && (#[trigger] badges_of(list)[i]).kind == kind ==> badges_of(list)[i].count
                == Some(n),
    decreases list.len(),
{
    if list.len() > 0 {
        let init = list.drop_last();
        assert forall|i: int|
            0 <= i < init.len() && (#[trigger] init[i]).get("type"@) == Some(JsonView::Str(kind)) implies number_under(
            init[i],
            "count"@,
        ) == Some(n) by {
            assert(list[i] == init[i]);
        }
        lemma_counted(init, kind, n);
        assert(list[list.len() - 1] == list.last());
    }
}

proof fn lemma_first_count(badges: Seq<BadgeView>, kind: Seq<char>, n: i64)
    requires
        forall|i: int| 0 <= i < badges.len() && (#[trigger] badges[i]).kind == kind ==> badges[i].count == Some(n),
    ensures
        has_badge(badges, kind) ==> badge_count(badges, kind) == Some(n),
    decreases badges.len(),
{
    if badges.len() > 0 {
        let rest = badges.skip(1);
        assert forall|i: int| 0 <= i < rest.len() && (#[trigger] rest[i]).kind == kind implies rest[i].count == Some(
            n,
        ) by {
            assert(badges[i + 1] == rest[i]);
        }
        lemma_first_count(rest, kind, n);
    }
}

proof fn lemma_badge_number(p: JsonView, kind: Seq<char>, n: i64)
    requires
        counts(p, kind, n),
    ensures
        wears(p, kind) ==> badge_count(badges_in(p), kind) == Some(n),
{
    lemma_wears(p, kind);
    if let Some(list) = badge_list(p) {
        lemma_counted(list, kind, n);
        lemma_first_count(badges_of(list), kind, n);
    }
}

/// The count on a subscriber's badge is the months that the sender has had at least, one at least; that
/// on a gifter's is how many were given at least. Neither ever lowers what is known.
pub proof fn law_badge_counts_raise_counts(
    event_type: Seq<char>,
    p: JsonView,
    times: Times,
    sender: i64,
    row: Relation,
    now: Timestamp,
    months: i64,
    gifted: i64,
)
    requires
        lowered(event_type) == "chat.message.sent"@,
        id_under(p, "broadcaster"@) is Some,
        id_under(p, "sender"@) == Some(sender),
        counts(p, "subscriber"@, months),
        counts(p, "sub_gifter"@, gifted),
    ensures
        ({
            let r = outcome(planned(event_type, p, times), sender, row, now);
            let due: int = if wears(p, "subscriber"@) && months > 1 {
                months as int
            } else {
                1
            };
            &&& wears(p, "subscriber"@) || wears(p, "founder"@) ==> r.row.sub_months_cumulative == (
            if row.sub_months_cumulative >= due {
                row.sub_months_cumulative
            } else {
                due
            })
            &&& wears(p, "sub_gifter"@) ==> r.row.gifted_subs_given == (if row.gifted_subs_given >= gifted {
                row.gifted_subs_given
            } else {
                gifted as int
            })
        }),
{
    lemma_kinds(event_type);
    let badges = badges_in(p);
    lemma_wears(p, "subscriber"@);
    lemma_wears(p, "founder"@);
    lemma_wears(p, "sub_gifter"@);
    lemma_badge_number(p, "subscriber"@, months);
    lemma_badge_number(p, "sub_gifter"@, gifted);
    lemma_no_count_without_badge(badges, "subscriber"@);
    lemma_chat_counts(id_under(p, "broadcaster"@)->0, sender, badges, row, now);
}

proof fn lemma_chat_counts(channel: i64, sender: i64, badges: Seq<BadgeView>, row: Relation, now: Timestamp)
    ensures
        ({
            let r = outcome(chat_ops(channel, sender, badges), sender, row, now);
            &&& has_badge(badges, "subscriber"@) || has_badge(badges, "founder"@) ==> r.row.sub_months_cumulative == (
            if row.sub_months_cumulative >= badge_months(badges) {
                row.sub_months_cumulative
            } else {
                badge_months(badges) as int
            })
            &&& badge_count(badges, "sub_gifter"@) matches Some(n) ==> r.row.gifted_subs_given == (
            if row.gifted_subs_given >= n {
                row.gifted_subs_given
            } else {
                n as int
            })
        }),
{
    let nothing = Seq::<OpView>::empty();
    let ensure = OpView::EnsureRelation { channel, user: sender };
    let seen = OpView::ChatSeen { channel, user: sender };
    let flags = OpView::Badges {
        channel,
        user: sender,
        is_moderator: has_badge(badges, "moderator"@),
        is_vip: has_badge(badges, "vip"@),
        is_og: has_badge(badges, "og"@),
    };
    let always = seq![ensure, seen, flags];
    lemma_step(nothing, ensure, sender, row, now);
    lemma_step(nothing.push(ensure), seen, sender, row, now);
    lemma_step(nothing.push(ensure).push(seen), flags, sender, row, now);
    assert(always =~= nothing.push(ensure).push(seen).push(flags));
    let months = OpView::SubscriberBadge { channel, user: sender, months: badge_months(badges) };
    let with_months = if has_badge(badges, "subscriber"@) || has_badge(badges, "founder"@) {
        lemma_step(always, months, sender, row, now);
        always.push(months)
    } else {
        always
    };
    let with_gifts = match badge_count(badges, "sub_gifter"@) {
        Some(gifted) => {
            let gifts = OpView::GifterBadge { channel, user: sender, gifted };
            lemma_step(with_months, gifts, sender, row, now);
            with_months.push(gifts)
        },
        None => with_months,
    };
    lemma_step(with_gifts, OpView::SyncPlayerIfChanged { user: sender }, sender, row, now);
}

/// As many gifts are credited as receivers are named, and one where none is.
pub proof fn law_gifts_are_credited_by_their_receivers(p: JsonView, list: Seq<JsonView>)
    ensures
        p.get("giftees"@) == Some(JsonView::Array(list)) && list.len() > 0 && (forall|i: int|
            0 <= i < list.len() ==> number_under(#[trigger] list[i], "user_id"@) is Some) ==> gift_count(
            giftees_in(p),
        ) == list.len(),
        p.get("giftees"@) is None ==> gift_count(giftees_in(p)) == 1,
{
    if forall|i: int| 0 <= i < list.len() ==> number_under(#[trigger] list[i], "user_id"@) is Some {
        lemma_all_named(list);
    }
}

proof fn lemma_all_named(list: Seq<JsonView>)
    requires
        forall|i: int| 0 <= i < list.len() ==> number_under(#[trigger] list[i], "user_id"@) is Some,
    ensures
        users_in(list).len() == list.len(),
    decreases list.len(),
{
    if list.len() > 0 {
        let init = list.drop_last();
        assert forall|i: int| 0 <= i < init.len() implies number_under(#[trigger] init[i], "user_id"@) is Some by {
            assert(list[i] == init[i]);
        }
        lemma_all_named(init);
        assert(number_under(list[list.len() - 1], "user_id"@) is Some);
    }
}

/// A category is read from the metadata where that names one, or else from the payload, and written.
pub proof fn law_a_category_is_read_where_it_stands(event_type: Seq<char>, p: JsonView, channel: i64, name: Seq<char>)
    requires
        lowered(event_type) == "livestream.metadata.updated"@,
        id_under(p, "broadcaster"@) == Some(channel),
    ensures
        ({
            let nested = p.get("metadata"@) is Some && p.get("metadata"@)->0.get("category"@) is Some && p.get(
                "metadata"@,
            )->0.get("category"@)->0.get("name"@) == Some(JsonView::Str(name));
            let bare = p.get("metadata"@) is None && p.get("category"@) is Some && p.get("category"@)->0.get("name"@)
                == Some(JsonView::Str(name));
            nested || bare ==> planned(event_type, p, times_in(p)) == seq![
                OpView::CategoryChanged { channel, category: name },
            ]
        }),
{
    lemma_kinds(event_type);
}

/// Roles are looked at where a write says so; where it says so only if a badge changed something, they
/// are where one did. Only the writes of badges tell, by the rows that they changed.
pub proof fn law_roles_are_looked_at_as_a_write_says(
    op: EventOp,
    changed: bool,
    rows: u64,
    after: bool,
    user: Option<i64>,
)
    requires
        call_ensures(EventOp::badge_changed, (&op, changed, rows), after),
        call_ensures(EventOp::syncs, (&op, changed), user),
    ensures
        after == (changed || (rows > 0 && (op is Badges || op is SubscriberBadge || op is GifterBadge))),
        op matches EventOp::SyncPlayer { user: u } ==> user == Some(u),
        op matches EventOp::SyncPlayerIfChanged { user: u } ==> user == (if changed {
            Some(u)
        } else {
            None
        }),
        !(op is SyncPlayer) && !(op is SyncPlayerIfChanged) ==> user is None,
{
}

/// A write's statement has a text where the write is to a row or a channel; what only has roles looked
/// at has none.
pub proof fn law_writes_have_statements(op: EventOp, text: Option<&'static str>)
    requires
        call_ensures(EventOp::statement, (&op,), text),
    ensures
        text is None <==> op is SyncPlayer || op is SyncPlayerIfChanged,
        text is Some ==> statement_of(op@) == Some(text->0@),
{
}

} // verus!
