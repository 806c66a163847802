//! A viewer's relation to a channel as the database keeps it, and what the writes do to it.

use vstd::prelude::*;

use crate::json::{json_text, JsonView};
use crate::services::follow_sync::{decided, update_of, FollowUpdate, Standing, MISS_SPACING};
use crate::services::kick_probe::{card_of, response_outcome, CardFacts, CardResponse, OutcomeView};
use crate::time::{elapsed_nanos, Timestamp};

verus! {

/// A row of `channel_relations`.
pub struct Relation {
    pub is_follower: bool,
    pub followed_at: Option<Timestamp>,
    pub follow_confirmed_at: Option<Timestamp>,
    pub follow_probed_at: Option<Timestamp>,
    pub follow_probe_attempted_at: Option<Timestamp>,
    pub follow_missed_at: Option<Timestamp>,
    pub follow_probe_misses: i16,
    pub is_subscriber: bool,
    pub subscribed_at: Option<Timestamp>,
    pub sub_expires_at: Option<Timestamp>,
    pub sub_months_cumulative: int,
    pub sub_streak_months: int,
    pub sub_is_gift: bool,
    pub gifted_subs_given: int,
    pub is_vip: bool,
    pub is_moderator: bool,
    pub is_og: bool,
    pub kicks_donated: int,
    pub chat_messages_30d: int,
    pub last_seen_at: Option<Timestamp>,
    pub last_synced_at: Option<Timestamp>,
}

/// `COALESCE(a, b)`
pub open spec fn coalesce<A>(a: Option<A>, b: Option<A>) -> Option<A> {
    match a {
        Some(_) => a,
        None => b,
    }
}

/// `GREATEST(a, b)`
pub open spec fn greatest(a: int, b: int) -> int {
    if a >= b {
        a
    } else {
        b
    }
}

impl Relation {
    /// Whether the months fit their column.
    pub open spec fn valid(self) -> bool {
        0 <= self.sub_months_cumulative <= i32::MAX
    }

    /// What a probe's answer is held against.
    pub open spec fn standing(self) -> Standing {
        Standing {
            is_follower: self.is_follower,
            is_subscriber: self.is_subscriber,
            is_vip: self.is_vip,
            is_moderator: self.is_moderator,
            is_og: self.is_og,
            months: self.sub_months_cumulative as i32,
            misses: self.follow_probe_misses,
            missed_at: self.follow_missed_at,
        }
    }

    /// The row after an update of the follow, written at the instant `now`.
    pub open spec fn updated(self, u: FollowUpdate, now: Timestamp) -> Relation {
        Relation {
            is_follower: u.is_follower,
            followed_at: if u.is_follower {
                coalesce(self.followed_at, coalesce(u.following_since, Some(now)))
            } else {
                None
            },
            follow_confirmed_at: if u.is_follower {
                Some(now)
            } else {
                self.follow_confirmed_at
            },
            follow_probed_at: Some(now),
            follow_probe_attempted_at: Some(now),
            follow_missed_at: if u.counted_miss {
                Some(now)
            } else {
                self.follow_missed_at
            },
            follow_probe_misses: u.misses,
            is_subscriber: self.is_subscriber || u.is_subscriber,
            sub_months_cumulative: greatest(self.sub_months_cumulative, u.months as int),
            is_vip: self.is_vip || u.is_vip,
            is_moderator: self.is_moderator || u.is_moderator,
            is_og: self.is_og || u.is_og,
            last_synced_at: Some(now),
            ..self
        }
    }

    /// The row after an attempt without an answer.
    pub open spec fn attempted(self, now: Timestamp) -> Relation {
        Relation { follow_probe_attempted_at: Some(now), ..self }
    }

    /// The row after Kick reported a new follow.
    pub open spec fn followed(self, now: Timestamp) -> Relation {
        Relation {
            is_follower: true,
            followed_at: coalesce(self.followed_at, Some(now)),
            last_synced_at: Some(now),
            ..self
        }
    }

    /// The row after a probe's outcome was taken up at one instant and written at another.
    pub open spec fn probed(
        self,
        outcome: OutcomeView,
        confirmations: i16,
        taken: Timestamp,
        written: Timestamp,
    ) -> Relation {
        match outcome {
            OutcomeView::Usable(f) => self.updated(
                update_of(0, 0, f, decided(self.standing(), f, confirmations, taken)),
                written,
            ),
            OutcomeView::Unavailable(_) => self.attempted(written),
        }
    }
}

/// What a row says that rules may ask about.
pub open spec fn same_facts(a: Relation, b: Relation) -> bool {
    &&& a.is_follower == b.is_follower
    &&& a.followed_at == b.followed_at
    &&& a.is_subscriber == b.is_subscriber
    &&& a.sub_months_cumulative == b.sub_months_cumulative
    &&& a.sub_streak_months == b.sub_streak_months
    &&& a.sub_is_gift == b.sub_is_gift
    &&& a.gifted_subs_given == b.gifted_subs_given
    &&& a.is_vip == b.is_vip
    &&& a.is_moderator == b.is_moderator
    &&& a.is_og == b.is_og
    &&& a.kicks_donated == b.kicks_donated
    &&& a.chat_messages_30d == b.chat_messages_30d
}

/// A probe without an answer changes no fact, and leaves the count of misses as it was.
pub proof fn law_no_answer_changes_nothing(
    row: Relation,
    reason: Seq<char>,
    confirmations: i16,
    taken: Timestamp,
    written: Timestamp,
)
    ensures
        ({
            let after = row.probed(OutcomeView::Unavailable(reason), confirmations, taken, written);
            &&& same_facts(after, row)
            &&& after.standing() == row.standing()
            &&& after == (Relation { follow_probe_attempted_at: Some(written), ..row })
        }),
{
}

/// A card that shows a follow grants it at once, clears the misses, and dates the follow by what
/// was known before, else by the card, else by the clock.
pub proof fn law_a_positive_answer_grants_at_once(
    row: Relation,
    f: CardFacts,
    confirmations: i16,
    taken: Timestamp,
    written: Timestamp,
)
    requires
        f.is_following,
    ensures
        ({
            let after = row.probed(OutcomeView::Usable(f), confirmations, taken, written);
            &&& after.is_follower
            &&& after.follow_probe_misses == 0
            &&& after.followed_at == coalesce(row.followed_at, coalesce(f.following_since, Some(written)))
            &&& !row.is_follower ==> decided(row.standing(), f, confirmations, taken).changed_facts
        }),
{
}

/// Beside the follow a card can only add: what was set stays set, and the months never fall.
pub proof fn law_a_card_only_adds(
    row: Relation,
    f: CardFacts,
    confirmations: i16,
    taken: Timestamp,
    written: Timestamp,
)
    ensures
        ({
            let after = row.probed(OutcomeView::Usable(f), confirmations, taken, written);
            &&& row.is_subscriber ==> after.is_subscriber
            &&& row.is_vip ==> after.is_vip
            &&& row.is_moderator ==> after.is_moderator
            &&& row.is_og ==> after.is_og
            &&& after.sub_months_cumulative >= row.sub_months_cumulative
            &&& f.is_subscriber ==> after.is_subscriber
            &&& f.is_vip ==> after.is_vip
            &&& f.is_moderator ==> after.is_moderator
            &&& f.is_og ==> after.is_og
            &&& after.sub_streak_months == row.sub_streak_months
            &&& after.sub_is_gift == row.sub_is_gift
            &&& after.sub_expires_at == row.sub_expires_at
            &&& after.gifted_subs_given == row.gifted_subs_given
            &&& after.kicks_donated == row.kicks_donated
            &&& after.chat_messages_30d == row.chat_messages_30d
        }),
{
}

/// An answer that asks for no new look at the roles changes no flag and no count.
pub proof fn law_no_resync_without_a_change(
    row: Relation,
    f: CardFacts,
    confirmations: i16,
    taken: Timestamp,
    written: Timestamp,
)
    requires
        row.valid(),
        !decided(row.standing(), f, confirmations, taken).changed_facts,
    ensures
        ({
            let after = row.probed(OutcomeView::Usable(f), confirmations, taken, written);
            &&& after.is_follower == row.is_follower
            &&& after.is_subscriber == row.is_subscriber
            &&& after.sub_months_cumulative == row.sub_months_cumulative
            &&& after.is_vip == row.is_vip
            &&& after.is_moderator == row.is_moderator
            &&& after.is_og == row.is_og
        }),
{
}

/// A second look that comes too soon after a miss neither counts nor removes.
pub proof fn law_rapid_rechecks_do_not_count(
    row: Relation,
    f: CardFacts,
    confirmations: i16,
    taken: Timestamp,
    written: Timestamp,
)
    requires
        !f.is_following,
        row.is_follower,
        row.follow_missed_at is Some,
        elapsed_nanos(taken, row.follow_missed_at->0) < MISS_SPACING,
    ensures
        ({
            let after = row.probed(OutcomeView::Usable(f), confirmations, taken, written);
            &&& after.is_follower
            &&& after.follow_probe_misses == row.follow_probe_misses
            &&& after.follow_missed_at == row.follow_missed_at
        }),
{
}

/// One answer without a follow, with no miss counted before it, removes nothing where more than
/// one is asked for.
pub proof fn law_a_single_negative_never_revokes(
    row: Relation,
    f: CardFacts,
    confirmations: i16,
    taken: Timestamp,
    written: Timestamp,
)
    requires
        confirmations >= 2,
        row.follow_probe_misses == 0,
    ensures
        row.is_follower ==> row.probed(OutcomeView::Usable(f), confirmations, taken, written).is_follower,
{
}

/// Misses are not counted against someone who is not held to follow.
pub proof fn law_non_followers_collect_no_misses(
    row: Relation,
    f: CardFacts,
    confirmations: i16,
    taken: Timestamp,
    written: Timestamp,
)
    requires
        !row.is_follower,
    ensures
        ({
            let after = row.probed(OutcomeView::Usable(f), confirmations, taken, written);
            &&& after.follow_probe_misses == 0
            &&& after.follow_missed_at == row.follow_missed_at
        }),
{
}

/// Only a card that says with an explicit null that there is no follow can take one away: no error,
/// no refusal, no page that is not JSON, and no card of another shape.
pub proof fn law_only_an_explicit_null_revokes(
    row: Relation,
    response: CardResponse,
    confirmations: i16,
    taken: Timestamp,
    written: Timestamp,
)
    requires
        row.is_follower,
        !row.probed(response_outcome(response), confirmations, taken, written).is_follower,
    ensures
        response matches CardResponse::Body(body) && json_text(body@) is Ok && card_of(json_text(body@)->Ok_0).get(
            "following_since"@,
        ) == Some(JsonView::Null),
{
}

/// What happens to a relation.
pub enum FollowEvent {
    /// A probe's outcome was taken up at one instant and written at another.
    Probe { outcome: OutcomeView, taken: Timestamp, written: Timestamp },
    /// Kick reported a new follow.
    Followed { at: Timestamp },
}

impl FollowEvent {
    /// A card without a follow.
    pub open spec fn is_negative(self) -> bool {
        match self {
            FollowEvent::Probe { outcome: OutcomeView::Usable(f), .. } => !f.is_following,
            _ => false,
        }
    }

    /// A card with a follow.
    pub open spec fn is_positive(self) -> bool {
        match self {
            FollowEvent::Probe { outcome: OutcomeView::Usable(f), .. } => f.is_following,
            _ => false,
        }
    }

    /// When the outcome was taken up.
    pub open spec fn taken(self) -> Timestamp {
        match self {
            FollowEvent::Probe { taken, .. } => taken,
            FollowEvent::Followed { at } => at,
        }
    }

    /// When the outcome was written.
    pub open spec fn written(self) -> Timestamp {
        match self {
            FollowEvent::Probe { written, .. } => written,
            FollowEvent::Followed { at } => at,
        }
    }
}

/// The row after one event.
pub open spec fn after_event(row: Relation, e: FollowEvent, confirmations: i16) -> Relation {
    match e {
        FollowEvent::Probe { outcome, taken, written } => row.probed(outcome, confirmations, taken, written),
        FollowEvent::Followed { at } => row.followed(at),
    }
}

/// The row after all the events, in order.
pub open spec fn after_events(row: Relation, events: Seq<FollowEvent>, confirmations: i16) -> Relation
    decreases events.len(),
{
    if events.len() == 0 {
        row
    } else {
        after_event(after_events(row, events.drop_last(), confirmations), events.last(), confirmations)
    }
}

/// Whether the picked events are cards without a follow, each taken up at least six hours after
/// the one before was written, with no card that shows a follow since the first of them.
pub open spec fn spaced_negatives(events: Seq<FollowEvent>, picks: Seq<int>) -> bool {
    &&& forall|k: int|
        0 <= k < picks.len() ==> 0 <= #[trigger] picks[k] < events.len() && events[picks[k]].is_negative()
    &&& forall|k: int|
        0 < k < picks.len() ==> {
            &&& picks[k - 1] < #[trigger] picks[k]
            &&& elapsed_nanos(events[picks[k]].taken(), events[picks[k - 1]].written()) >= MISS_SPACING
        }
    &&& picks.len() > 0 ==> forall|j: int|
        picks[0] <= j < events.len() ==> !(#[trigger] events[j]).is_positive()
}

/// The misses that count toward a removal after the events.
spec fn counted(row: Relation, events: Seq<FollowEvent>, confirmations: i16) -> Seq<int>
    decreases events.len(),
{
    if events.len() == 0 {
        seq![]
    } else {
        let before = after_events(row, events.drop_last(), confirmations);
        let picks = counted(row, events.drop_last(), confirmations);
        match events.last() {
            FollowEvent::Probe { outcome: OutcomeView::Usable(f), taken, .. } => {
                let d = decided(before.standing(), f, confirmations, taken);
                if d.misses == 0 {
                    seq![]
                } else if d.counted_miss {
                    picks.push(events.len() - 1)
                } else {
                    picks
                }
            },
            _ => picks,
        }
    }
}

/// How many misses take a follow away: as many as configured, and at least one.
pub open spec fn needed(confirmations: i16) -> int {
    if confirmations < 1 {
        1
    } else {
        confirmations as int
    }
}

proof fn lemma_spaced_extends(events: Seq<FollowEvent>, picks: Seq<int>)
    requires
        events.len() > 0,
        spaced_negatives(events.drop_last(), picks),
        picks.len() > 0 ==> !events.last().is_positive(),
    ensures
        spaced_negatives(events, picks),
{
    let init = events.drop_last();
    assert forall|k: int| 0 <= k < picks.len() implies 0 <= #[trigger] picks[k] < events.len()
        && events[picks[k]].is_negative() by {
        assert(events[picks[k]] == init[picks[k]]);
    }
    assert forall|k: int| 0 < k < picks.len() implies {
        &&& picks[k - 1] < #[trigger] picks[k]
        &&& elapsed_nanos(events[picks[k]].taken(), events[picks[k - 1]].written()) >= MISS_SPACING
    } by {
        assert(events[picks[k]] == init[picks[k]]);
        assert(0 <= picks[k - 1] < init.len());
        assert(events[picks[k - 1]] == init[picks[k - 1]]);
    }
    if picks.len() > 0 {
        assert forall|j: int| picks[0] <= j < events.len() implies !(#[trigger] events[j]).is_positive() by {
            if j < init.len() {
                assert(events[j] == init[j]);
            }
        }
    }
}

proof fn lemma_spaced_pushes(events: Seq<FollowEvent>, picks: Seq<int>)
    requires
        events.len() > 0,
        spaced_negatives(events.drop_last(), picks),
        events.last().is_negative(),
        picks.len() > 0 ==> elapsed_nanos(events.last().taken(), events[picks.last()].written()) >= MISS_SPACING,
    ensures
        spaced_negatives(events, picks.push(events.len() - 1)),
{
    lemma_spaced_extends(events, picks);
    let more = picks.push(events.len() - 1);
    assert forall|k: int| 0 <= k < more.len() implies 0 <= #[trigger] more[k] < events.len()
        && events[more[k]].is_negative() by {
        if k < picks.len() {
            assert(more[k] == picks[k]);
        }
    }
    assert forall|k: int| 0 < k < more.len() implies {
        &&& more[k - 1] < #[trigger] more[k]
        &&& elapsed_nanos(events[more[k]].taken(), events[more[k - 1]].written()) >= MISS_SPACING
    } by {
        if k < picks.len() {
            assert(more[k] == picks[k]);
            assert(more[k - 1] == picks[k - 1]);
        } else {
            assert(more[k - 1] == picks[k - 1]);
            assert(0 <= picks[k - 1] < events.drop_last().len());
        }
    }
    assert forall|j: int| more[0] <= j < events.len() implies !(#[trigger] events[j]).is_positive() by {
        if picks.len() > 0 {
            assert(more[0] == picks[0]);
        }
    }
}

proof fn lemma_counted(row: Relation, events: Seq<FollowEvent>, confirmations: i16)
    requires
        row.follow_probe_misses == 0,
    ensures
        ({
            let after = after_events(row, events, confirmations);
            let picks = counted(row, events, confirmations);
            &&& picks.len() == after.follow_probe_misses
            &&& 0 <= after.follow_probe_misses < needed(confirmations)
            &&& spaced_negatives(events, picks)
            &&& picks.len() > 0 ==> after.follow_missed_at == Some(events[picks.last()].written())
        }),
    decreases events.len(),
{
    if events.len() > 0 {
        let init = events.drop_last();
        lemma_counted(row, init, confirmations);
        let before = after_events(row, init, confirmations);
        let picks = counted(row, init, confirmations);
        if picks.len() > 0 {
            assert(0 <= picks[picks.len() - 1] < init.len());
            assert(events[picks.last()] == init[picks.last()]);
        }
        match events.last() {
            FollowEvent::Probe { outcome: OutcomeView::Usable(f), taken, written } => {
                let d = decided(before.standing(), f, confirmations, taken);
                if d.misses == 0 {
                } else if d.counted_miss {
                    lemma_spaced_pushes(events, picks);
                } else {
                    lemma_spaced_extends(events, picks);
                }
            },
            _ => {
                lemma_spaced_extends(events, picks);
            },
        }
    }
}

/// A follow is taken away only after as many cards without a follow as were asked for, each at
/// least six hours after the one before, the last of them the one that removes, and with no card
/// that shows a follow between them. Probes without an answer do not count.
pub proof fn law_removal_needs_spaced_confirmations(
    row: Relation,
    events: Seq<FollowEvent>,
    confirmations: i16,
)
    requires
        row.follow_probe_misses == 0,
        events.len() > 0,
        after_events(row, events.drop_last(), confirmations).is_follower,
        !after_events(row, events, confirmations).is_follower,
    ensures
        exists|picks: Seq<int>|
            #[trigger] spaced_negatives(events, picks) && picks.len() == needed(confirmations) && picks.last()
                == events.len() - 1,
{
    let init = events.drop_last();
    lemma_counted(row, init, confirmations);
    let picks = counted(row, init, confirmations);
    if picks.len() > 0 {
        assert(0 <= picks[picks.len() - 1] < init.len());
        assert(events[picks.last()] == init[picks.last()]);
    }
    lemma_spaced_pushes(events, picks);
    assert(picks.push(events.len() - 1).last() == events.len() - 1);
}

/// How many of the events are cards without a follow.
pub open spec fn miss_count(events: Seq<FollowEvent>) -> nat
    decreases events.len(),
{
    if events.len() == 0 {
        0
    } else if events.last().is_negative() {
        miss_count(events.drop_last()) + 1
    } else {
        miss_count(events.drop_last())
    }
}

/// When the last card without a follow was written; `before` where the events have none.
pub open spec fn last_miss(before: Option<Timestamp>, events: Seq<FollowEvent>) -> Option<Timestamp>
    decreases events.len(),
{
    if events.len() == 0 {
        before
    } else if events.last().is_negative() {
        Some(events.last().written())
    } else {
        last_miss(before, events.drop_last())
    }
}

/// Whether the events are cards without a follow, each taken up at least six hours after the one
/// before was written, and probes without an answer. `before` is when the last miss before them was
/// written.
pub open spec fn spaced_misses(before: Option<Timestamp>, events: Seq<FollowEvent>) -> bool
    decreases events.len(),
{
    events.len() > 0 ==> {
        let init = events.drop_last();
        &&& spaced_misses(before, init)
        &&& if events.last().is_negative() {
            last_miss(before, init) is Some ==> elapsed_nanos(
                events.last().taken(),
                last_miss(before, init)->0,
            ) >= MISS_SPACING
        } else {
            events.last() matches FollowEvent::Probe { outcome: OutcomeView::Unavailable(_), .. }
        }
    }
}

proof fn lemma_spaced_misses_add_up(row: Relation, events: Seq<FollowEvent>, confirmations: i16)
    requires
        row.is_follower,
        row.follow_probe_misses == 0,
        spaced_misses(row.follow_missed_at, events),
        miss_count(events) < needed(confirmations),
    ensures
        ({
            let after = after_events(row, events, confirmations);
            &&& after.is_follower
            &&& after.follow_probe_misses == miss_count(events)
            &&& after.follow_missed_at == last_miss(row.follow_missed_at, events)
        }),
    decreases events.len(),
{
    if events.len() > 0 {
        lemma_spaced_misses_add_up(row, events.drop_last(), confirmations);
    }
}

/// As many cards without a follow as were asked for, each at least six hours after the one before,
/// with nothing between them but probes without an answer, do take the follow away: at the last of
/// them, and not before.
pub proof fn law_spaced_confirmations_remove(row: Relation, events: Seq<FollowEvent>, confirmations: i16)
    requires
        row.is_follower,
        row.follow_probe_misses == 0,
        spaced_misses(row.follow_missed_at, events),
        events.len() > 0,
        events.last().is_negative(),
        miss_count(events) == needed(confirmations),
    ensures
        after_events(row, events.drop_last(), confirmations).is_follower,
        !after_events(row, events, confirmations).is_follower,
{
    lemma_spaced_misses_add_up(row, events.drop_last(), confirmations);
}

} // verus!
