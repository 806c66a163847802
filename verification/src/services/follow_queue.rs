//! Which viewers are probed without being asked for: those held to follow, to see whether they still
//! do, and those of whom nothing was ever read.

use vstd::prelude::*;

use crate::services::kick_probe::{CardFacts, OutcomeView};
use crate::services::relation::Relation;
use crate::time::{more_than_ago, Timestamp};

verus! {

/// How many seconds a follow may go without a look at it: three days.
pub const RECHECK_AFTER_SECS: i64 = 259_200;

/// How many seconds lie between an attempt without an answer and the next: one day.
pub const BACKFILL_RETRY_AFTER_SECS: i64 = 86_400;

/// The statement that finds whom to look at again, those longest unseen first: `$1` is
/// [`RECHECK_AFTER_SECS`], `$2` how many there may be. Whoever waits for a probe already is left
/// out.
pub const STALE_FOLLOWS: &'static str = "SELECT ku.discord_id \
    FROM channel_relations cr \
    JOIN kick_users ku USING (kick_user_id) \
    WHERE cr.is_follower \
    AND (cr.follow_probed_at IS NULL \
    OR cr.follow_probed_at < now() - make_interval(secs => $1)) \
    AND NOT EXISTS ( \
    SELECT 1 FROM jobs j \
    WHERE j.kind = 'follow_probe' \
    AND j.status IN ('pending', 'in_progress') \
    AND j.payload->>'discord_id' = ku.discord_id \
    ) \
    GROUP BY ku.discord_id \
    ORDER BY min(cr.follow_probed_at) NULLS FIRST \
    LIMIT $2";

/// The statement that finds whom to look at for the first time, those longest untried first: `$1`
/// is [`BACKFILL_RETRY_AFTER_SECS`], `$2` how many there may be. Whoever waits for a probe already
/// is left out.
pub const UNPROBED: &'static str = "SELECT ku.discord_id \
    FROM channel_relations cr \
    JOIN kick_users ku USING (kick_user_id) \
    WHERE cr.follow_probed_at IS NULL \
    AND (cr.follow_probe_attempted_at IS NULL \
    OR cr.follow_probe_attempted_at < now() - make_interval(secs => $1)) \
    AND NOT EXISTS ( \
    SELECT 1 FROM jobs j \
    WHERE j.kind = 'follow_probe' \
    AND j.status IN ('pending', 'in_progress') \
    AND j.payload->>'discord_id' = ku.discord_id \
    ) \
    GROUP BY ku.discord_id \
    ORDER BY min(cr.follow_probe_attempted_at) NULLS FIRST \
    LIMIT $2";

/// Whether an instant, where there was one, lies more than so many seconds back.
pub open spec fn long_ago(t: Option<Timestamp>, seconds: int, now: Timestamp) -> bool {
    match t {
        Some(t) => more_than_ago(t, seconds, now),
        None => true,
    }
}

/// Whether a row is one that [`STALE_FOLLOWS`] looks for, at the instant `now`.
pub open spec fn is_stale(row: Relation, now: Timestamp) -> bool {
    row.is_follower && long_ago(row.follow_probed_at, RECHECK_AFTER_SECS as int, now)
}

/// Whether a row is one that [`UNPROBED`] looks for, at the instant `now`.
pub open spec fn is_unprobed(row: Relation, now: Timestamp) -> bool {
    row.follow_probed_at is None && long_ago(
        row.follow_probe_attempted_at,
        BACKFILL_RETRY_AFTER_SECS as int,
        now,
    )
}

/// Whether [`STALE_FOLLOWS`] picks a viewer with these rows; `waiting` where a probe of the viewer
/// is queued or under way.
pub open spec fn picks_again(rows: Seq<Relation>, waiting: bool, now: Timestamp) -> bool {
    !waiting && exists|i: int| 0 <= i < rows.len() && is_stale(#[trigger] rows[i], now)
}

/// Whether [`UNPROBED`] picks a viewer with these rows; `waiting` where a probe of the viewer is
/// queued or under way.
pub open spec fn picks_first(rows: Seq<Relation>, waiting: bool, now: Timestamp) -> bool {
    !waiting && exists|i: int| 0 <= i < rows.len() && is_unprobed(#[trigger] rows[i], now)
}

/// Nobody waits for two probes at once, and nobody is looked at for the first time once every row
/// was read.
pub proof fn law_probes_do_not_pile_up(rows: Seq<Relation>, waiting: bool, now: Timestamp)
    ensures
        waiting ==> !picks_again(rows, waiting, now) && !picks_first(rows, waiting, now),
        (forall|i: int| 0 <= i < rows.len() ==> (#[trigger] rows[i]).follow_probed_at is Some) ==> !picks_first(
            rows,
            waiting,
            now,
        ),
{
}

/// Whoever has a row that was never read nor tried is picked, follower or not.
pub proof fn law_the_never_read_are_picked(rows: Seq<Relation>, i: int, now: Timestamp)
    requires
        0 <= i < rows.len(),
        rows[i].follow_probed_at is None,
        rows[i].follow_probe_attempted_at is None,
    ensures
        picks_first(rows, false, now),
{
    assert(is_unprobed(rows[i], now));
}

/// One answer, whatever it says, takes a row off the list of those never read, for good; and for
/// three days nobody looks again.
pub proof fn law_an_answer_leaves_the_backlog(
    row: Relation,
    f: CardFacts,
    confirmations: i16,
    taken: Timestamp,
    written: Timestamp,
    now: Timestamp,
)
    ensures
        ({
            let after = row.probed(OutcomeView::Usable(f), confirmations, taken, written);
            &&& !is_unprobed(after, now)
            &&& !more_than_ago(written, RECHECK_AFTER_SECS as int, now) ==> !is_stale(after, now)
        }),
{
}

/// An attempt without an answer leaves a row that was never read on the list, to be tried again
/// once a day has passed and no sooner.
pub proof fn law_an_attempt_without_an_answer_waits_a_day(
    row: Relation,
    reason: Seq<char>,
    confirmations: i16,
    taken: Timestamp,
    written: Timestamp,
    now: Timestamp,
)
    requires
        row.follow_probed_at is None,
    ensures
        is_unprobed(row.probed(OutcomeView::Unavailable(reason), confirmations, taken, written), now)
            == more_than_ago(written, BACKFILL_RETRY_AFTER_SECS as int, now),
{
}

/// Only those held to follow are looked at again, and a follow that nobody looked at for three days
/// is.
pub proof fn law_follows_are_looked_at_again(row: Relation, now: Timestamp)
    ensures
        is_stale(row, now) ==> row.is_follower,
        row.is_follower && row.follow_probed_at is None ==> is_stale(row, now),
        row.is_follower && row.follow_probed_at is Some && more_than_ago(
            row.follow_probed_at->0,
            RECHECK_AFTER_SECS as int,
            now,
        ) ==> is_stale(row, now),
{
}

} // verus!
