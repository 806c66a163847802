//! The regular round over all channels: when it is made, their live state, subscriptions that have
//! run out, and what is kept no longer.

use vstd::prelude::*;

use crate::config::KickConfig;
use crate::routes::sign_in::{found_state, KeptState};
use crate::services::kick::{is_fresh, KickClient};
use crate::services::relation::Relation;
use crate::time::{more_than_ago, Timestamp};

verus! {

/// The client with the configured credentials; none where the service has none with Kick, and so
/// nothing to do there.
pub fn build_client(kick: &KickConfig) -> (r: Option<KickClient>)
    ensures
        match (kick.client_id, kick.client_secret) {
            (Some(id), Some(secret)) => r is Some && r->0.id() == id@ && r->0.secret() == secret@,
            _ => r is None,
        },
{
    match (&kick.client_id, &kick.client_secret) {
        (Some(id), Some(secret)) => Some(KickClient::new(id.clone(), secret.clone())),
        _ => None,
    }
}

/// How many seconds after the start the first round begins.
pub const INITIAL_DELAY_SECS: u64 = 90;

/// How many seconds lie between the beginnings of two rounds: six hours.
pub const ROUND_SECS: u64 = 21_600;

/// How many seconds lie between the beginning of the next round and that of the last one, or the
/// start where there was none; `rounds` were begun so far.
pub open spec fn gap_before(rounds: nat) -> nat {
    if rounds == 0 {
        90
    } else {
        21_600
    }
}

/// How many seconds lie between the beginning of the next round and that of the last one, or the
/// start where there was none; `rounds` were begun so far.
pub fn wait_before(rounds: u64) -> (seconds: u64)
    ensures
        seconds == gap_before(rounds as nat),
{
    if rounds == 0 {
        INITIAL_DELAY_SECS
    } else {
        ROUND_SECS
    }
}

/// How many seconds after the start a round begins, the first being round 0, where each waits for
/// its time behind the one before.
pub open spec fn round_begins(round: nat) -> nat
    decreases round,
{
    if round == 0 {
        gap_before(0)
    } else {
        round_begins((round - 1) as nat) + gap_before(round)
    }
}

/// The first round begins ninety seconds after the start, and from there one begins every six hours.
pub proof fn law_rounds_are_six_hours_apart(round: nat)
    ensures
        round_begins(round) == 90 + round * 21_600,
    decreases round,
{
    if round > 0 {
        law_rounds_are_six_hours_apart((round - 1) as nat);
    }
}

/// The statement that takes out the states that are too late.
pub const FORGET_STATES: &'static str = "DELETE FROM kick_oauth_states WHERE expires_at < now()";

/// The statement that takes out the deliveries that were recorded long ago.
pub const FORGET_DELIVERIES: &'static str = "DELETE FROM webhook_deliveries \
    WHERE received_at < now() - interval '24 hours'";

/// How many seconds a delivery stays on record: a day.
pub const DELIVERY_SECONDS: i64 = 86_400;

/// The states that are left after [`FORGET_STATES`], at the instant `now`.
pub open spec fn states_left(states: Map<Seq<char>, KeptState>, now: Timestamp) -> Map<Seq<char>, KeptState> {
    states.restrict(
        Set::new(|s: Seq<char>| states.dom().contains(s) && now.not_after(states[s].expires_at)),
    )
}

/// What is swept away could not have served any more: every sign-in finds its state as it would have
/// found it.
pub proof fn law_sweeping_spares_states_that_serve(
    states: Map<Seq<char>, KeptState>,
    state: Seq<char>,
    now: Timestamp,
    after: Timestamp,
)
    requires
        now.not_after(after),
    ensures
        found_state(states_left(states, now), state, after) == found_state(states, state, after),
{
}

/// A delivery that is no longer on record is not taken in again: one that was fresh when it was
/// received is not fresh any more when its record goes.
pub proof fn law_forgotten_deliveries_are_stale(
    sent: Option<Timestamp>,
    received: Timestamp,
    now: Timestamp,
)
    requires
        sent is Some ==> sent->0.valid(),
        received.valid(),
        now.valid(),
        is_fresh(sent, received),
        more_than_ago(received, DELIVERY_SECONDS as int, now),
    ensures
        !is_fresh(sent, now),
{
}

/// How many viewers a round looks at again, and how many it looks at for the first time.
pub const VIEWERS_PER_ROUND: i64 = 500;

/// The statement that ends subscriptions which ran out; `$1` is the channel.
pub const EXPIRE_SUBSCRIPTIONS: &'static str = "UPDATE channel_relations SET is_subscriber=false, sub_streak_months=0, \
    last_synced_at=now() \
    WHERE kick_channel_id=$1 AND is_subscriber \
    AND sub_expires_at IS NOT NULL \
    AND sub_expires_at < now() - interval '2 days'";

/// How many seconds a subscription may be past its end: two days.
pub const GRACE_SECONDS: i64 = 172_800;

/// Whether a subscription has run out, at the instant `now`.
pub open spec fn ran_out(row: Relation, now: Timestamp) -> bool {
    row.is_subscriber && row.sub_expires_at is Some && more_than_ago(
        row.sub_expires_at->0,
        GRACE_SECONDS as int,
        now,
    )
}

/// The row after the statement was carried out.
pub open spec fn expired(row: Relation, now: Timestamp) -> Relation {
    if ran_out(row, now) {
        Relation { is_subscriber: false, sub_streak_months: 0, last_synced_at: Some(now), ..row }
    } else {
        row
    }
}

/// A round takes nothing but subscriptions whose end is known and two days past; what was followed,
/// given or counted stays, and so do the months.
pub proof fn law_rounds_end_nothing_but_lapsed_subscriptions(row: Relation, now: Timestamp)
    ensures
        ({
            let after = expired(row, now);
            &&& row.sub_expires_at is None ==> after == row
            &&& row.sub_expires_at is Some && row.sub_expires_at->0.secs + GRACE_SECONDS > now.secs ==> after == row
            &&& after.is_follower == row.is_follower
            &&& after.followed_at == row.followed_at
            &&& after.sub_months_cumulative == row.sub_months_cumulative
            &&& after.is_vip == row.is_vip
            &&& after.is_moderator == row.is_moderator
            &&& after.is_og == row.is_og
            &&& after.gifted_subs_given == row.gifted_subs_given
            &&& after.kicks_donated == row.kicks_donated
        }),
{
}

} // verus!
