//! What a probe's answer may change in a viewer's relation to a channel.
//!
//! A card that shows a follow grants it at once. One that shows none counts as a miss, and only
//! several misses, each well apart from the last, take a follow away: a wrong grant can be put
//! right, but a role taken from someone who earned it cannot. No answer changes nothing. All the
//! rest of a card can only add.

use vstd::prelude::*;

use crate::services::kick_probe::{CardFacts, OutcomeView, ProbeOutcome};
use crate::time::{elapsed_nanos, nanos_between, now, Timestamp};

verus! {

/// The nanoseconds that must lie between two misses for both to count: six hours.
pub const MISS_SPACING: i64 = 21_600_000_000_000;

/// A viewer's relation to a channel, as far as a probe of it goes.
#[derive(Debug, Clone)]
pub struct RelationRow {
    pub kick_channel_id: i64,
    pub kick_slug: String,
    pub is_follower: bool,
    pub is_subscriber: bool,
    pub is_vip: bool,
    pub is_moderator: bool,
    pub is_og: bool,
    pub sub_months_cumulative: i32,
    pub follow_probe_misses: i16,
    pub follow_missed_at: Option<Timestamp>,
}

/// What is known of a relation when an answer comes.
pub struct Standing {
    pub is_follower: bool,
    pub is_subscriber: bool,
    pub is_vip: bool,
    pub is_moderator: bool,
    pub is_og: bool,
    pub months: i32,
    pub misses: i16,
    pub missed_at: Option<Timestamp>,
}

impl RelationRow {
    /// What is known of the relation.
    pub open spec fn standing(self) -> Standing {
        Standing {
            is_follower: self.is_follower,
            is_subscriber: self.is_subscriber,
            is_vip: self.is_vip,
            is_moderator: self.is_moderator,
            is_og: self.is_og,
            months: self.sub_months_cumulative,
            misses: self.follow_probe_misses,
            missed_at: self.follow_missed_at,
        }
    }
}

/// What a run of probes did.
#[derive(Debug, Clone, Copy)]
pub struct ProbeReport {
    /// Channels asked about.
    pub attempted: usize,
    /// Channels that gave an answer.
    pub usable: usize,
    /// Channels that the viewer follows.
    pub following: usize,
    /// Channels from which a follow was taken away.
    pub removed: usize,
    /// Whether a stored fact changed, so that roles must be looked at again.
    pub changed: bool,
}

impl ProbeReport {
    /// Whether the counts fit together.
    pub open spec fn consistent(self) -> bool {
        &&& self.usable <= self.attempted
        &&& self.following + self.removed <= self.usable
        &&& self.removed > 0 ==> self.changed
    }

    /// Whether there were attempts, and none gave an answer: the probe says nothing at present,
    /// and nobody may be told that they do not follow.
    pub fn all_unavailable(&self) -> (r: bool)
        ensures
            r == (self.attempted > 0 && self.usable == 0),
    {
        self.attempted > 0 && self.usable == 0
    }
}

impl Default for ProbeReport {
    fn default() -> (r: Self)
        ensures
            r == (ProbeReport { attempted: 0, usable: 0, following: 0, removed: 0, changed: false }),
            r.consistent(),
    {
        ProbeReport { attempted: 0, usable: 0, following: 0, removed: 0, changed: false }
    }
}

/// What is to be written for one viewer and channel.
#[derive(Debug, Clone, Copy, PartialEq, Eq, Structural)]
pub struct Decision {
    pub is_follower: bool,
    /// The misses counted from now on.
    pub misses: i16,
    /// Whether this answer counted as a miss.
    pub counted_miss: bool,
    /// Whether this answer takes the follow away.
    pub removes_follow: bool,
    /// Whether a fact changes that roles may rest on.
    pub changed_facts: bool,
}

/// Whether a card shows something beside the follow that is not known yet.
pub open spec fn gains_extras(s: Standing, f: CardFacts) -> bool {
    ||| f.is_subscriber && !s.is_subscriber
    ||| f.is_vip && !s.is_vip
    ||| f.is_moderator && !s.is_moderator
    ||| f.is_og && !s.is_og
    ||| f.subscribed_for_months > s.months
}

/// Whether a miss at the instant `now` is far enough from the last one.
pub open spec fn miss_counts(s: Standing, now: Timestamp) -> bool {
    match s.missed_at {
        Some(last) => elapsed_nanos(now, last) >= MISS_SPACING,
        None => true,
    }
}

/// One more miss; the count stays at the largest number it can hold.
pub open spec fn one_more(misses: i16) -> i16 {
    if misses == i16::MAX {
        i16::MAX
    } else {
        (misses + 1) as i16
    }
}

/// What a card changes, at the instant `now`, where `confirmations` misses take a follow away.
pub open spec fn decided(s: Standing, f: CardFacts, confirmations: i16, now: Timestamp) -> Decision {
    if f.is_following {
        Decision {
            is_follower: true,
            misses: 0,
            counted_miss: false,
            removes_follow: false,
            changed_facts: !s.is_follower || gains_extras(s, f),
        }
    } else if !s.is_follower {
        Decision {
            is_follower: false,
            misses: 0,
            counted_miss: false,
            removes_follow: false,
            changed_facts: gains_extras(s, f),
        }
    } else if !miss_counts(s, now) {
        Decision {
            is_follower: true,
            misses: s.misses,
            counted_miss: false,
            removes_follow: false,
            changed_facts: gains_extras(s, f),
        }
    } else if one_more(s.misses) >= confirmations {
        Decision { is_follower: false, misses: 0, counted_miss: true, removes_follow: true, changed_facts: true }
    } else {
        Decision {
            is_follower: true,
            misses: one_more(s.misses),
            counted_miss: true,
            removes_follow: false,
            changed_facts: gains_extras(s, f),
        }
    }
}

/// What a card changes in a relation, at the instant `now`.
pub fn decide_at(row: &RelationRow, facts: &CardFacts, confirmations: i16, now: Timestamp) -> (r: Decision)
    ensures
        r == decided(row.standing(), *facts, confirmations, now),
{
    let gained_extras = (facts.is_subscriber && !row.is_subscriber) || (facts.is_vip && !row.is_vip) || (
    facts.is_moderator && !row.is_moderator) || (facts.is_og && !row.is_og) || facts.subscribed_for_months
        > row.sub_months_cumulative as i64;
    if facts.is_following {
        return Decision {
            is_follower: true,
            misses: 0,
            counted_miss: false,
            removes_follow: false,
            changed_facts: !row.is_follower || gained_extras,
        };
    }
    if !row.is_follower {
        return Decision {
            is_follower: false,
            misses: 0,
            counted_miss: false,
            removes_follow: false,
            changed_facts: gained_extras,
        };
    }
    let counts = match row.follow_missed_at {
        Some(last) => nanos_between(now, last) >= MISS_SPACING as i128,
        None => true,
    };
    if !counts {
        return Decision {
            is_follower: true,
            misses: row.follow_probe_misses,
            counted_miss: false,
            removes_follow: false,
            changed_facts: gained_extras,
        };
    }
    let misses: i16 = if row.follow_probe_misses == i16::MAX {
        i16::MAX
    } else {
        row.follow_probe_misses + 1
    };
    if misses >= confirmations {
        Decision { is_follower: false, misses: 0, counted_miss: true, removes_follow: true, changed_facts: true }
    } else {
        Decision {
            is_follower: true,
            misses,
            counted_miss: true,
            removes_follow: false,
            changed_facts: gained_extras,
        }
    }
}

/// Whether the decision rests on the clock: a card without a follow, for someone who is held to
/// follow and was missed before.
pub open spec fn clock_decides(s: Standing, f: CardFacts) -> bool {
    !f.is_following && s.is_follower && s.missed_at is Some
}

/// What a card changes in a relation now.
pub fn decide(row: &RelationRow, facts: &CardFacts, confirmations: i16) -> (r: Decision)
    ensures
        exists|now: Timestamp|
            now.valid() && r == #[trigger] decided(row.standing(), *facts, confirmations, now),
        !clock_decides(row.standing(), *facts) ==> forall|now: Timestamp|
            r == #[trigger] decided(row.standing(), *facts, confirmations, now),
{
    let instant = now();
    decide_at(row, facts, confirmations, instant)
}

/// The values of the statement that writes a decision.
#[derive(Debug, Clone, Copy)]
pub struct FollowUpdate {
    pub kick_channel_id: i64,
    pub kick_user_id: i64,
    pub is_follower: bool,
    pub following_since: Option<Timestamp>,
    pub counted_miss: bool,
    pub misses: i16,
    pub is_subscriber: bool,
    pub months: i32,
    pub is_vip: bool,
    pub is_moderator: bool,
    pub is_og: bool,
}

/// The statement that writes a decision; its parameters are the fields of [`FollowUpdate`], in
/// order.
pub const UPDATE_RELATION: &'static str = "UPDATE channel_relations SET is_follower = $3, \
    followed_at = CASE WHEN $3 THEN COALESCE(followed_at, $4, now()) ELSE NULL END, \
    follow_confirmed_at = CASE WHEN $3 THEN now() ELSE follow_confirmed_at END, \
    follow_probed_at = now(), follow_probe_attempted_at = now(), \
    follow_missed_at = CASE WHEN $5 THEN now() ELSE follow_missed_at END, \
    follow_probe_misses = $6, \
    is_subscriber = is_subscriber OR $7, \
    sub_months_cumulative = GREATEST(sub_months_cumulative, $8), \
    is_vip = is_vip OR $9, is_moderator = is_moderator OR $10, is_og = is_og OR $11, \
    last_synced_at = now() \
    WHERE kick_channel_id = $1 AND kick_user_id = $2";

/// The statement that notes an attempt without an answer, for a channel and a viewer.
pub const STAMP_ATTEMPT: &'static str = "UPDATE channel_relations SET follow_probe_attempted_at = now() \
    WHERE kick_channel_id = $1 AND kick_user_id = $2";

/// The months of a card as the column holds them.
pub open spec fn stored_months(months: i64) -> i32 {
    if months < 0 {
        0
    } else if months > i32::MAX {
        i32::MAX
    } else {
        months as i32
    }
}

/// The values that write a decision.
pub open spec fn update_of(
    kick_channel_id: i64,
    kick_user_id: i64,
    f: CardFacts,
    d: Decision,
) -> FollowUpdate {
    FollowUpdate {
        kick_channel_id,
        kick_user_id,
        is_follower: d.is_follower,
        following_since: f.following_since,
        counted_miss: d.counted_miss,
        misses: d.misses,
        is_subscriber: f.is_subscriber,
        months: stored_months(f.subscribed_for_months),
        is_vip: f.is_vip,
        is_moderator: f.is_moderator,
        is_og: f.is_og,
    }
}

/// What is to be written for one viewer and channel.
#[derive(Debug, Clone, Copy)]
pub enum RowWrite {
    /// [`STAMP_ATTEMPT`] and nothing else.
    Attempt { kick_channel_id: i64, kick_user_id: i64 },
    /// [`UPDATE_RELATION`].
    Update(FollowUpdate),
}

/// What an outcome has written.
pub open spec fn write_of(
    kick_user_id: i64,
    row: RelationRow,
    outcome: OutcomeView,
    confirmations: i16,
    now: Timestamp,
) -> RowWrite {
    match outcome {
        OutcomeView::Unavailable(_) => RowWrite::Attempt { kick_channel_id: row.kick_channel_id, kick_user_id },
        OutcomeView::Usable(f) => RowWrite::Update(
            update_of(row.kick_channel_id, kick_user_id, f, decided(row.standing(), f, confirmations, now)),
        ),
    }
}

/// The report with an outcome added to it.
pub open spec fn report_with(
    report: ProbeReport,
    s: Standing,
    outcome: OutcomeView,
    confirmations: i16,
    now: Timestamp,
) -> ProbeReport {
    match outcome {
        OutcomeView::Unavailable(_) => ProbeReport { attempted: (report.attempted + 1) as usize, ..report },
        OutcomeView::Usable(f) => {
            let d = decided(s, f, confirmations, now);
            ProbeReport {
                attempted: (report.attempted + 1) as usize,
                usable: (report.usable + 1) as usize,
                following: if f.is_following {
                    (report.following + 1) as usize
                } else {
                    report.following
                },
                removed: if d.removes_follow {
                    (report.removed + 1) as usize
                } else {
                    report.removed
                },
                changed: report.changed || d.changed_facts,
            }
        },
    }
}

/// Takes up the outcome of probing one channel: what to write, and the report with the outcome
/// added to it.
pub fn take_outcome(
    report: &mut ProbeReport,
    kick_user_id: i64,
    row: &RelationRow,
    outcome: &ProbeOutcome,
    confirmations: i16,
    now: Timestamp,
) -> (r: RowWrite)
    requires
        old(report).consistent(),
        old(report).attempted < usize::MAX,
    ensures
        final(report).consistent(),
        *final(report) == report_with(*old(report), row.standing(), outcome@, confirmations, now),
        r == write_of(kick_user_id, *row, outcome@, confirmations, now),
{
    report.attempted = report.attempted + 1;
    let facts = match outcome {
        ProbeOutcome::Usable(f) => f,
        ProbeOutcome::Unavailable(_) => {
            return RowWrite::Attempt { kick_channel_id: row.kick_channel_id, kick_user_id };
        },
    };
    report.usable = report.usable + 1;
    if facts.is_following {
        report.following = report.following + 1;
    }
    let decision = decide_at(row, facts, confirmations, now);
    if decision.removes_follow {
        report.removed = report.removed + 1;
    }
    if decision.changed_facts {
        report.changed = true;
    }
    RowWrite::Update(follow_update(kick_user_id, row, facts, decision))
}

/// The values that write a decision.
fn follow_update(kick_user_id: i64, row: &RelationRow, facts: &CardFacts, decision: Decision) -> (r: FollowUpdate)
    ensures
        r == update_of(row.kick_channel_id, kick_user_id, *facts, decision),
{
    let months: i32 = if facts.subscribed_for_months < 0 {
        0
    } else if facts.subscribed_for_months > i32::MAX as i64 {
        i32::MAX
    } else {
        facts.subscribed_for_months as i32
    };
    FollowUpdate {
        kick_channel_id: row.kick_channel_id,
        kick_user_id,
        is_follower: decision.is_follower,
        following_since: facts.following_since,
        counted_miss: decision.counted_miss,
        misses: decision.misses,
        is_subscriber: facts.is_subscriber,
        months,
        is_vip: facts.is_vip,
        is_moderator: facts.is_moderator,
        is_og: facts.is_og,
    }
}

/// What is to be done next in a run of probes for one member.
#[derive(Debug, Clone, Copy, PartialEq, Eq, Structural)]
pub enum RunStep {
    /// See which account the member has linked.
    FindLink,
    /// Probe the channels that the account may have a relation to.
    ProbeChannels,
    /// Have the member's roles looked at again.
    QueueSync,
    /// Nothing.
    Finish,
}

/// The first step of a run; `enabled` where there is a probe.
pub open spec fn run_step(enabled: bool) -> RunStep {
    if enabled {
        RunStep::FindLink
    } else {
        RunStep::Finish
    }
}

/// The first step of a run: without a probe there is nothing to do.
pub fn begin_run(enabled: bool) -> (r: RunStep)
    ensures
        r == run_step(enabled),
{
    if enabled {
        RunStep::FindLink
    } else {
        RunStep::Finish
    }
}

/// The step once the member's account was looked up.
pub open spec fn linked_step(is_linked: bool) -> RunStep {
    if is_linked {
        RunStep::ProbeChannels
    } else {
        RunStep::Finish
    }
}

/// The step once the member's account was looked up: without one there is nothing to do.
pub fn with_link(is_linked: bool) -> (r: RunStep)
    ensures
        r == linked_step(is_linked),
{
    if is_linked {
        RunStep::ProbeChannels
    } else {
        RunStep::Finish
    }
}

/// The step once all channels were probed.
pub open spec fn probed_step(report: ProbeReport) -> RunStep {
    if report.changed {
        RunStep::QueueSync
    } else {
        RunStep::Finish
    }
}

/// The step once all channels were probed: where a fact changed, the roles are looked at again.
pub fn with_report(report: &ProbeReport) -> (r: RunStep)
    ensures
        r == probed_step(*report),
{
    if report.changed {
        RunStep::QueueSync
    } else {
        RunStep::Finish
    }
}

/// The outcome of probing one channel, and when it was taken up.
pub struct ChannelProbe {
    pub row: RelationRow,
    pub outcome: OutcomeView,
    pub taken: Timestamp,
}

impl ChannelProbe {
    /// Whether the outcome changes a fact that roles may rest on.
    pub open spec fn changes(self, confirmations: i16) -> bool {
        match self.outcome {
            OutcomeView::Usable(f) => decided(self.row.standing(), f, confirmations, self.taken).changed_facts,
            OutcomeView::Unavailable(_) => false,
        }
    }
}

/// The report on the outcomes, in order.
pub open spec fn reported(probes: Seq<ChannelProbe>, confirmations: i16) -> ProbeReport
    decreases probes.len(),
{
    if probes.len() == 0 {
        ProbeReport { attempted: 0, usable: 0, following: 0, removed: 0, changed: false }
    } else {
        report_with(
            reported(probes.drop_last(), confirmations),
            probes.last().row.standing(),
            probes.last().outcome,
            confirmations,
            probes.last().taken,
        )
    }
}

/// What a run comes to: the report, the writes in order, and whether the roles are looked at again.
pub struct RunEnding {
    pub report: ProbeReport,
    pub writes: Seq<RowWrite>,
    pub queued: bool,
}

/// What a run comes to where nothing is done.
pub open spec fn idle_run() -> RunEnding {
    RunEnding { report: reported(seq![], 0), writes: seq![], queued: false }
}

/// What a run comes to; `link` is the member's account, and `probes` are the outcomes for its
/// channels.
pub open spec fn run_ending(
    enabled: bool,
    link: Option<i64>,
    probes: Seq<ChannelProbe>,
    confirmations: i16,
) -> RunEnding {
    match run_step(enabled) {
        RunStep::FindLink => match linked_step(link is Some) {
            RunStep::ProbeChannels => {
                let report = reported(probes, confirmations);
                RunEnding {
                    report,
                    writes: probes.map_values(
                        |p: ChannelProbe| write_of(link->0, p.row, p.outcome, confirmations, p.taken),
                    ),
                    queued: probed_step(report) is QueueSync,
                }
            },
            _ => idle_run(),
        },
        _ => idle_run(),
    }
}

/// Without a probe, or for a member who has linked no account, a run does nothing at all: it reports
/// no attempt, writes nothing and queues nothing.
pub proof fn law_no_run_without_probe_and_link(
    enabled: bool,
    link: Option<i64>,
    probes: Seq<ChannelProbe>,
    confirmations: i16,
)
    requires
        !enabled || link is None,
    ensures
        run_ending(enabled, link, probes, confirmations) == (RunEnding {
            report: ProbeReport { attempted: 0, usable: 0, following: 0, removed: 0, changed: false },
            writes: seq![],
            queued: false,
        }),
{
}

/// A run asks for a new look at the member's roles if and only if an outcome changed a fact that
/// roles may rest on.
pub proof fn law_roles_are_queued_where_a_fact_changed(link: i64, probes: Seq<ChannelProbe>, confirmations: i16)
    ensures
        run_ending(true, Some(link), probes, confirmations).queued == (exists|i: int|
            0 <= i < probes.len() && (#[trigger] probes[i]).changes(confirmations)),
    decreases probes.len(),
{
    if probes.len() > 0 {
        let init = probes.drop_last();
        law_roles_are_queued_where_a_fact_changed(link, init, confirmations);
        if exists|i: int| 0 <= i < init.len() && (#[trigger] init[i]).changes(confirmations) {
            let i = choose|i: int| 0 <= i < init.len() && (#[trigger] init[i]).changes(confirmations);
            assert(probes[i].changes(confirmations));
        }
        if exists|i: int| 0 <= i < probes.len() && (#[trigger] probes[i]).changes(confirmations) {
            let i = choose|i: int| 0 <= i < probes.len() && (#[trigger] probes[i]).changes(confirmations);
            if i < init.len() {
                assert(init[i].changes(confirmations));
            }
        }
    }
}

/// A run reports and writes once for every channel. It is reported to have no answer at all if and
/// only if there were channels and none of them gave one.
pub proof fn law_a_run_accounts_for_every_channel(link: i64, probes: Seq<ChannelProbe>, confirmations: i16)
    requires
        probes.len() <= usize::MAX,
    ensures
        ({
            let r = run_ending(true, Some(link), probes, confirmations);
            &&& r.report.attempted == probes.len()
            &&& r.writes.len() == probes.len()
            &&& r.report.consistent()
            &&& (r.report.attempted > 0 && r.report.usable == 0) == (probes.len() > 0 && forall|i: int|
                0 <= i < probes.len() ==> (#[trigger] probes[i]).outcome is Unavailable)
        }),
    decreases probes.len(),
{
    if probes.len() > 0 {
        let init = probes.drop_last();
        law_a_run_accounts_for_every_channel(link, init, confirmations);
        assert(init.len() > 0 ==> probes[0] == init[0]);
        if forall|i: int| 0 <= i < probes.len() ==> (#[trigger] probes[i]).outcome is Unavailable {
            assert forall|i: int| 0 <= i < init.len() implies (#[trigger] init[i]).outcome is Unavailable by {
                assert(init[i] == probes[i]);
            }
        }
        if init.len() > 0 && forall|i: int| 0 <= i < init.len() ==> (#[trigger] init[i]).outcome is Unavailable {
            assert forall|i: int| 0 <= i < init.len() implies (#[trigger] probes[i]).outcome is Unavailable by {
                assert(init[i] == probes[i]);
            }
        }
    }
}

/// A report counts each outcome once: every attempt, every answer, every follow that was shown, and
/// every follow that was taken away; and it tells of a change from the first one on.
pub proof fn law_a_report_counts_each_outcome_once(
    report: ProbeReport,
    s: Standing,
    outcome: OutcomeView,
    confirmations: i16,
    now: Timestamp,
)
    requires
        report.consistent(),
        report.attempted < usize::MAX,
    ensures
        ({
            let r = report_with(report, s, outcome, confirmations, now);
            &&& r.attempted == report.attempted + 1
            &&& outcome is Unavailable ==> r.usable == report.usable && r.following == report.following && r.removed
                == report.removed && r.changed == report.changed
            &&& outcome matches OutcomeView::Usable(f) ==> {
                let d = decided(s, f, confirmations, now);
                &&& r.usable == report.usable + 1
                &&& f.is_following ==> r.following == report.following + 1 && r.removed == report.removed
                &&& !f.is_following ==> r.following == report.following
                &&& d.removes_follow ==> r.removed == report.removed + 1
                &&& !d.removes_follow ==> r.removed == report.removed
                &&& r.changed == (report.changed || d.changed_facts)
            }
        }),
{
}

/// A run had no answer at all where there was an attempt and nothing came of any; a run that did nothing
/// had none to have.
pub proof fn law_no_answer_is_told_from_no_attempt(report: ProbeReport, r: bool, fresh: ProbeReport)
    requires
        call_ensures(ProbeReport::all_unavailable, (&report,), r),
        call_ensures(<ProbeReport as Default>::default, (), fresh),
    ensures
        r <==> report.attempted >= 1 && report.usable == 0,
        fresh.attempted == 0 && fresh.usable == 0 && fresh.following == 0 && fresh.removed == 0 && !fresh.changed,
{
}

} // verus!
