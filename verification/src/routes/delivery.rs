//! How a delivery from Kick is taken in, step by step, and how it is answered.

use vstd::prelude::*;
use vstd::string::*;

use crate::json::{json_bytes, parse_bytes, reading, Json, JsonView};
use crate::routes::webhooks::{ops, plan_event, planned, times_in, EventOp, OpView};
use crate::services::kick::{accepted, verify_webhook_signature_at, SigningKey};
use crate::time::Timestamp;

verus! {

/// What a delivery's headers say; empty where one is not there or is no text.
#[derive(Debug)]
pub struct Delivery {
    pub message_id: String,
    pub timestamp: String,
    pub signature: String,
    pub event_type: String,
}

/// What is to be done next with a delivery.
#[derive(Debug)]
pub enum Step {
    /// Get the key that Kick signs with, or a fresh copy of it.
    FetchKey { fresh: bool },
    /// Record the delivery, unless it is known.
    Record,
    /// Carry out the writes.
    Apply(Vec<EventOp>),
    /// Forget the delivery, so that Kick's next attempt counts.
    Forget,
    /// Answer.
    Reply { status: u16, text: &'static str },
}

/// What a step is.
pub enum StepView {
    FetchKey { fresh: bool },
    Record,
    Apply(Seq<OpView>),
    Forget,
    Reply { status: u16, text: Seq<char> },
}

impl View for Step {
    type V = StepView;

    open spec fn view(&self) -> StepView {
        match *self {
            Step::FetchKey { fresh } => StepView::FetchKey { fresh },
            Step::Record => StepView::Record,
            Step::Apply(list) => StepView::Apply(ops(list@)),
            Step::Forget => StepView::Forget,
            Step::Reply { status, text } => StepView::Reply { status, text: text@ },
        }
    }
}

impl Delivery {
    /// Whether a header is missing without which the delivery cannot be verified.
    pub open spec fn is_unsigned(self) -> bool {
        self.message_id@.len() == 0 || self.timestamp@.len() == 0 || self.signature@.len() == 0
    }

    /// Whether the delivery is the key owner's, at the instant `now`.
    pub open spec fn verified(self, key: SigningKey, body: Seq<u8>, now: Timestamp) -> bool {
        accepted(key, self.message_id@, self.timestamp@, body, self.signature@, now)
    }
}

/// The first step.
pub open spec fn first_step(d: Delivery) -> StepView {
    if d.is_unsigned() {
        StepView::Reply { status: 400, text: "missing signature headers"@ }
    } else {
        StepView::FetchKey { fresh: false }
    }
}

/// The first step with a delivery.
pub fn receive(d: &Delivery) -> (r: Step)
    ensures
        r@ == first_step(*d),
{
    if d.message_id.as_str().is_empty() || d.timestamp.as_str().is_empty() || d.signature.as_str().is_empty() {
        Step::Reply { status: 400, text: "missing signature headers" }
    } else {
        Step::FetchKey { fresh: false }
    }
}

/// The step after a key was asked for. A delivery that the known key does not verify is held
/// against a fresh copy once; the key may have changed.
pub open spec fn key_step(d: Delivery, body: Seq<u8>, key: Option<SigningKey>, fresh: bool, now: Timestamp) -> StepView {
    match key {
        Some(k) => if d.verified(k, body, now) {
            StepView::Record
        } else if fresh {
            StepView::Reply { status: 401, text: "bad signature"@ }
        } else {
            StepView::FetchKey { fresh: true }
        },
        None => if fresh {
            StepView::Reply { status: 401, text: "bad signature"@ }
        } else {
            StepView::Reply { status: 500, text: "no signing key"@ }
        },
    }
}

/// The step after a key was asked for; none where it could not be had.
pub fn with_key(d: &Delivery, body: &[u8], key: &Option<SigningKey>, fresh: bool, now: Timestamp) -> (r: Step)
    ensures
        r@ == key_step(*d, body@, *key, fresh, now),
{
    match key {
        Some(k) => {
            let verified = verify_webhook_signature_at(
                k,
                d.message_id.as_str(),
                d.timestamp.as_str(),
                body,
                d.signature.as_str(),
                now,
            );
            if verified {
                Step::Record
            } else if fresh {
                Step::Reply { status: 401, text: "bad signature" }
            } else {
                Step::FetchKey { fresh: true }
            }
        },
        None => if fresh {
            Step::Reply { status: 401, text: "bad signature" }
        } else {
            Step::Reply { status: 500, text: "no signing key" }
        },
    }
}

/// The event's name: from the header, or else from the payload.
pub open spec fn event_name(header: Seq<char>, p: JsonView) -> Seq<char> {
    if header.len() > 0 {
        header
    } else {
        match p.str_at("event"@) {
            Some(name) => name,
            None => match p.str_at("type"@) {
                Some(name) => name,
                None => seq![],
            },
        }
    }
}

/// The event's name.
pub fn event_type(header: &str, p: &Json) -> (r: String)
    ensures
        r@ == event_name(header@, p@),
{
    if !header.is_empty() {
        return header.to_owned();
    }
    if let Some(name) = p.str_at("event") {
        return name.to_owned();
    }
    match p.str_at("type") {
        Some(name) => name.to_owned(),
        None => {
            let r = String::new();
            assert(r@ =~= event_name(header@, p@));
            r
        },
    }
}

/// The step after the delivery was recorded, or was not: `recorded` is how many rows that wrote,
/// none where it failed.
pub open spec fn record_step(
    d: Delivery,
    recorded: Option<u64>,
    parsed: Result<JsonView, Seq<char>>,
) -> StepView {
    match recorded {
        None => StepView::Reply { status: 500, text: "db error"@ },
        Some(rows) => if rows == 0 {
            StepView::Reply { status: 200, text: "duplicate ignored"@ }
        } else {
            match parsed {
                Err(_) => StepView::Reply { status: 400, text: "bad json"@ },
                Ok(p) => StepView::Apply(planned(event_name(d.event_type@, p), p, times_in(p))),
            }
        },
    }
}

/// The step after the delivery was recorded, given its body read as JSON.
pub fn recorded_given(d: &Delivery, recorded: Option<u64>, parsed: Result<Json, String>) -> (r: Step)
    ensures
        r@ == record_step(*d, recorded, reading(parsed)),
{
    match recorded {
        None => Step::Reply { status: 500, text: "db error" },
        Some(rows) => if rows == 0 {
            Step::Reply { status: 200, text: "duplicate ignored" }
        } else {
            match parsed {
                Err(_) => Step::Reply { status: 400, text: "bad json" },
                Ok(p) => {
                    let name = event_type(d.event_type.as_str(), &p);
                    Step::Apply(plan_event(name.as_str(), &p))
                },
            }
        },
    }
}

/// The step after the delivery was recorded, or was not.
pub fn recorded(d: &Delivery, body: &[u8], rows: Option<u64>) -> (r: Step)
    ensures
        r@ == record_step(*d, rows, json_bytes(body@)),
{
    recorded_given(d, rows, parse_bytes(body))
}

/// The step after the writes were carried out, or after one of them failed.
pub open spec fn applied_step(done: bool) -> StepView {
    if done {
        StepView::Reply { status: 200, text: "ok"@ }
    } else {
        StepView::Forget
    }
}

/// The step after the writes were carried out, or after one of them failed.
pub fn applied(done: bool) -> (r: Step)
    ensures
        r@ == applied_step(done),
{
    if done {
        Step::Reply { status: 200, text: "ok" }
    } else {
        Step::Forget
    }
}

/// The step after a delivery was forgotten.
pub open spec fn forgotten_step() -> StepView {
    StepView::Reply { status: 500, text: "apply failed"@ }
}

/// The step after a delivery was forgotten.
pub fn forgotten() -> (r: Step)
    ensures
        r@ == forgotten_step(),
{
    Step::Reply { status: 500, text: "apply failed" }
}

/// All that the world outside has to say to a delivery: the keys and when they came, how many rows
/// recording it wrote, and whether the writes went through.
pub struct Surroundings {
    pub known: Option<SigningKey>,
    pub known_at: Timestamp,
    pub fresh: Option<SigningKey>,
    pub fresh_at: Timestamp,
    pub recorded: Option<u64>,
    pub done: bool,
}

/// What a delivery comes to: the writes that were begun, whether it was forgotten again, and the
/// answer.
pub struct Ending {
    pub writes: Seq<OpView>,
    pub forgotten: bool,
    pub answer: StepView,
}

/// The step after verification.
pub open spec fn verified_step(d: Delivery, body: Seq<u8>, w: Surroundings) -> StepView {
    match first_step(d) {
        StepView::FetchKey { .. } => match key_step(d, body, w.known, false, w.known_at) {
            StepView::FetchKey { .. } => key_step(d, body, w.fresh, true, w.fresh_at),
            other => other,
        },
        other => other,
    }
}

/// What a delivery comes to.
pub open spec fn ending(
    d: Delivery,
    body: Seq<u8>,
    parsed: Result<JsonView, Seq<char>>,
    w: Surroundings,
) -> Ending {
    match verified_step(d, body, w) {
        StepView::Record => match record_step(d, w.recorded, parsed) {
            StepView::Apply(writes) => match applied_step(w.done) {
                StepView::Forget => Ending { writes, forgotten: true, answer: forgotten_step() },
                answer => Ending { writes, forgotten: false, answer },
            },
            answer => Ending { writes: seq![], forgotten: false, answer },
        },
        answer => Ending { writes: seq![], forgotten: false, answer },
    }
}

/// Nothing is written for a delivery that no key verifies: it is answered with 400, 401 or 500.
pub proof fn law_unverified_deliveries_have_no_effect(
    d: Delivery,
    body: Seq<u8>,
    parsed: Result<JsonView, Seq<char>>,
    w: Surroundings,
)
    requires
        w.known is Some ==> !d.verified(w.known->0, body, w.known_at),
        w.fresh is Some ==> !d.verified(w.fresh->0, body, w.fresh_at),
    ensures
        ending(d, body, parsed, w).writes.len() == 0,
        ending(d, body, parsed, w).answer matches StepView::Reply { status, .. } && (status == 400 || status == 401
            || status == 500),
        !d.is_unsigned() && w.known is Some ==> ending(d, body, parsed, w).answer == (StepView::Reply {
            status: 401,
            text: "bad signature"@,
        }),
{
}

/// A delivery that is already on record is acknowledged, and writes nothing.
pub proof fn law_duplicates_are_acknowledged_without_effect(
    d: Delivery,
    body: Seq<u8>,
    parsed: Result<JsonView, Seq<char>>,
    w: Surroundings,
)
    requires
        verified_step(d, body, w) is Record,
        w.recorded == Some(0u64),
    ensures
        ending(d, body, parsed, w) == (Ending {
            writes: seq![],
            forgotten: false,
            answer: StepView::Reply { status: 200, text: "duplicate ignored"@ },
        }),
{
}

/// A delivery whose writes failed is forgotten and answered so that Kick sends it again; one whose
/// writes went through is not.
pub proof fn law_failed_writes_are_sent_again(
    d: Delivery,
    body: Seq<u8>,
    parsed: Result<JsonView, Seq<char>>,
    w: Surroundings,
)
    requires
        verified_step(d, body, w) is Record,
        record_step(d, w.recorded, parsed) is Apply,
    ensures
        ending(d, body, parsed, w).forgotten == !w.done,
        ending(d, body, parsed, w).answer == (if w.done {
            StepView::Reply { status: 200, text: "ok"@ }
        } else {
            StepView::Reply { status: 500, text: "apply failed"@ }
        }),
{
}

/// A delivery that was signed with a new key is taken in although the known key is the old one.
pub proof fn law_a_changed_key_is_noticed(d: Delivery, body: Seq<u8>, w: Surroundings)
    requires
        !d.is_unsigned(),
        w.known is Some,
        w.fresh is Some,
        d.verified(w.fresh->0, body, w.fresh_at),
    ensures
        verified_step(d, body, w) is Record,
{
}

/// A delivery is answered by what is the matter with it: without one of the three headers it cannot be
/// verified, without a key neither; a second copy of the key decides.
pub proof fn law_deliveries_are_verified_or_answered(
    d: Delivery,
    body: Seq<u8>,
    key: Option<SigningKey>,
    now: Timestamp,
)
    ensures
        d.message_id@.len() == 0 || d.timestamp@.len() == 0 || d.signature@.len() == 0 <==> first_step(d) == (
        StepView::Reply { status: 400, text: "missing signature headers"@ }),
        d.message_id@.len() > 0 && d.timestamp@.len() > 0 && d.signature@.len() > 0 <==> first_step(d) == (
        StepView::FetchKey { fresh: false }),
        key is None ==> key_step(d, body, key, false, now) == (StepView::Reply {
            status: 500,
            text: "no signing key"@,
        }),
        key is None ==> key_step(d, body, key, true, now) == (StepView::Reply { status: 401, text: "bad signature"@ }),
        key matches Some(k) ==> {
            let holds = accepted(k, d.message_id@, d.timestamp@, body, d.signature@, now);
            &&& holds ==> key_step(d, body, key, false, now) is Record && key_step(d, body, key, true, now) is Record
            &&& !holds ==> key_step(d, body, key, false, now) == (StepView::FetchKey { fresh: true })
            &&& !holds ==> key_step(d, body, key, true, now) == (StepView::Reply {
                status: 401,
                text: "bad signature"@,
            })
        },
{
}

/// A delivery that was recorded for the first time has the writes of its event carried out: the event
/// that its header names, or else the payload under `event`, or else under `type`.
pub proof fn law_new_deliveries_are_carried_out(
    d: Delivery,
    rows: u64,
    parsed: Result<JsonView, Seq<char>>,
    name: Seq<char>,
)
    ensures
        record_step(d, None, parsed) == (StepView::Reply { status: 500, text: "db error"@ }),
        record_step(d, Some(0), parsed) == (StepView::Reply { status: 200, text: "duplicate ignored"@ }),
        rows > 0 && parsed is Err ==> record_step(d, Some(rows), parsed) == (StepView::Reply {
            status: 400,
            text: "bad json"@,
        }),
        parsed matches Ok(p) ==> rows > 0 ==> {
            let r = record_step(d, Some(rows), parsed);
            &&& d.event_type@.len() > 0 ==> r == StepView::Apply(planned(d.event_type@, p, times_in(p)))
            &&& d.event_type@.len() == 0 && p.get("event"@) == Some(JsonView::Str(name)) ==> r == StepView::Apply(
                planned(name, p, times_in(p)),
            )
            &&& d.event_type@.len() == 0 && !(p.get("event"@) matches Some(JsonView::Str(_))) && p.get("type"@) == Some(
                JsonView::Str(name),
            ) ==> r == StepView::Apply(planned(name, p, times_in(p)))
        },
        applied_step(true) == (StepView::Reply { status: 200, text: "ok"@ }),
        applied_step(false) is Forget,
        forgotten_step() == (StepView::Reply { status: 500, text: "apply failed"@ }),
{
}

} // verus!
