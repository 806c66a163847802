//! Whether the service is well, and whether it takes requests.

use vstd::prelude::*;

use crate::json::{object_view, Json, JsonView};
use crate::routes::api_v1::{json_time, time_json};
use crate::time::Timestamp;

verus! {

/// What is told of the database.
pub open spec fn database_json(db_ok: bool, latency_ms: i64) -> JsonView {
    object_view().with(
        "status"@,
        JsonView::Str(
            if db_ok {
                "up"@
            } else {
                "down"@
            },
        ),
    ).with("latency_ms"@, JsonView::Int(latency_ms))
}

/// What is told of the service.
pub open spec fn health_json(db_ok: bool, now: Timestamp, latency_ms: i64) -> JsonView {
    object_view().with(
        "status"@,
        JsonView::Str(
            if db_ok {
                "healthy"@
            } else {
                "unhealthy"@
            },
        ),
    ).with("timestamp"@, time_json(now)).with(
        "checks"@,
        object_view().with("database"@, database_json(db_ok, latency_ms)),
    )
}

/// Whether the service is well: the status and the body of the answer. It is not where the database
/// cannot be reached.
pub fn health(db_ok: bool, now: Timestamp, latency_ms: i64) -> (r: (u16, Json))
    requires
        now.valid(),
    ensures
        r.0 == (if db_ok {
            200u16
        } else {
            503u16
        }),
        r.1@ == health_json(db_ok, now, latency_ms),
{
    let (code, word, database): (u16, &'static str, &'static str) = if db_ok {
        (200, "healthy", "up")
    } else {
        (503, "unhealthy", "down")
    };
    let check = Json::object().with("status", Json::text(database)).with("latency_ms", Json::Int(latency_ms));
    let body = Json::object().with("status", Json::text(word)).with("timestamp", json_time(now)).with(
        "checks",
        Json::object().with("database", check),
    );
    (code, body)
}

/// Whether the service takes requests: the status and the body of the answer. It does not while it
/// shuts down.
pub fn ready(draining: bool) -> (r: (u16, Json))
    ensures
        r.0 == (if draining {
            503u16
        } else {
            200u16
        }),
        r.1@ == object_view().with(
            "status"@,
            JsonView::Str(
                if draining {
                    "draining"@
                } else {
                    "ready"@
                },
            ),
        ),
{
    if draining {
        (503, Json::object().with("status", Json::text("draining")))
    } else {
        (200, Json::object().with("status", Json::text("ready")))
    }
}

} // verus!
