//! Which channels are looked at before their round, because a member asks for it.

use vstd::prelude::*;

use crate::time::{more_than_ago, Timestamp};

verus! {

/// How many seconds lie between two looks at a channel that members ask for: five minutes.
pub const REFRESH_COOLDOWN_SECS: i64 = 300;

/// The statement that finds the channels to look at for a member who asks: `$1` is the member's
/// account, `$2` is [`REFRESH_COOLDOWN_SECS`]. A channel that waits for a look already is left out.
pub const MEMBER_CHANNELS: &'static str = "SELECT DISTINCT cr.kick_channel_id \
    FROM channel_relations cr \
    JOIN broadcasters b ON b.kick_channel_id = cr.kick_channel_id \
    WHERE cr.kick_user_id = $1 \
    AND (b.last_synced_at IS NULL OR b.last_synced_at < now() - make_interval(secs => $2)) \
    AND NOT EXISTS ( \
    SELECT 1 FROM jobs j \
    WHERE j.kind = 'channel_refresh' \
    AND j.status IN ('pending', 'in_progress') \
    AND (j.payload->>'kick_channel_id')::bigint = cr.kick_channel_id \
    )";

/// The statement that finds the channels to look at for a member who was just linked: `$1` are the
/// member's guilds, `$2` is [`REFRESH_COOLDOWN_SECS`]. A channel that waits for a look already is
/// left out.
pub const GUILD_CHANNELS: &'static str = "SELECT gb.kick_channel_id \
    FROM guild_broadcasters gb \
    JOIN broadcasters b ON b.kick_channel_id = gb.kick_channel_id \
    WHERE gb.guild_id = ANY($1) \
    AND (b.last_synced_at IS NULL OR b.last_synced_at < now() - make_interval(secs => $2)) \
    AND NOT EXISTS ( \
    SELECT 1 FROM jobs j \
    WHERE j.kind = 'channel_refresh' \
    AND j.status IN ('pending', 'in_progress') \
    AND (j.payload->>'kick_channel_id')::bigint = gb.kick_channel_id \
    )";

/// Whether the two statements pick a channel of the member's, at the instant `now`; `waiting` where a
/// look at it is queued or under way.
pub open spec fn picks_channel(last_synced: Option<Timestamp>, waiting: bool, now: Timestamp) -> bool {
    !waiting && match last_synced {
        Some(t) => more_than_ago(t, REFRESH_COOLDOWN_SECS as int, now),
        None => true,
    }
}

/// However many members ask, a channel is looked at once in five minutes at most, and never queued
/// twice; but one that nobody looked at for longer, or ever, and that does not wait, is picked.
pub proof fn law_members_share_a_look(last_synced: Option<Timestamp>, waiting: bool, now: Timestamp)
    ensures
        waiting ==> !picks_channel(last_synced, waiting, now),
        last_synced is Some && now.secs < last_synced->0.secs + 300 ==> !picks_channel(last_synced, waiting, now),
        last_synced is Some && now.secs > last_synced->0.secs + 300 ==> picks_channel(last_synced, false, now),
        last_synced is None ==> picks_channel(last_synced, false, now),
{
}

} // verus!
