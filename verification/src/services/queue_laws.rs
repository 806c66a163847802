//! Whom and what the regular looks pick, by the columns that their statements name.

use vstd::prelude::*;
use vstd::string::*;

use crate::config::KickConfig;
use crate::services::follow_queue::{
    is_stale, is_unprobed, BACKFILL_RETRY_AFTER_SECS, RECHECK_AFTER_SECS, STALE_FOLLOWS, UNPROBED,
};
use crate::services::kick::KickClient;
use crate::services::refresh_queue::{GUILD_CHANNELS, MEMBER_CHANNELS, REFRESH_COOLDOWN_SECS};
use crate::services::relation::Relation;
use crate::tasks::reconcile::{
    build_client, expired, DELIVERY_SECONDS, FORGET_DELIVERIES, FORGET_STATES, GRACE_SECONDS, VIEWERS_PER_ROUND,
};
use crate::text::{contains_text, occurs_at};
use crate::time::Timestamp;

verus! {

/// Those held to follow are looked for by when they were last read, those never read by when they were
/// last tried; the longest ago come first, and nobody whose probe is pending.
#[verifier::spinoff_prover]
#[verifier::rlimit(100)]
pub proof fn law_viewers_are_picked_by_name()
    ensures
        STALE_FOLLOWS@.len() == 436,
        UNPROBED@.len() == 476,
        contains_text(STALE_FOLLOWS@, "SELECT ku.discord_id FROM channel_relations cr JOIN kick_users ku USING (kick_user_id) "@),
        contains_text(STALE_FOLLOWS@, "WHERE cr.is_follower AND (cr.follow_probed_at IS NULL OR cr.follow_probed_at < now() - make_interval(secs => $1)) "@),
        contains_text(STALE_FOLLOWS@, "GROUP BY ku.discord_id ORDER BY min(cr.follow_probed_at) NULLS FIRST LIMIT $2"@),
        contains_text(STALE_FOLLOWS@, "AND NOT EXISTS ( SELECT 1 FROM jobs j WHERE j.kind = 'follow_probe' AND j.status IN ('pending', 'in_progress') AND j.payload->>'discord_id' = ku.discord_id ) "@),
        contains_text(UNPROBED@, "SELECT ku.discord_id FROM channel_relations cr JOIN kick_users ku USING (kick_user_id) "@),
        contains_text(UNPROBED@, "WHERE cr.follow_probed_at IS NULL AND (cr.follow_probe_attempted_at IS NULL OR cr.follow_probe_attempted_at < now() - make_interval(secs => $1)) "@),
        contains_text(UNPROBED@, "GROUP BY ku.discord_id ORDER BY min(cr.follow_probe_attempted_at) NULLS FIRST LIMIT $2"@),
        contains_text(UNPROBED@, "AND NOT EXISTS ( SELECT 1 FROM jobs j WHERE j.kind = 'follow_probe' AND j.status IN ('pending', 'in_progress') AND j.payload->>'discord_id' = ku.discord_id ) "@),
{
    assert(STALE_FOLLOWS@.len() == 436) by {
        reveal_strlit("SELECT ku.discord_id FROM channel_relations cr JOIN kick_users ku USING (kick_user_id) WHERE cr.is_follower AND (cr.follow_probed_at IS NULL OR cr.follow_probed_at < now() - make_interval(secs => $1)) AND NOT EXISTS ( SELECT 1 FROM jobs j WHERE j.kind = 'follow_probe' AND j.status IN ('pending', 'in_progress') AND j.payload->>'discord_id' = ku.discord_id ) GROUP BY ku.discord_id ORDER BY min(cr.follow_probed_at) NULLS FIRST LIMIT $2");
    }
    assert(UNPROBED@.len() == 476) by {
        reveal_strlit("SELECT ku.discord_id FROM channel_relations cr JOIN kick_users ku USING (kick_user_id) WHERE cr.follow_probed_at IS NULL AND (cr.follow_probe_attempted_at IS NULL OR cr.follow_probe_attempted_at < now() - make_interval(secs => $1)) AND NOT EXISTS ( SELECT 1 FROM jobs j WHERE j.kind = 'follow_probe' AND j.status IN ('pending', 'in_progress') AND j.payload->>'discord_id' = ku.discord_id ) GROUP BY ku.discord_id ORDER BY min(cr.follow_probe_attempted_at) NULLS FIRST LIMIT $2");
    }
    assert(occurs_at(STALE_FOLLOWS@, "SELECT ku.discord_id FROM channel_relations cr JOIN kick_users ku USING (kick_user_id) "@, 0)) by {
        reveal_strlit("SELECT ku.discord_id FROM channel_relations cr JOIN kick_users ku USING (kick_user_id) WHERE cr.is_follower AND (cr.follow_probed_at IS NULL OR cr.follow_probed_at < now() - make_interval(secs => $1)) AND NOT EXISTS ( SELECT 1 FROM jobs j WHERE j.kind = 'follow_probe' AND j.status IN ('pending', 'in_progress') AND j.payload->>'discord_id' = ku.discord_id ) GROUP BY ku.discord_id ORDER BY min(cr.follow_probed_at) NULLS FIRST LIMIT $2");
        reveal_strlit("SELECT ku.discord_id FROM channel_relations cr JOIN kick_users ku USING (kick_user_id) ");
        assert(STALE_FOLLOWS@.subrange(0, 87) =~= "SELECT ku.discord_id FROM channel_relations cr JOIN kick_users ku USING (kick_user_id) "@);
    }
    assert(occurs_at(STALE_FOLLOWS@, "WHERE cr.is_follower AND (cr.follow_probed_at IS NULL OR cr.follow_probed_at < now() - make_interval(secs => $1)) "@, 87)) by {
        reveal_strlit("SELECT ku.discord_id FROM channel_relations cr JOIN kick_users ku USING (kick_user_id) WHERE cr.is_follower AND (cr.follow_probed_at IS NULL OR cr.follow_probed_at < now() - make_interval(secs => $1)) AND NOT EXISTS ( SELECT 1 FROM jobs j WHERE j.kind = 'follow_probe' AND j.status IN ('pending', 'in_progress') AND j.payload->>'discord_id' = ku.discord_id ) GROUP BY ku.discord_id ORDER BY min(cr.follow_probed_at) NULLS FIRST LIMIT $2");
        reveal_strlit("WHERE cr.is_follower AND (cr.follow_probed_at IS NULL OR cr.follow_probed_at < now() - make_interval(secs => $1)) ");
        assert(STALE_FOLLOWS@.subrange(87, 201) =~= "WHERE cr.is_follower AND (cr.follow_probed_at IS NULL OR cr.follow_probed_at < now() - make_interval(secs => $1)) "@);
    }
    assert(occurs_at(STALE_FOLLOWS@, "GROUP BY ku.discord_id ORDER BY min(cr.follow_probed_at) NULLS FIRST LIMIT $2"@, 359)) by {
        reveal_strlit("SELECT ku.discord_id FROM channel_relations cr JOIN kick_users ku USING (kick_user_id) WHERE cr.is_follower AND (cr.follow_probed_at IS NULL OR cr.follow_probed_at < now() - make_interval(secs => $1)) AND NOT EXISTS ( SELECT 1 FROM jobs j WHERE j.kind = 'follow_probe' AND j.status IN ('pending', 'in_progress') AND j.payload->>'discord_id' = ku.discord_id ) GROUP BY ku.discord_id ORDER BY min(cr.follow_probed_at) NULLS FIRST LIMIT $2");
        reveal_strlit("GROUP BY ku.discord_id ORDER BY min(cr.follow_probed_at) NULLS FIRST LIMIT $2");
        assert(STALE_FOLLOWS@.subrange(359, 436) =~= "GROUP BY ku.discord_id ORDER BY min(cr.follow_probed_at) NULLS FIRST LIMIT $2"@);
    }
    assert(occurs_at(STALE_FOLLOWS@, "AND NOT EXISTS ( SELECT 1 FROM jobs j WHERE j.kind = 'follow_probe' AND j.status IN ('pending', 'in_progress') AND j.payload->>'discord_id' = ku.discord_id ) "@, 201)) by {
        reveal_strlit("SELECT ku.discord_id FROM channel_relations cr JOIN kick_users ku USING (kick_user_id) WHERE cr.is_follower AND (cr.follow_probed_at IS NULL OR cr.follow_probed_at < now() - make_interval(secs => $1)) AND NOT EXISTS ( SELECT 1 FROM jobs j WHERE j.kind = 'follow_probe' AND j.status IN ('pending', 'in_progress') AND j.payload->>'discord_id' = ku.discord_id ) GROUP BY ku.discord_id ORDER BY min(cr.follow_probed_at) NULLS FIRST LIMIT $2");
        reveal_strlit("AND NOT EXISTS ( SELECT 1 FROM jobs j WHERE j.kind = 'follow_probe' AND j.status IN ('pending', 'in_progress') AND j.payload->>'discord_id' = ku.discord_id ) ");
        assert(STALE_FOLLOWS@.subrange(201, 359) =~= "AND NOT EXISTS ( SELECT 1 FROM jobs j WHERE j.kind = 'follow_probe' AND j.status IN ('pending', 'in_progress') AND j.payload->>'discord_id' = ku.discord_id ) "@);
    }
    assert(occurs_at(UNPROBED@, "SELECT ku.discord_id FROM channel_relations cr JOIN kick_users ku USING (kick_user_id) "@, 0)) by {
        reveal_strlit("SELECT ku.discord_id FROM channel_relations cr JOIN kick_users ku USING (kick_user_id) WHERE cr.follow_probed_at IS NULL AND (cr.follow_probe_attempted_at IS NULL OR cr.follow_probe_attempted_at < now() - make_interval(secs => $1)) AND NOT EXISTS ( SELECT 1 FROM jobs j WHERE j.kind = 'follow_probe' AND j.status IN ('pending', 'in_progress') AND j.payload->>'discord_id' = ku.discord_id ) GROUP BY ku.discord_id ORDER BY min(cr.follow_probe_attempted_at) NULLS FIRST LIMIT $2");
        reveal_strlit("SELECT ku.discord_id FROM channel_relations cr JOIN kick_users ku USING (kick_user_id) ");
        assert(UNPROBED@.subrange(0, 87) =~= "SELECT ku.discord_id FROM channel_relations cr JOIN kick_users ku USING (kick_user_id) "@);
    }
    assert(occurs_at(UNPROBED@, "WHERE cr.follow_probed_at IS NULL AND (cr.follow_probe_attempted_at IS NULL OR cr.follow_probe_attempted_at < now() - make_interval(secs => $1)) "@, 87)) by {
        reveal_strlit("SELECT ku.discord_id FROM channel_relations cr JOIN kick_users ku USING (kick_user_id) WHERE cr.follow_probed_at IS NULL AND (cr.follow_probe_attempted_at IS NULL OR cr.follow_probe_attempted_at < now() - make_interval(secs => $1)) AND NOT EXISTS ( SELECT 1 FROM jobs j WHERE j.kind = 'follow_probe' AND j.status IN ('pending', 'in_progress') AND j.payload->>'discord_id' = ku.discord_id ) GROUP BY ku.discord_id ORDER BY min(cr.follow_probe_attempted_at) NULLS FIRST LIMIT $2");
        reveal_strlit("WHERE cr.follow_probed_at IS NULL AND (cr.follow_probe_attempted_at IS NULL OR cr.follow_probe_attempted_at < now() - make_interval(secs => $1)) ");
        assert(UNPROBED@.subrange(87, 232) =~= "WHERE cr.follow_probed_at IS NULL AND (cr.follow_probe_attempted_at IS NULL OR cr.follow_probe_attempted_at < now() - make_interval(secs => $1)) "@);
    }
    assert(occurs_at(UNPROBED@, "GROUP BY ku.discord_id ORDER BY min(cr.follow_probe_attempted_at) NULLS FIRST LIMIT $2"@, 390)) by {
        reveal_strlit("SELECT ku.discord_id FROM channel_relations cr JOIN kick_users ku USING (kick_user_id) WHERE cr.follow_probed_at IS NULL AND (cr.follow_probe_attempted_at IS NULL OR cr.follow_probe_attempted_at < now() - make_interval(secs => $1)) AND NOT EXISTS ( SELECT 1 FROM jobs j WHERE j.kind = 'follow_probe' AND j.status IN ('pending', 'in_progress') AND j.payload->>'discord_id' = ku.discord_id ) GROUP BY ku.discord_id ORDER BY min(cr.follow_probe_attempted_at) NULLS FIRST LIMIT $2");
        reveal_strlit("GROUP BY ku.discord_id ORDER BY min(cr.follow_probe_attempted_at) NULLS FIRST LIMIT $2");
        assert(UNPROBED@.subrange(390, 476) =~= "GROUP BY ku.discord_id ORDER BY min(cr.follow_probe_attempted_at) NULLS FIRST LIMIT $2"@);
    }
    assert(occurs_at(UNPROBED@, "AND NOT EXISTS ( SELECT 1 FROM jobs j WHERE j.kind = 'follow_probe' AND j.status IN ('pending', 'in_progress') AND j.payload->>'discord_id' = ku.discord_id ) "@, 232)) by {
        reveal_strlit("SELECT ku.discord_id FROM channel_relations cr JOIN kick_users ku USING (kick_user_id) WHERE cr.follow_probed_at IS NULL AND (cr.follow_probe_attempted_at IS NULL OR cr.follow_probe_attempted_at < now() - make_interval(secs => $1)) AND NOT EXISTS ( SELECT 1 FROM jobs j WHERE j.kind = 'follow_probe' AND j.status IN ('pending', 'in_progress') AND j.payload->>'discord_id' = ku.discord_id ) GROUP BY ku.discord_id ORDER BY min(cr.follow_probe_attempted_at) NULLS FIRST LIMIT $2");
        reveal_strlit("AND NOT EXISTS ( SELECT 1 FROM jobs j WHERE j.kind = 'follow_probe' AND j.status IN ('pending', 'in_progress') AND j.payload->>'discord_id' = ku.discord_id ) ");
        assert(UNPROBED@.subrange(232, 390) =~= "AND NOT EXISTS ( SELECT 1 FROM jobs j WHERE j.kind = 'follow_probe' AND j.status IN ('pending', 'in_progress') AND j.payload->>'discord_id' = ku.discord_id ) "@);
    }
}

/// Channels are looked for by when they were last looked at, a member's by the member's own relations
/// and a guild's by the guild's own channels; states go by when they end, and deliveries by when they
/// came.
#[verifier::spinoff_prover]
#[verifier::rlimit(100)]
pub proof fn law_channels_and_leavings_are_picked_by_name()
    ensures
        MEMBER_CHANNELS@.len() == 417,
        GUILD_CHANNELS@.len() == 410,
        FORGET_STATES@.len() == 54,
        FORGET_DELIVERIES@.len() == 78,
        contains_text(MEMBER_CHANNELS@, "SELECT DISTINCT cr.kick_channel_id FROM channel_relations cr "@),
        contains_text(MEMBER_CHANNELS@, "JOIN broadcasters b ON b.kick_channel_id = cr.kick_channel_id "@),
        contains_text(MEMBER_CHANNELS@, "WHERE cr.kick_user_id = $1 "@),
        contains_text(MEMBER_CHANNELS@, "AND (b.last_synced_at IS NULL OR b.last_synced_at < now() - make_interval(secs => $2)) "@),
        contains_text(MEMBER_CHANNELS@, "AND NOT EXISTS ( SELECT 1 FROM jobs j WHERE j.kind = 'channel_refresh' AND j.status IN ('pending', 'in_progress') AND (j.payload->>'kick_channel_id')::bigint = cr.kick_channel_id )"@),
        contains_text(GUILD_CHANNELS@, "SELECT gb.kick_channel_id FROM guild_broadcasters gb "@),
        contains_text(GUILD_CHANNELS@, "JOIN broadcasters b ON b.kick_channel_id = gb.kick_channel_id "@),
        contains_text(GUILD_CHANNELS@, "WHERE gb.guild_id = ANY($1) "@),
        contains_text(GUILD_CHANNELS@, "AND (b.last_synced_at IS NULL OR b.last_synced_at < now() - make_interval(secs => $2)) "@),
        contains_text(GUILD_CHANNELS@, "AND NOT EXISTS ( SELECT 1 FROM jobs j WHERE j.kind = 'channel_refresh' AND j.status IN ('pending', 'in_progress') AND (j.payload->>'kick_channel_id')::bigint = gb.kick_channel_id )"@),
        contains_text(FORGET_STATES@, "DELETE FROM kick_oauth_states "@),
        contains_text(FORGET_STATES@, "WHERE expires_at < now()"@),
        contains_text(FORGET_DELIVERIES@, "DELETE FROM webhook_deliveries "@),
        contains_text(FORGET_DELIVERIES@, "WHERE received_at < now() - interval '24 hours'"@),
{
    assert(MEMBER_CHANNELS@.len() == 417) by {
        reveal_strlit("SELECT DISTINCT cr.kick_channel_id FROM channel_relations cr JOIN broadcasters b ON b.kick_channel_id = cr.kick_channel_id WHERE cr.kick_user_id = $1 AND (b.last_synced_at IS NULL OR b.last_synced_at < now() - make_interval(secs => $2)) AND NOT EXISTS ( SELECT 1 FROM jobs j WHERE j.kind = 'channel_refresh' AND j.status IN ('pending', 'in_progress') AND (j.payload->>'kick_channel_id')::bigint = cr.kick_channel_id )");
    }
    assert(GUILD_CHANNELS@.len() == 410) by {
        reveal_strlit("SELECT gb.kick_channel_id FROM guild_broadcasters gb JOIN broadcasters b ON b.kick_channel_id = gb.kick_channel_id WHERE gb.guild_id = ANY($1) AND (b.last_synced_at IS NULL OR b.last_synced_at < now() - make_interval(secs => $2)) AND NOT EXISTS ( SELECT 1 FROM jobs j WHERE j.kind = 'channel_refresh' AND j.status IN ('pending', 'in_progress') AND (j.payload->>'kick_channel_id')::bigint = gb.kick_channel_id )");
    }
    assert(FORGET_STATES@.len() == 54) by {
        reveal_strlit("DELETE FROM kick_oauth_states WHERE expires_at < now()");
    }
    assert(FORGET_DELIVERIES@.len() == 78) by {
        reveal_strlit("DELETE FROM webhook_deliveries WHERE received_at < now() - interval '24 hours'");
    }
    assert(occurs_at(MEMBER_CHANNELS@, "SELECT DISTINCT cr.kick_channel_id FROM channel_relations cr "@, 0)) by {
        reveal_strlit("SELECT DISTINCT cr.kick_channel_id FROM channel_relations cr JOIN broadcasters b ON b.kick_channel_id = cr.kick_channel_id WHERE cr.kick_user_id = $1 AND (b.last_synced_at IS NULL OR b.last_synced_at < now() - make_interval(secs => $2)) AND NOT EXISTS ( SELECT 1 FROM jobs j WHERE j.kind = 'channel_refresh' AND j.status IN ('pending', 'in_progress') AND (j.payload->>'kick_channel_id')::bigint = cr.kick_channel_id )");
        reveal_strlit("SELECT DISTINCT cr.kick_channel_id FROM channel_relations cr ");
        assert(MEMBER_CHANNELS@.subrange(0, 61) =~= "SELECT DISTINCT cr.kick_channel_id FROM channel_relations cr "@);
    }
    assert(occurs_at(MEMBER_CHANNELS@, "JOIN broadcasters b ON b.kick_channel_id = cr.kick_channel_id "@, 61)) by {
        reveal_strlit("SELECT DISTINCT cr.kick_channel_id FROM channel_relations cr JOIN broadcasters b ON b.kick_channel_id = cr.kick_channel_id WHERE cr.kick_user_id = $1 AND (b.last_synced_at IS NULL OR b.last_synced_at < now() - make_interval(secs => $2)) AND NOT EXISTS ( SELECT 1 FROM jobs j WHERE j.kind = 'channel_refresh' AND j.status IN ('pending', 'in_progress') AND (j.payload->>'kick_channel_id')::bigint = cr.kick_channel_id )");
        reveal_strlit("JOIN broadcasters b ON b.kick_channel_id = cr.kick_channel_id ");
        assert(MEMBER_CHANNELS@.subrange(61, 123) =~= "JOIN broadcasters b ON b.kick_channel_id = cr.kick_channel_id "@);
    }
    assert(occurs_at(MEMBER_CHANNELS@, "WHERE cr.kick_user_id = $1 "@, 123)) by {
        reveal_strlit("SELECT DISTINCT cr.kick_channel_id FROM channel_relations cr JOIN broadcasters b ON b.kick_channel_id = cr.kick_channel_id WHERE cr.kick_user_id = $1 AND (b.last_synced_at IS NULL OR b.last_synced_at < now() - make_interval(secs => $2)) AND NOT EXISTS ( SELECT 1 FROM jobs j WHERE j.kind = 'channel_refresh' AND j.status IN ('pending', 'in_progress') AND (j.payload->>'kick_channel_id')::bigint = cr.kick_channel_id )");
        reveal_strlit("WHERE cr.kick_user_id = $1 ");
        assert(MEMBER_CHANNELS@.subrange(123, 150) =~= "WHERE cr.kick_user_id = $1 "@);
    }
    assert(occurs_at(MEMBER_CHANNELS@, "AND (b.last_synced_at IS NULL OR b.last_synced_at < now() - make_interval(secs => $2)) "@, 150)) by {
        reveal_strlit("SELECT DISTINCT cr.kick_channel_id FROM channel_relations cr JOIN broadcasters b ON b.kick_channel_id = cr.kick_channel_id WHERE cr.kick_user_id = $1 AND (b.last_synced_at IS NULL OR b.last_synced_at < now() - make_interval(secs => $2)) AND NOT EXISTS ( SELECT 1 FROM jobs j WHERE j.kind = 'channel_refresh' AND j.status IN ('pending', 'in_progress') AND (j.payload->>'kick_channel_id')::bigint = cr.kick_channel_id )");
        reveal_strlit("AND (b.last_synced_at IS NULL OR b.last_synced_at < now() - make_interval(secs => $2)) ");
        assert(MEMBER_CHANNELS@.subrange(150, 237) =~= "AND (b.last_synced_at IS NULL OR b.last_synced_at < now() - make_interval(secs => $2)) "@);
    }
    assert(occurs_at(MEMBER_CHANNELS@, "AND NOT EXISTS ( SELECT 1 FROM jobs j WHERE j.kind = 'channel_refresh' AND j.status IN ('pending', 'in_progress') AND (j.payload->>'kick_channel_id')::bigint = cr.kick_channel_id )"@, 237)) by {
        reveal_strlit("SELECT DISTINCT cr.kick_channel_id FROM channel_relations cr JOIN broadcasters b ON b.kick_channel_id = cr.kick_channel_id WHERE cr.kick_user_id = $1 AND (b.last_synced_at IS NULL OR b.last_synced_at < now() - make_interval(secs => $2)) AND NOT EXISTS ( SELECT 1 FROM jobs j WHERE j.kind = 'channel_refresh' AND j.status IN ('pending', 'in_progress') AND (j.payload->>'kick_channel_id')::bigint = cr.kick_channel_id )");
        reveal_strlit("AND NOT EXISTS ( SELECT 1 FROM jobs j WHERE j.kind = 'channel_refresh' AND j.status IN ('pending', 'in_progress') AND (j.payload->>'kick_channel_id')::bigint = cr.kick_channel_id )");
        assert(MEMBER_CHANNELS@.subrange(237, 417) =~= "AND NOT EXISTS ( SELECT 1 FROM jobs j WHERE j.kind = 'channel_refresh' AND j.status IN ('pending', 'in_progress') AND (j.payload->>'kick_channel_id')::bigint = cr.kick_channel_id )"@);
    }
    assert(occurs_at(GUILD_CHANNELS@, "SELECT gb.kick_channel_id FROM guild_broadcasters gb "@, 0)) by {
        reveal_strlit("SELECT gb.kick_channel_id FROM guild_broadcasters gb JOIN broadcasters b ON b.kick_channel_id = gb.kick_channel_id WHERE gb.guild_id = ANY($1) AND (b.last_synced_at IS NULL OR b.last_synced_at < now() - make_interval(secs => $2)) AND NOT EXISTS ( SELECT 1 FROM jobs j WHERE j.kind = 'channel_refresh' AND j.status IN ('pending', 'in_progress') AND (j.payload->>'kick_channel_id')::bigint = gb.kick_channel_id )");
        reveal_strlit("SELECT gb.kick_channel_id FROM guild_broadcasters gb ");
        assert(GUILD_CHANNELS@.subrange(0, 53) =~= "SELECT gb.kick_channel_id FROM guild_broadcasters gb "@);
    }
    assert(occurs_at(GUILD_CHANNELS@, "JOIN broadcasters b ON b.kick_channel_id = gb.kick_channel_id "@, 53)) by {
        reveal_strlit("SELECT gb.kick_channel_id FROM guild_broadcasters gb JOIN broadcasters b ON b.kick_channel_id = gb.kick_channel_id WHERE gb.guild_id = ANY($1) AND (b.last_synced_at IS NULL OR b.last_synced_at < now() - make_interval(secs => $2)) AND NOT EXISTS ( SELECT 1 FROM jobs j WHERE j.kind = 'channel_refresh' AND j.status IN ('pending', 'in_progress') AND (j.payload->>'kick_channel_id')::bigint = gb.kick_channel_id )");
        reveal_strlit("JOIN broadcasters b ON b.kick_channel_id = gb.kick_channel_id ");
        assert(GUILD_CHANNELS@.subrange(53, 115) =~= "JOIN broadcasters b ON b.kick_channel_id = gb.kick_channel_id "@);
    }
    assert(occurs_at(GUILD_CHANNELS@, "WHERE gb.guild_id = ANY($1) "@, 115)) by {
        reveal_strlit("SELECT gb.kick_channel_id FROM guild_broadcasters gb JOIN broadcasters b ON b.kick_channel_id = gb.kick_channel_id WHERE gb.guild_id = ANY($1) AND (b.last_synced_at IS NULL OR b.last_synced_at < now() - make_interval(secs => $2)) AND NOT EXISTS ( SELECT 1 FROM jobs j WHERE j.kind = 'channel_refresh' AND j.status IN ('pending', 'in_progress') AND (j.payload->>'kick_channel_id')::bigint = gb.kick_channel_id )");
        reveal_strlit("WHERE gb.guild_id = ANY($1) ");
        assert(GUILD_CHANNELS@.subrange(115, 143) =~= "WHERE gb.guild_id = ANY($1) "@);
    }
    assert(occurs_at(GUILD_CHANNELS@, "AND (b.last_synced_at IS NULL OR b.last_synced_at < now() - make_interval(secs => $2)) "@, 143)) by {
        reveal_strlit("SELECT gb.kick_channel_id FROM guild_broadcasters gb JOIN broadcasters b ON b.kick_channel_id = gb.kick_channel_id WHERE gb.guild_id = ANY($1) AND (b.last_synced_at IS NULL OR b.last_synced_at < now() - make_interval(secs => $2)) AND NOT EXISTS ( SELECT 1 FROM jobs j WHERE j.kind = 'channel_refresh' AND j.status IN ('pending', 'in_progress') AND (j.payload->>'kick_channel_id')::bigint = gb.kick_channel_id )");
        reveal_strlit("AND (b.last_synced_at IS NULL OR b.last_synced_at < now() - make_interval(secs => $2)) ");
        assert(GUILD_CHANNELS@.subrange(143, 230) =~= "AND (b.last_synced_at IS NULL OR b.last_synced_at < now() - make_interval(secs => $2)) "@);
    }
    assert(occurs_at(GUILD_CHANNELS@, "AND NOT EXISTS ( SELECT 1 FROM jobs j WHERE j.kind = 'channel_refresh' AND j.status IN ('pending', 'in_progress') AND (j.payload->>'kick_channel_id')::bigint = gb.kick_channel_id )"@, 230)) by {
        reveal_strlit("SELECT gb.kick_channel_id FROM guild_broadcasters gb JOIN broadcasters b ON b.kick_channel_id = gb.kick_channel_id WHERE gb.guild_id = ANY($1) AND (b.last_synced_at IS NULL OR b.last_synced_at < now() - make_interval(secs => $2)) AND NOT EXISTS ( SELECT 1 FROM jobs j WHERE j.kind = 'channel_refresh' AND j.status IN ('pending', 'in_progress') AND (j.payload->>'kick_channel_id')::bigint = gb.kick_channel_id )");
        reveal_strlit("AND NOT EXISTS ( SELECT 1 FROM jobs j WHERE j.kind = 'channel_refresh' AND j.status IN ('pending', 'in_progress') AND (j.payload->>'kick_channel_id')::bigint = gb.kick_channel_id )");
        assert(GUILD_CHANNELS@.subrange(230, 410) =~= "AND NOT EXISTS ( SELECT 1 FROM jobs j WHERE j.kind = 'channel_refresh' AND j.status IN ('pending', 'in_progress') AND (j.payload->>'kick_channel_id')::bigint = gb.kick_channel_id )"@);
    }
    assert(occurs_at(FORGET_STATES@, "DELETE FROM kick_oauth_states "@, 0)) by {
        reveal_strlit("DELETE FROM kick_oauth_states WHERE expires_at < now()");
        reveal_strlit("DELETE FROM kick_oauth_states ");
        assert(FORGET_STATES@.subrange(0, 30) =~= "DELETE FROM kick_oauth_states "@);
    }
    assert(occurs_at(FORGET_STATES@, "WHERE expires_at < now()"@, 30)) by {
        reveal_strlit("DELETE FROM kick_oauth_states WHERE expires_at < now()");
        reveal_strlit("WHERE expires_at < now()");
        assert(FORGET_STATES@.subrange(30, 54) =~= "WHERE expires_at < now()"@);
    }
    assert(occurs_at(FORGET_DELIVERIES@, "DELETE FROM webhook_deliveries "@, 0)) by {
        reveal_strlit("DELETE FROM webhook_deliveries WHERE received_at < now() - interval '24 hours'");
        reveal_strlit("DELETE FROM webhook_deliveries ");
        assert(FORGET_DELIVERIES@.subrange(0, 31) =~= "DELETE FROM webhook_deliveries "@);
    }
    assert(occurs_at(FORGET_DELIVERIES@, "WHERE received_at < now() - interval '24 hours'"@, 31)) by {
        reveal_strlit("DELETE FROM webhook_deliveries WHERE received_at < now() - interval '24 hours'");
        reveal_strlit("WHERE received_at < now() - interval '24 hours'");
        assert(FORGET_DELIVERIES@.subrange(31, 78) =~= "WHERE received_at < now() - interval '24 hours'"@);
    }
}

/// A follow is stale three days after it was last read, and a row that was never read is due a day
/// after it was last tried.
pub proof fn law_follows_are_stale_after_three_days(row: Relation, now: Timestamp)
    ensures
        is_stale(row, now) <==> row.is_follower && (row.follow_probed_at matches Some(t) ==> {
            ||| t.secs + 3 * 86_400 < now.secs
            ||| t.secs + 3 * 86_400 == now.secs && t.nanos < now.nanos
        }),
        is_unprobed(row, now) <==> row.follow_probed_at is None && (row.follow_probe_attempted_at matches Some(t) ==> {
            ||| t.secs + 86_400 < now.secs
            ||| t.secs + 86_400 == now.secs && t.nanos < now.nanos
        }),
        RECHECK_AFTER_SECS == 3 * 86_400,
        BACKFILL_RETRY_AFTER_SECS == 86_400,
        REFRESH_COOLDOWN_SECS == 5 * 60,
        DELIVERY_SECONDS == 24 * 3600,
        GRACE_SECONDS == 2 * 86_400,
        VIEWERS_PER_ROUND == 500,
{
}

/// A subscription ends two days after its end was due: the viewer is then no subscriber and has no
/// months in a row, and the row is otherwise as it was. One that has no end, or is not there, does
/// not end.
pub proof fn law_a_subscription_ends_two_days_late(row: Relation, now: Timestamp)
    ensures
        ({
            let over = row.is_subscriber && row.sub_expires_at is Some && {
                ||| row.sub_expires_at->0.secs + 2 * 86_400 < now.secs
                ||| row.sub_expires_at->0.secs + 2 * 86_400 == now.secs && row.sub_expires_at->0.nanos < now.nanos
            };
            &&& over ==> expired(row, now) == (Relation {
                is_subscriber: false,
                sub_streak_months: 0,
                last_synced_at: Some(now),
                ..row
            })
            &&& !over ==> expired(row, now) == row
        }),
{
}

/// The rounds have a client where both credentials are configured, and it is of those.
pub proof fn law_rounds_need_both_credentials(kick: KickConfig, r: Option<KickClient>)
    requires
        call_ensures(build_client, (&kick,), r),
    ensures
        r is Some <==> kick.client_id is Some && kick.client_secret is Some,
        r is Some ==> r->0.id() == kick.client_id->0@ && r->0.secret() == kick.client_secret->0@,
{
}

} // verus!
