pub mod api_key;
pub mod broadcaster_token;
pub mod card_laws;
pub mod condition_eval;
pub mod follow_queue;
pub mod follow_sync;
pub mod kick;
pub mod kick_laws;
pub mod kick_probe;
pub mod player_sync;
pub mod queue_laws;
pub mod refresh_queue;
pub mod relation;
pub mod role_laws;
pub mod role_sync;
pub mod rule_columns;
pub mod rule_meaning;
pub mod rule_params;
pub mod rule_sql;
pub mod statements;
pub mod sync;
