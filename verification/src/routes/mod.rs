pub mod answer_laws;
pub mod api_docs;
pub mod api_keys;
pub mod api_laws;
pub mod api_v1;
pub mod delivery;
pub mod event_effects;
pub mod event_laws;
pub mod health;
pub mod message_laws;
pub mod oauth;
pub mod sign_in;
pub mod sign_in_laws;
pub mod users;
pub mod verify;
pub mod webhooks;
