pub mod config;
pub mod crypto;
pub mod error;
pub mod json;
pub mod models;
pub mod routes;
pub mod services;
pub mod sql;
pub mod tasks;
pub mod text;
pub mod time;
pub mod url;
pub mod view_laws;
