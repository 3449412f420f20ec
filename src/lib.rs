//! Verified core of a command-line client for an observability platform's REST API:
//! credential selection, request planning, response classification and table rendering.
pub mod text;
pub mod table;
pub mod timestamp;
pub mod keys;
pub mod errors;
pub mod client;
pub mod output;
pub mod paths;
pub mod records;
pub mod boards;
pub mod api_keys;
pub mod environments;
pub mod auth;
pub mod queries;
