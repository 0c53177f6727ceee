//! Multi-agent coordination primitives and the request-level rules of the
//! CALIBER API, with their contracts proved.

pub mod ident;
pub mod text;
pub mod agent;
pub mod region;
pub mod lock;
pub mod message;
pub mod delegation;
pub mod handoff;
pub mod conflict;
pub mod lock_manager;
pub mod duration;
pub mod constants;
pub mod config;
pub mod idempotency;
pub mod saga;
pub mod providers;
pub mod error;
pub mod auth;
pub mod component;
pub mod list_filters;
pub mod path_id;
pub mod guard;
pub mod settings;
pub mod db;
pub mod config_load;
pub mod events;
pub mod codes;
pub mod grpc_rules;
pub mod billing;
pub mod routing;
pub mod stored;
