//! Verified core of the spell key-value service: caller authentication,
//! key permissions, the write guard, bounded journals and the store itself.

pub mod auth;
pub mod error;
pub mod error_handling;
pub mod journal;
pub mod kv;
pub mod location;
pub mod log;
pub mod mailbox;
pub mod schema;
pub mod script;
pub mod text;
pub mod trigger_config;
pub mod value;
