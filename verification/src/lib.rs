//! Orchestration of file-serving instances: each instance serves a named
//! bundle of local directories over HTTP, and instances are started, listed
//! and stopped by network name and identifier.

pub mod discovery;
pub mod errors;
pub mod ids;
pub mod lifecycle;
pub mod registry;
pub mod server_client;
pub mod server_host;
pub mod types;
