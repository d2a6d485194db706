//! The file system servers.
pub mod messages;
pub mod client;
pub mod server;
