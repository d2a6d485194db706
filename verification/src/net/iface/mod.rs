//! The network server interface.
pub mod messages;
pub mod client;
pub mod routes_block;
pub mod server;
