//! Network devices: the messages of their servers and the buffer descriptors.
pub mod descriptors;
pub mod messages;
pub mod client;
pub mod server;
pub mod ipc_server;
