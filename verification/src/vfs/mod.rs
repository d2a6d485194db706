//! The virtual file system: its types, the messages of the VFS server and of
//! the file system servers, and the blocks they exchange.
pub mod types;
pub mod messages;
pub mod fs_messages;
pub mod fs;
pub mod mounts_block;
pub mod dentries_block;
pub mod client;
pub mod api;
pub mod server;
