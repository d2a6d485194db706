pub mod duration;
pub mod messages;
pub mod client;
pub mod server;
