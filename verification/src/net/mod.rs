//! Networking: the shared types, the network device interface and the
//! network server interface.
pub mod types;
pub mod dev;
pub mod iface;
