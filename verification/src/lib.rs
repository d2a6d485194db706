//! Verified core of the runtime library: the wire formats of the IPC
//! blocks and messages, the bit-packed network descriptors, and the
//! clients and server handlers of the system services.
#![allow(unused_imports)]
#![allow(dead_code)]

pub mod layout;
pub mod record_block;
pub mod text;
pub mod kobject;
pub mod process;
pub mod ipc;
pub mod net;
pub mod vfs;
pub mod state;
pub mod time;
pub mod service;

