//! Process management: the blocks exchanged with the process server, its
//! messages, and the state of the current process.
pub mod kvblock;
pub mod messages;
pub mod plblock;
pub mod symblock;
pub mod client;
pub mod env;
pub mod api;
pub mod server;

use vstd::prelude::*;

verus! {

/// Process startup information.
pub struct StartupInfo {
    /// Name of the process
    pub name: String,

    /// Environment variables of the process
    pub env: kvblock::KVBlock,

    /// Arguments of the process
    pub args: kvblock::KVBlock,

    /// Symbol information for the process, used for debugging.
    pub symbols: symblock::SymBlock,
}

} // verus!
