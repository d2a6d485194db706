//! Messages of the state server.
use vstd::prelude::*;
use crate::ipc::Buffer;
use crate::layout::PAGE_SIZE;

verus! {
/// Name of the IPC port for the state server.
pub const PORT_NAME: &'static str = "state-server";

/// Version of the state management messages.
pub const VERSION: u16 = 1;

/// Size of the state value.
pub const STATE_SIZE: usize = PAGE_SIZE;

/// Types of messages used in state management.
#[derive(Debug, Clone, Copy, PartialEq, Eq, Structural)]
pub enum Type {
    GetState,
}

/// Errors used by the state server.
#[derive(Debug, Clone, Copy, PartialEq, Eq, Structural)]
pub enum StateServerError {
    InvalidArgument,
    RuntimeError,
}


/// Parameters for the GetState message.
#[derive(Debug, Clone, Copy)]
pub struct GetStateQueryParameters {
    pub name: Buffer,
}

impl GetStateQueryParameters {
    pub const HANDLE_NAME_MOBJ: usize = 1;
}

/// Reply for the GetState message.
#[derive(Debug, Clone, Copy)]
pub struct GetStateReply {}

impl GetStateReply {
    pub const HANDLE_VALUE_MOBJ: usize = 0;
}

impl From<Type> for u16 {
    fn from(value: Type) -> (r: u16) {
        match value {
            Type::GetState => 1,
        }
    }
}

impl vstd::std_specs::convert::FromSpecImpl<Type> for u16 {
    open spec fn obeys_from_spec() -> bool {
        true
    }

    open spec fn from_spec(value: Type) -> u16 {
        match value {
            Type::GetState => 1,
        }
    }
}

} // verus!
