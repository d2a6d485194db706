//! Messages of the file system servers, first revision.
use vstd::prelude::*;
use crate::ipc::{Buffer, Handle};
use crate::vfs::types::{Metadata, NodeType, Permissions};

verus! {
/// Version of the fs management messages.
pub const VERSION: u16 = 1;

/// Types of messages used in fs management.
#[derive(Debug, Clone, Copy, PartialEq, Eq, Structural)]
pub enum Type {
    Lookup,
    Create,
    Remove,
    Move,
    GetMetadata,
    SetMetadata,

    Open,
    Read,
    Write,
    Close,

    OpenDir,
    ListDir,
    CloseDir,

    CreateSymlink,
    ReadSymlink,

    Mount,
    Unmount,
}


/// Errors used by the fs server.
#[derive(Debug, Clone, Copy, PartialEq, Eq, Structural)]
pub enum FsServerError {
    InvalidArgument,
    RuntimeError,
    BufferTooSmall,
}


/// Parameters for the Lookup message.
#[derive(Debug, Clone, Copy)]
pub struct LookupQueryParameters {
    /// The parent directory of the node to lookup.
    pub parent: NodeId,

    /// The name of the node to lookup.
    pub name: Buffer,
}

/// Reply of the Lookup message.
#[derive(Debug, Clone, Copy)]
pub struct LookupResult {
    /// The id of the node found by the lookup.
    pub node_id: NodeId,
}

/// Parameters for the Create message.
#[derive(Debug, Clone, Copy)]
pub struct CreateQueryParameters {
    /// The parent directory of the node to create.
    pub parent: NodeId,

    /// The name of the node to create.
    pub name: Buffer,

    /// The type of the node to create (file or directory).
    pub node_type: NodeType,

    /// Permissions to set to the file or directory.
    pub permissions: Permissions,
}

/// Reply of the Create message.
#[derive(Debug, Clone, Copy)]
pub struct CreateReply {
    /// The id of the node created by the create message.
    pub node_id: NodeId,
}

/// Parameters for the Remove message.
#[derive(Debug, Clone, Copy)]
pub struct RemoveQueryParameters {
    /// The parent directory of the node to remove.
    pub parent: NodeId,

    /// The name of the node to remove.
    pub name: Buffer,
}

/// Reply of the Remove message.
#[derive(Debug, Clone, Copy)]
pub struct RemoveReply {}

/// Parameters for the Move message.
///
/// Note: can only move within the same filesystem.
#[derive(Debug, Clone, Copy)]
pub struct MoveQueryParameters {
    /// The parent directory of the node to move.
    pub parent: NodeId,

    /// The name of the node to move.
    pub name: Buffer,

    /// The new name of the node.
    pub new_name: Buffer,
}

/// Reply of the Move message.
#[derive(Debug, Clone, Copy)]
pub struct MoveReply {}

/// Parameters for the GetMetadata message.
#[derive(Debug, Clone, Copy)]
pub struct GetMetadataQueryParameters {
    /// The id of the node to get metadata of.
    pub node_id: NodeId,
}

/// Reply of the GetMetadata message.
#[derive(Debug, Clone, Copy)]
pub struct GetMetadataReply {
    /// The metadata of the node.
    pub metadata: Metadata,
}

/// Parameters for the SetMetadata message.
#[derive(Debug, Clone, Copy)]
pub struct SetMetadataQueryParameters {
    /// The id of the node to set metadata of.
    pub node_id: NodeId,

    /// The new permissions of the node. If None, the permissions will not be changed.
    pub permissions: Option<Permissions>,

    /// The new size of the node. If None, the size will not be changed.
    pub size: Option<usize>,

    /// The new created time of the node, in milliseconds since the Unix epoch. If None, the created time will not be changed.
    pub created: Option<u64>,

    /// The new modified time of the node, in milliseconds since the Unix epoch. If None, the modified time will not be changed.
    pub modified: Option<u64>,
}

/// Reply of the SetMetadata message.
#[derive(Debug, Clone, Copy)]
pub struct SetMetadataReply {}

/// A unique identifier for a node of a file system.
#[derive(Debug, Clone, Copy, PartialEq, Eq, Structural)]
pub struct NodeId(pub u64);

impl From<Type> for u16 {
    fn from(value: Type) -> (r: u16) {
        match value {
            Type::Lookup => 0,
            Type::Create => 1,
            Type::Remove => 2,
            Type::Move => 3,
            Type::GetMetadata => 4,
            Type::SetMetadata => 5,
            Type::Open => 6,
            Type::Read => 7,
            Type::Write => 8,
            Type::Close => 9,
            Type::OpenDir => 10,
            Type::ListDir => 11,
            Type::CloseDir => 12,
            Type::CreateSymlink => 13,
            Type::ReadSymlink => 14,
            Type::Mount => 15,
            Type::Unmount => 16,
        }
    }
}

impl vstd::std_specs::convert::FromSpecImpl<Type> for u16 {
    open spec fn obeys_from_spec() -> bool {
        true
    }

    open spec fn from_spec(value: Type) -> u16 {
        match value {
            Type::Lookup => 0,
            Type::Create => 1,
            Type::Remove => 2,
            Type::Move => 3,
            Type::GetMetadata => 4,
            Type::SetMetadata => 5,
            Type::Open => 6,
            Type::Read => 7,
            Type::Write => 8,
            Type::Close => 9,
            Type::OpenDir => 10,
            Type::ListDir => 11,
            Type::CloseDir => 12,
            Type::CreateSymlink => 13,
            Type::ReadSymlink => 14,
            Type::Mount => 15,
            Type::Unmount => 16,
        }
    }
}

} // verus!
