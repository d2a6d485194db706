//! Types shared by the VFS interfaces.
use vstd::prelude::*;

verus! {

/// Permissions of a node (and of memory mappings).
#[derive(Debug, Clone, Copy, PartialEq, Eq, Structural)]
pub struct Permissions {
    pub bits: u64,
}

impl Permissions {
    /// No access.
    pub fn none() -> (r: Permissions)
        ensures
            r.bits == 0,
    {
        Permissions { bits: 0 }
    }
    /// Read access.
    pub fn read() -> (r: Permissions)
        ensures
            r.bits == 1,
    {
        Permissions { bits: 1 }
    }
    /// Write access.
    pub fn write() -> (r: Permissions)
        ensures
            r.bits == 2,
    {
        Permissions { bits: 2 }
    }
    /// Execute access.
    pub fn execute() -> (r: Permissions)
        ensures
            r.bits == 4,
    {
        Permissions { bits: 4 }
    }
}

/// Metadata of a Node in the filesystem, used in the Stat messages.
#[derive(Debug, Clone, Copy)]
pub struct Metadata {
    /// Type of the node (file, directory, or symlink).
    pub node_type: NodeType,

    /// Permissions of the node.
    ///
    /// For symlink, the permissions are ignored and should be set to 0.
    pub permissions: Permissions,

    /// For files, the size of the file in bytes.
    ///
    /// For directories and symlinks, this field is ignored and should be set to 0.
    pub size: usize,

    /// Creation time of the node, in milliseconds since the Unix epoch.
    pub created: u64,

    /// Last modification time of the node, in milliseconds since the Unix epoch.
    pub modified: u64,
}

/// Types of nodes in the filesystem.
#[derive(Debug, Clone, Copy, PartialEq, Eq, Structural)]
pub enum NodeType {
    /// A regular file.
    File,

    /// A directory.
    Directory,

    /// A symbolic link.
    Symlink,
}

impl NodeType {
    /// The byte that stands for the node type on the wire.
    pub open spec fn spec_code(self) -> u8 {
        match self {
            NodeType::File => 1,
            NodeType::Directory => 2,
            NodeType::Symlink => 3,
        }
    }

    /// The byte that stands for the node type on the wire.
    pub fn code(self) -> (r: u8)
        ensures
            r == self.spec_code(),
    {
        match self {
            NodeType::File => 1,
            NodeType::Directory => 2,
            NodeType::Symlink => 3,
        }
    }

    /// The node type of a wire byte, if it stands for one.
    pub open spec fn spec_from_code(code: u8) -> Option<NodeType> {
        if code == 1 {
            Some(NodeType::File)
        } else if code == 2 {
            Some(NodeType::Directory)
        } else if code == 3 {
            Some(NodeType::Symlink)
        } else {
            None
        }
    }

    /// The node type of a wire byte, if it stands for one.
    pub fn from_code(code: u8) -> (r: Option<NodeType>)
        ensures
            r == Self::spec_from_code(code),
    {
        if code == 1 {
            Some(NodeType::File)
        } else if code == 2 {
            Some(NodeType::Directory)
        } else if code == 3 {
            Some(NodeType::Symlink)
        } else {
            None
        }
    }
}

/// How to open a node.
#[derive(Debug, Clone, Copy, PartialEq, Eq, Structural)]
pub enum OpenMode {
    /// Open the file or directory if it exists, otherwise return an error.
    OpenExisting,

    /// Open the file or directory if it exists, otherwise create it.
    OpenAlways,

    /// Create a new file or directory, returning an error if it already exists.
    CreateNew,

    /// Create a new file or directory, overwriting it if it already exists.
    CreateAlways,
}

/// Possible handle permissions
#[derive(PartialEq, Eq, Hash, Debug, Clone, Copy, Structural)]
pub struct HandlePermissions {
    pub bits: u64,
}

impl HandlePermissions {
    /// No access
    pub fn none() -> (r: HandlePermissions)
        ensures
            r.bits == 0,
    {
        HandlePermissions { bits: 0 }
    }

    /// Node can be read
    pub fn read() -> (r: HandlePermissions)
        ensures
            r.bits == 1,
    {
        HandlePermissions { bits: 1 }
    }

    /// Node can be written
    pub fn write() -> (r: HandlePermissions)
        ensures
            r.bits == 2,
    {
        HandlePermissions { bits: 2 }
    }

    /// The permissions of both sets.
    pub fn union(self, other: HandlePermissions) -> (r: HandlePermissions)
        ensures
            r.bits == self.bits | other.bits,
    {
        HandlePermissions { bits: self.bits | other.bits }
    }

    /// Whether every permission of `other` is in this set.
    pub fn contains(self, other: HandlePermissions) -> (r: bool)
        ensures
            r == (self.bits & other.bits == other.bits),
    {
        self.bits & other.bits == other.bits
    }
}

/// A unique identifier for a node in the filesystem.
#[derive(Debug, Clone, Copy, PartialEq, Eq, Hash, Structural)]
pub struct NodeId(pub u64);

impl From<u64> for NodeId {
    fn from(value: u64) -> (r: Self) {
        NodeId(value)
    }
}

impl vstd::std_specs::convert::FromSpecImpl<u64> for NodeId {
    open spec fn obeys_from_spec() -> bool {
        true
    }

    open spec fn from_spec(value: u64) -> NodeId {
        NodeId(value)
    }
}

} // verus!
