//! The high level VFS API: opened files, directories and symlinks, and the
//! operations on paths.
use vstd::prelude::*;
use vstd::string::{StringSliceAdditionalSpecFns, StrSliceExecFns};
use crate::ipc::{self, CallError, KHandle, KHandles, HandleView, Handle, no_handles};
use crate::text::str_eq;
use super::client::{Client, VfsServerCallError};
use super::messages::{
    Type, VfsServerError, OpenQueryParameters, OpenReply, CloseQueryParameters, CloseReply, StatQueryParameters,
    StatReply, SetPermissionsQueryParameters, SetPermissionsReply, ReadQueryParameters, ReadReply,
    WriteQueryParameters, WriteReply, ResizeQueryParameters, ResizeReply, ListQueryParameters, ListReply,
    MoveQueryParameters, MoveReply, RemoveQueryParameters, RemoveReply, CreateSymlinkQueryParameters,
    CreateSymlinkReply, ReadSymlinkQueryParameters, ReadSymlinkReply, MountQueryParameters, MountReply,
    UnmountQueryParameters, UnmountReply, ListMountsQueryParameters, ListMountsReply,
};
use super::types::{HandlePermissions, Metadata, NodeType, OpenMode, Permissions};
use super::dentries_block::{self, DirectoryEntry};
use super::mounts_block::{self, MountInfo};
use vstd::utf8::{valid_utf8, decode_utf8, encode_utf8};

verus! {

/// A handle to a VFS object.
pub struct VfsHandle {
    handle: Handle,
}

/// A Close message for `handle`, with no handles, went out through `call`.
pub open spec fn closed_with<F>(call: F, client: &Client, handle: Handle) -> bool
    where
        F: FnOnce(&ipc::Client, Type, CloseQueryParameters, KHandles) -> (KHandles, Result<(CloseReply, KHandles), VfsServerCallError>),
{
    exists|h: KHandles, out: (KHandles, Result<(CloseReply, KHandles), VfsServerCallError>)| {
        &&& h@ == no_handles()
        &&& #[trigger] call.ensures((&client.ipc(), Type::Close, CloseQueryParameters { handle: handle }, h), out)
    }
}

impl VfsHandle {
    pub closed spec fn spec_value(&self) -> Handle {
        self.handle
    }

    /// Returns the raw handle value for IPC communication.
    pub fn value(&self) -> (r: Handle)
        ensures
            r == self.spec_value(),
    {
        self.handle
    }

    /// Closes the handle on the server, as dropping it does. The server is
    /// expected to accept it.
    pub fn close<F>(self, client: &Client, call: F)
        where
            F: FnOnce(&ipc::Client, Type, CloseQueryParameters, KHandles) -> (KHandles, Result<(CloseReply, KHandles), VfsServerCallError>),
        requires
            forall|h: KHandles| #![trigger h@] h@ == no_handles() ==> call.requires((&client.ipc(), Type::Close, CloseQueryParameters { handle: self.spec_value() }, h)),
            forall|a: (&ipc::Client, Type, CloseQueryParameters, KHandles), out: (KHandles, Result<(CloseReply, KHandles), VfsServerCallError>)|
                #[trigger] call.ensures(a, out) ==> out.1 is Ok,
        ensures
            closed_with(call, client, self.spec_value()),
    {
        let _ = client.close(self.handle, call);
    }
}

impl From<Handle> for VfsHandle {
    fn from(handle: Handle) -> (r: Self) {
        Self { handle }
    }
}

impl vstd::std_specs::convert::FromSpecImpl<Handle> for VfsHandle {
    open spec fn obeys_from_spec() -> bool {
        true
    }

    closed spec fn from_spec(handle: Handle) -> VfsHandle {
        VfsHandle { handle }
    }
}

/// Trait representing a VFS object (file, directory, or symlink).
pub trait VfsObject {
    spec fn spec_handle(&self) -> Handle;

    /// Returns the underlying VFS handle for IPC communication.
    fn handle(&self) -> (r: Handle)
        ensures
            r == self.spec_handle();

    /// The type of node the object is opened on.
    spec fn spec_node_type(&self) -> NodeType;

    /// Returns the type of the VFS object (file, directory, or symlink).
    fn node_type(&self) -> (r: NodeType)
        ensures
            r == self.spec_node_type();

    /// Gets the metadata of the object, including type, permissions, size, and timestamps.
    fn stat<F>(&self, client: &Client, call: F) -> (r: Result<Metadata, VfsServerCallError>)
        where
            F: FnOnce(&ipc::Client, Type, StatQueryParameters, KHandles) -> (KHandles, Result<(StatReply, KHandles), VfsServerCallError>),
        requires
            forall|h: KHandles| #![trigger h@] h@ == no_handles() ==> call.requires((&client.ipc(), Type::Stat, StatQueryParameters { handle: self.spec_handle() }, h)),
        ensures
            exists|h: KHandles, out: (KHandles, Result<(StatReply, KHandles), VfsServerCallError>)| {
                &&& h@ == no_handles()
                &&& #[trigger] call.ensures((&client.ipc(), Type::Stat, StatQueryParameters { handle: self.spec_handle() }, h), out)
                &&& r == match out.1 {
                    Ok(rep) => Ok::<Metadata, VfsServerCallError>(rep.0.metadata),
                    Err(e) => Err::<Metadata, VfsServerCallError>(e),
                }
            },
    {
        client.stat(self.handle(), call)
    }

    /// Sets the permissions of the object.
    fn set_permissions<F>(&self, client: &Client, perms: Permissions, call: F) -> (r: Result<(), VfsServerCallError>)
        where
            F: FnOnce(&ipc::Client, Type, SetPermissionsQueryParameters, KHandles) -> (KHandles, Result<(SetPermissionsReply, KHandles), VfsServerCallError>),
        requires
            forall|h: KHandles| #![trigger h@] h@ == no_handles() ==> call.requires((&client.ipc(), Type::SetPermissions, SetPermissionsQueryParameters { handle: self.spec_handle(), permissions: perms }, h)),
        ensures
            exists|h: KHandles, out: (KHandles, Result<(SetPermissionsReply, KHandles), VfsServerCallError>)| {
                &&& h@ == no_handles()
                &&& #[trigger] call.ensures((&client.ipc(), Type::SetPermissions, SetPermissionsQueryParameters { handle: self.spec_handle(), permissions: perms }, h), out)
                &&& r == match out.1 {
                    Ok(rep) => Ok::<(), VfsServerCallError>(()),
                    Err(e) => Err::<(), VfsServerCallError>(e),
                }
            },
    {
        client.set_permissions(self.handle(), perms, call)
    }
}

/// The position of the last `/` among the first `n` characters of `p`.
pub open spec fn last_slash(p: Seq<char>, n: int) -> Option<int>
    decreases n,
{
    if n <= 0 {
        None
    } else if p[n - 1] == '/' {
        Some(n - 1)
    } else {
        last_slash(p, n - 1)
    }
}

/// The parent and the name of a path: around its last `/`, the parent being
/// `/` when it would be empty; no split when there is no `/` or when the
/// name is empty, `.` or `..`.
pub open spec fn spec_split_path(p: Seq<char>) -> Option<(Seq<char>, Seq<char>)> {
    match last_slash(p, p.len() as int) {
        None => None,
        Some(pos) => {
            let parent = p.take(pos);
            let name = p.skip(pos + 1);
            if name.len() == 0 || name == seq!['.'] || name == seq!['.', '.'] {
                None
            } else {
                Some((if parent.len() == 0 { seq!['/'] } else { parent }, name))
            }
        },
    }
}

/// The position found by `last_slash` holds a `/`, and no later one does.
pub proof fn lemma_last_slash(p: Seq<char>, n: int)
    requires
        n <= p.len(),
    ensures
        last_slash(p, n) matches Some(pos) ==> 0 <= pos < n && p[pos] == '/' && forall|k: int| pos < k < n ==> p[k] != '/',
        last_slash(p, n) is None ==> forall|k: int| 0 <= k < n ==> p[k] != '/',
    decreases n,
{
    if n > 0 {
        lemma_last_slash(p, n - 1);
    }
}

/// A path that splits is its parent, a `/` and its name; only when that
/// parent would be empty (the path is `/` and the name) is the parent given
/// as `/`. The name is not empty and holds no `/`.
pub proof fn lemma_split_path(p: Seq<char>)
    requires
        spec_split_path(p) is Some,
    ensures
        ({
            let (parent, name) = spec_split_path(p).unwrap();
            &&& forall|k: int| 0 <= k < name.len() ==> name[k] != '/'
            &&& name.len() > 0
            &&& parent.len() > 0
            &&& (p == parent + seq!['/'] + name || (parent == seq!['/'] && p == seq!['/'] + name))
        }),
{
    lemma_last_slash(p, p.len() as int);
    let pos = last_slash(p, p.len() as int).unwrap();
    let parent = p.take(pos);
    let name = p.skip(pos + 1);
    if parent.len() != 0 {
        assert(p =~= parent + seq!['/'] + name);
    } else {
        assert(p =~= seq!['/'] + name);
    }
}

/// A parent, a `/` and a name that is not empty, holds no `/` and is not
/// `.` or `..` split back into that parent and name, an empty parent being
/// given as `/`. A path without `/` does not split.
pub proof fn lemma_split_path_of(parent: Seq<char>, name: Seq<char>, other: Seq<char>)
    requires
        name.len() > 0,
        forall|k: int| 0 <= k < name.len() ==> name[k] != '/',
        name != seq!['.'],
        name != seq!['.', '.'],
    ensures
        spec_split_path(parent + seq!['/'] + name) == Some((if parent.len() == 0 { seq!['/'] } else { parent }, name)),
        (forall|k: int| 0 <= k < other.len() ==> other[k] != '/') ==> spec_split_path(other) is None,
{
    let p = parent + seq!['/'] + name;
    let at = parent.len() as int;
    assert(p[at] == '/');
    assert forall|k: int| at < k < p.len() implies p[k] != '/' by {
        assert(p[k] == name[k - at - 1]);
    }
    lemma_last_slash(p, p.len() as int);
    let pos = last_slash(p, p.len() as int).unwrap();
    assert(pos == at);
    assert(p.take(at) =~= parent);
    assert(p.skip(at + 1) =~= name);
    lemma_last_slash(other, other.len() as int);
}

/// Splits a path into its parent and its name.
pub fn split_path(path: &str) -> (r: Result<(&str, &str), VfsServerCallError>)
    ensures
        match spec_split_path(path@) {
            Some((parent, name)) => r matches Ok(pn) && pn.0@ == parent && pn.1@ == name,
            None => r == Err::<(&str, &str), VfsServerCallError>(CallError::ReplyError(VfsServerError::InvalidArgument)),
        },
        r matches Ok(pn) ==> {
            &&& path@ == pn.0@ + seq!['/'] + pn.1@ || (pn.0@ == seq!['/'] && path@ == seq!['/'] + pn.1@)
            &&& pn.1@.len() > 0
            &&& forall|k: int| 0 <= k < pn.1@.len() ==> pn.1@[k] != '/'
        },
{
    proof {
        if spec_split_path(path@) is Some {
            lemma_split_path(path@);
        }
    }
    let n = path.unicode_len();
    let mut i = n;
    let mut found = false;
    while i > 0 && !found
        invariant
            i <= n,
            n == path@.len(),
            last_slash(path@, n as int) == last_slash(path@, i as int),
            found ==> i > 0 && path@[i - 1] == '/',
        decreases i + if found { 0int } else { 1int },
    {
        if path.get_char(i - 1) == '/' {
            found = true;
        } else {
            i = i - 1;
        }
    }
    if i == 0 {
        return Err(CallError::ReplyError(VfsServerError::InvalidArgument));
    }
    let pos = i - 1;
    let mut parent = path.substring_char(0, pos);
    let name = path.substring_char(pos + 1, n);
    let root = "/";
    let dot = ".";
    let dotdot = "..";
    proof {
        reveal_strlit("/");
        reveal_strlit(".");
        reveal_strlit("..");
        assert(path@.take(pos as int) =~= parent@);
        assert(path@.skip(pos + 1) =~= name@);
        assert(last_slash(path@, n as int) == Some(pos as int));
        assert(dot@ =~= seq!['.']);
        assert(dotdot@ =~= seq!['.', '.']);
        assert(root@ =~= seq!['/']);
    }
    if parent.unicode_len() == 0 {
        parent = root;
    }
    if name.unicode_len() == 0 || str_eq(name, dot) || str_eq(name, dotdot) {
        return Err(CallError::ReplyError(VfsServerError::InvalidArgument));
    }
    Ok((parent, name))
}

/// Represents an opened file
pub struct File {
    handle: VfsHandle,
}

/// Represents an opened directory
pub struct Directory {
    handle: VfsHandle,
}

/// Represents an opened symbolic link
pub struct Symlink {
    handle: VfsHandle,
}

impl VfsObject for File {
    closed spec fn spec_handle(&self) -> Handle {
        self.handle.spec_value()
    }

    fn handle(&self) -> (r: Handle) {
        self.handle.value()
    }

    open spec fn spec_node_type(&self) -> NodeType {
        NodeType::File
    }

    fn node_type(&self) -> (r: NodeType)
        ensures
            r == NodeType::File,
    {
        NodeType::File
    }
}

impl VfsObject for Directory {
    closed spec fn spec_handle(&self) -> Handle {
        self.handle.spec_value()
    }

    fn handle(&self) -> (r: Handle) {
        self.handle.value()
    }

    open spec fn spec_node_type(&self) -> NodeType {
        NodeType::Directory
    }

    fn node_type(&self) -> (r: NodeType)
        ensures
            r == NodeType::Directory,
    {
        NodeType::Directory
    }
}

impl VfsObject for Symlink {
    closed spec fn spec_handle(&self) -> Handle {
        self.handle.spec_value()
    }

    fn handle(&self) -> (r: Handle) {
        self.handle.value()
    }

    open spec fn spec_node_type(&self) -> NodeType {
        NodeType::Symlink
    }

    fn node_type(&self) -> (r: NodeType)
        ensures
            r == NodeType::Symlink,
    {
        NodeType::Symlink
    }
}

impl File {
    /// The file opened with `handle`.
    pub closed spec fn spec_from(handle: Handle) -> File {
        File { handle: VfsHandle { handle } }
    }

    /// Opens a file at the given path with the given handle permissions.
    pub fn open<F>(client: &Client, path: &str, perms: HandlePermissions, call: F) -> (r: Result<Self, VfsServerCallError>)
        where
            F: FnOnce(&ipc::Client, Type, OpenQueryParameters, KHandles) -> (KHandles, Result<(OpenReply, KHandles), VfsServerCallError>),
        requires
            forall|h: KHandles| #![trigger h@] h@ == no_handles().update(OpenQueryParameters::HANDLE_PATH_MOBJ as int, HandleView::Memory(path.spec_bytes())) ==> call.requires((&client.ipc(), Type::Open, OpenQueryParameters { path: (ipc::Buffer { offset: 0, len: (path.spec_bytes()).len() as usize }), node_type: Some(NodeType::File), mode: OpenMode::OpenExisting, no_follow: false, permissions: Permissions { bits: 0 }, handle_permissions: perms }, h)),
        ensures
            exists|h: KHandles, out: (KHandles, Result<(OpenReply, KHandles), VfsServerCallError>)| {
                &&& h@ == no_handles().update(OpenQueryParameters::HANDLE_PATH_MOBJ as int, HandleView::Memory(path.spec_bytes()))
                &&& #[trigger] call.ensures((&client.ipc(), Type::Open, OpenQueryParameters { path: (ipc::Buffer { offset: 0, len: (path.spec_bytes()).len() as usize }), node_type: Some(NodeType::File), mode: OpenMode::OpenExisting, no_follow: false, permissions: Permissions { bits: 0 }, handle_permissions: perms }, h), out)
                &&& r == match out.1 {
                    Ok(rep) => Ok::<Self, VfsServerCallError>(File::spec_from(rep.0.handle)),
                    Err(e) => Err::<Self, VfsServerCallError>(e),
                }
            },
    {
        let handle_permissions = perms;
        let permissions = Permissions::none();
        match client.open(path, Some(NodeType::File), OpenMode::OpenExisting, false, permissions, handle_permissions, call) {
            Ok(handle) => Ok(File { handle: VfsHandle::from(handle) }),
            Err(e) => Err(e),
        }
    }

    /// Creates a new file at the given path with the specified permissions.
    pub fn create<F>(client: &Client, path: &str, perms: Permissions, call: F) -> (r: Result<Self, VfsServerCallError>)
        where
            F: FnOnce(&ipc::Client, Type, OpenQueryParameters, KHandles) -> (KHandles, Result<(OpenReply, KHandles), VfsServerCallError>),
        requires
            forall|h: KHandles| #![trigger h@] h@ == no_handles().update(OpenQueryParameters::HANDLE_PATH_MOBJ as int, HandleView::Memory(path.spec_bytes())) ==> call.requires((&client.ipc(), Type::Open, OpenQueryParameters { path: (ipc::Buffer { offset: 0, len: (path.spec_bytes()).len() as usize }), node_type: Some(NodeType::File), mode: OpenMode::CreateNew, no_follow: false, permissions: perms, handle_permissions: HandlePermissions { bits: 3 } }, h)),
        ensures
            exists|h: KHandles, out: (KHandles, Result<(OpenReply, KHandles), VfsServerCallError>)| {
                &&& h@ == no_handles().update(OpenQueryParameters::HANDLE_PATH_MOBJ as int, HandleView::Memory(path.spec_bytes()))
                &&& #[trigger] call.ensures((&client.ipc(), Type::Open, OpenQueryParameters { path: (ipc::Buffer { offset: 0, len: (path.spec_bytes()).len() as usize }), node_type: Some(NodeType::File), mode: OpenMode::CreateNew, no_follow: false, permissions: perms, handle_permissions: HandlePermissions { bits: 3 } }, h), out)
                &&& r == match out.1 {
                    Ok(rep) => Ok::<Self, VfsServerCallError>(File::spec_from(rep.0.handle)),
                    Err(e) => Err::<Self, VfsServerCallError>(e),
                }
            },
    {
        let handle_permissions = HandlePermissions::read().union(HandlePermissions::write());
        let permissions = perms;
        proof {
            assert(1u64 | 2u64 == 3u64) by (bit_vector);
        }
        match client.open(path, Some(NodeType::File), OpenMode::CreateNew, false, permissions, handle_permissions, call) {
            Ok(handle) => Ok(File { handle: VfsHandle::from(handle) }),
            Err(e) => Err(e),
        }
    }

    /// Writes data to the file at the given offset from the provided buffer.
    pub fn write<F>(&self, client: &Client, offset: usize, buffer: &[u8], call: F) -> (r: Result<usize, VfsServerCallError>)
        where
            F: FnOnce(&ipc::Client, Type, WriteQueryParameters, KHandles) -> (KHandles, Result<(WriteReply, KHandles), VfsServerCallError>),
        requires
            forall|h: KHandles| #![trigger h@] h@ == no_handles().update(WriteQueryParameters::HANDLE_BUFFER_MOBJ as int, HandleView::Memory(buffer@)) ==> call.requires((&client.ipc(), Type::Write, WriteQueryParameters { handle: self.spec_handle(), buffer: (ipc::Buffer { offset: 0, len: (buffer@).len() as usize }), offset: offset as u64 }, h)),
        ensures
            exists|h: KHandles, out: (KHandles, Result<(WriteReply, KHandles), VfsServerCallError>)| {
                &&& h@ == no_handles().update(WriteQueryParameters::HANDLE_BUFFER_MOBJ as int, HandleView::Memory(buffer@))
                &&& #[trigger] call.ensures((&client.ipc(), Type::Write, WriteQueryParameters { handle: self.spec_handle(), buffer: (ipc::Buffer { offset: 0, len: (buffer@).len() as usize }), offset: offset as u64 }, h), out)
                &&& r == match out.1 {
                    Ok(rep) => Ok::<usize, VfsServerCallError>(rep.0.bytes_written as usize),
                    Err(e) => Err::<usize, VfsServerCallError>(e),
                }
            },
    {
        match client.write(self.handle.value(), offset as u64, buffer, call) {
            Ok(n) => Ok(n as usize),
            Err(e) => Err(e),
        }
    }

    /// Resizes the file to the new size.
    pub fn resisze<F>(&self, client: &Client, new_size: usize, call: F) -> (r: Result<(), VfsServerCallError>)
        where
            F: FnOnce(&ipc::Client, Type, ResizeQueryParameters, KHandles) -> (KHandles, Result<(ResizeReply, KHandles), VfsServerCallError>),
        requires
            forall|h: KHandles| #![trigger h@] h@ == no_handles() ==> call.requires((&client.ipc(), Type::Resize, ResizeQueryParameters { handle: self.spec_handle(), new_size: new_size as u64 }, h)),
        ensures
            exists|h: KHandles, out: (KHandles, Result<(ResizeReply, KHandles), VfsServerCallError>)| {
                &&& h@ == no_handles()
                &&& #[trigger] call.ensures((&client.ipc(), Type::Resize, ResizeQueryParameters { handle: self.spec_handle(), new_size: new_size as u64 }, h), out)
                &&& r == match out.1 {
                    Ok(rep) => Ok::<(), VfsServerCallError>(()),
                    Err(e) => Err::<(), VfsServerCallError>(e),
                }
            },
    {
        client.resize(self.handle.value(), new_size as u64, call)
    }

    /// Reads data from the file at the given offset into the provided buffer.
    pub fn read<F>(&self, offset: usize, buffer: &mut [u8], client: &Client, call: F) -> (r: Result<usize, VfsServerCallError>)
        where
            F: FnOnce(&ipc::Client, Type, ReadQueryParameters, KHandles) -> (KHandles, Result<(ReadReply, KHandles), VfsServerCallError>),
        requires
            forall|h: KHandles| h@ == no_handles().update(ReadQueryParameters::HANDLE_BUFFER_MOBJ as int, HandleView::Memory(old(buffer)@))
                ==> #[trigger] call.requires((&client.ipc(), Type::Read, ReadQueryParameters { handle: self.spec_handle(), buffer: ipc::Buffer { offset: 0, len: old(buffer)@.len() as usize }, offset: offset as u64 }, h)),
            forall|a: (&ipc::Client, Type, ReadQueryParameters, KHandles), out: (KHandles, Result<(ReadReply, KHandles), VfsServerCallError>)|
                call.ensures(a, out) ==> ipc::keeps_lent_size(a.3@, out.0@, ReadQueryParameters::HANDLE_BUFFER_MOBJ as int),
        ensures
            exists|h: KHandles, out: (KHandles, Result<(ReadReply, KHandles), VfsServerCallError>)| {
                &&& h@ == no_handles().update(ReadQueryParameters::HANDLE_BUFFER_MOBJ as int, HandleView::Memory(old(buffer)@))
                &&& #[trigger] call.ensures((&client.ipc(), Type::Read, ReadQueryParameters { handle: self.spec_handle(), buffer: ipc::Buffer { offset: 0, len: old(buffer)@.len() as usize }, offset: offset as u64 }, h), out)
                &&& out.0@[ReadQueryParameters::HANDLE_BUFFER_MOBJ as int] == HandleView::Memory(final(buffer)@)
                &&& r == match out.1 {
                    Ok(rep) => Ok::<usize, VfsServerCallError>(rep.0.bytes_read as usize),
                    Err(e) => Err::<usize, VfsServerCallError>(e),
                }
            },
    {
        match client.read(self.handle.value(), offset as u64, buffer, call) {
            Ok(n) => Ok(n as usize),
            Err(e) => Err(e),
        }
    }
}

impl Directory {
    /// The directory opened with `handle`.
    pub closed spec fn spec_from(handle: Handle) -> Directory {
        Directory { handle: VfsHandle { handle } }
    }

    /// Opens a directory at the given path.
    pub fn open<F>(client: &Client, path: &str, call: F) -> (r: Result<Self, VfsServerCallError>)
        where
            F: FnOnce(&ipc::Client, Type, OpenQueryParameters, KHandles) -> (KHandles, Result<(OpenReply, KHandles), VfsServerCallError>),
        requires
            forall|h: KHandles| #![trigger h@] h@ == no_handles().update(OpenQueryParameters::HANDLE_PATH_MOBJ as int, HandleView::Memory(path.spec_bytes())) ==> call.requires((&client.ipc(), Type::Open, OpenQueryParameters { path: (ipc::Buffer { offset: 0, len: (path.spec_bytes()).len() as usize }), node_type: Some(NodeType::Directory), mode: OpenMode::OpenExisting, no_follow: false, permissions: Permissions { bits: 0 }, handle_permissions: HandlePermissions { bits: 1 } }, h)),
        ensures
            exists|h: KHandles, out: (KHandles, Result<(OpenReply, KHandles), VfsServerCallError>)| {
                &&& h@ == no_handles().update(OpenQueryParameters::HANDLE_PATH_MOBJ as int, HandleView::Memory(path.spec_bytes()))
                &&& #[trigger] call.ensures((&client.ipc(), Type::Open, OpenQueryParameters { path: (ipc::Buffer { offset: 0, len: (path.spec_bytes()).len() as usize }), node_type: Some(NodeType::Directory), mode: OpenMode::OpenExisting, no_follow: false, permissions: Permissions { bits: 0 }, handle_permissions: HandlePermissions { bits: 1 } }, h), out)
                &&& r == match out.1 {
                    Ok(rep) => Ok::<Self, VfsServerCallError>(Directory::spec_from(rep.0.handle)),
                    Err(e) => Err::<Self, VfsServerCallError>(e),
                }
            },
    {
        let handle_permissions = HandlePermissions::read();
        let permissions = Permissions::none();
        match client.open(path, Some(NodeType::Directory), OpenMode::OpenExisting, false, permissions, handle_permissions, call) {
            Ok(handle) => Ok(Directory { handle: VfsHandle::from(handle) }),
            Err(e) => Err(e),
        }
    }

    /// Creates a new directory at the given path.
    pub fn create<F>(client: &Client, path: &str, perms: Permissions, call: F) -> (r: Result<Self, VfsServerCallError>)
        where
            F: FnOnce(&ipc::Client, Type, OpenQueryParameters, KHandles) -> (KHandles, Result<(OpenReply, KHandles), VfsServerCallError>),
        requires
            forall|h: KHandles| #![trigger h@] h@ == no_handles().update(OpenQueryParameters::HANDLE_PATH_MOBJ as int, HandleView::Memory(path.spec_bytes())) ==> call.requires((&client.ipc(), Type::Open, OpenQueryParameters { path: (ipc::Buffer { offset: 0, len: (path.spec_bytes()).len() as usize }), node_type: Some(NodeType::Directory), mode: OpenMode::CreateNew, no_follow: false, permissions: perms, handle_permissions: HandlePermissions { bits: 1 } }, h)),
        ensures
            exists|h: KHandles, out: (KHandles, Result<(OpenReply, KHandles), VfsServerCallError>)| {
                &&& h@ == no_handles().update(OpenQueryParameters::HANDLE_PATH_MOBJ as int, HandleView::Memory(path.spec_bytes()))
                &&& #[trigger] call.ensures((&client.ipc(), Type::Open, OpenQueryParameters { path: (ipc::Buffer { offset: 0, len: (path.spec_bytes()).len() as usize }), node_type: Some(NodeType::Directory), mode: OpenMode::CreateNew, no_follow: false, permissions: perms, handle_permissions: HandlePermissions { bits: 1 } }, h), out)
                &&& r == match out.1 {
                    Ok(rep) => Ok::<Self, VfsServerCallError>(Directory::spec_from(rep.0.handle)),
                    Err(e) => Err::<Self, VfsServerCallError>(e),
                }
            },
    {
        let handle_permissions = HandlePermissions::read();
        let permissions = perms;
        match client.open(path, Some(NodeType::Directory), OpenMode::CreateNew, false, permissions, handle_permissions, call) {
            Ok(handle) => Ok(Directory { handle: VfsHandle::from(handle) }),
            Err(e) => Err(e),
        }
    }

    /// Remove a file or directory with the given name from this directory.
    pub fn remove<F>(&self, client: &Client, name: &str, call: F) -> (r: Result<(), VfsServerCallError>)
        where
            F: FnOnce(&ipc::Client, Type, RemoveQueryParameters, KHandles) -> (KHandles, Result<(RemoveReply, KHandles), VfsServerCallError>),
        requires
            forall|h: KHandles| #![trigger h@] h@ == no_handles().update(RemoveQueryParameters::HANDLE_NAME_MOBJ as int, HandleView::Memory(name.spec_bytes())) ==> call.requires((&client.ipc(), Type::Remove, RemoveQueryParameters { dir: self.spec_handle(), name: (ipc::Buffer { offset: 0, len: (name.spec_bytes()).len() as usize }) }, h)),
        ensures
            exists|h: KHandles, out: (KHandles, Result<(RemoveReply, KHandles), VfsServerCallError>)| {
                &&& h@ == no_handles().update(RemoveQueryParameters::HANDLE_NAME_MOBJ as int, HandleView::Memory(name.spec_bytes()))
                &&& #[trigger] call.ensures((&client.ipc(), Type::Remove, RemoveQueryParameters { dir: self.spec_handle(), name: (ipc::Buffer { offset: 0, len: (name.spec_bytes()).len() as usize }) }, h), out)
                &&& r == match out.1 {
                    Ok(rep) => Ok::<(), VfsServerCallError>(()),
                    Err(e) => Err::<(), VfsServerCallError>(e),
                }
            },
    {
        client.remove(self.handle.value(), name, call)
    }

    /// Lists the entries in the directory.
    ///
    /// The server writes into a buffer lent for the call; while it answers that
    /// the buffer is too small, the call is made again with one twice as large.
    pub fn list<F>(&self, client: &Client, call: F) -> (r: Result<Vec<DirectoryEntry>, VfsServerCallError>)
        where
            F: Fn(&ipc::Client, Type, ListQueryParameters, KHandles) -> (KHandles, Result<(ListReply, KHandles), VfsServerCallError>),
        requires
            forall|size: usize, h: KHandles| #![trigger h@, ipc::zeroed_handle(ListQueryParameters::HANDLE_BUFFER_MOBJ as int, size)]
                h@ == ipc::zeroed_handle(ListQueryParameters::HANDLE_BUFFER_MOBJ as int, size) ==> call.requires((&client.ipc(), Type::List, ListQueryParameters { handle: self.spec_handle(), buffer: ipc::Buffer { offset: 0, len: size } }, h)),
            forall|a: (&ipc::Client, Type, ListQueryParameters, KHandles), out: (KHandles, Result<(ListReply, KHandles), VfsServerCallError>)| #[trigger] call.ensures(a, out) && out.1 is Ok ==> {
                &&& ipc::keeps_lent_size(a.3@, out.0@, ListQueryParameters::HANDLE_BUFFER_MOBJ as int)
                &&& out.1->Ok_0.0.buffer_used_len <= ipc::slot_bytes(out.0@, ListQueryParameters::HANDLE_BUFFER_MOBJ as int).len()
                &&& dentries_block::list_reply_ok(ipc::used_bytes(out.0@, ListQueryParameters::HANDLE_BUFFER_MOBJ as int, out.1->Ok_0.0.buffer_used_len))
            },
        ensures
            r is Ok ==> exists|size: usize, h: KHandles, out: (KHandles, Result<(ListReply, KHandles), VfsServerCallError>)| {
                &&& h@ == ipc::zeroed_handle(ListQueryParameters::HANDLE_BUFFER_MOBJ as int, size)
                &&& #[trigger] call.ensures((&client.ipc(), Type::List, ListQueryParameters { handle: self.spec_handle(), buffer: ipc::Buffer { offset: 0, len: size } }, h), out)
                &&& out.1 matches Ok(rep) && dentries_block::entries_view(r->Ok_0@) == dentries_block::dentries_of(ipc::used_bytes(out.0@, ListQueryParameters::HANDLE_BUFFER_MOBJ as int, rep.0.buffer_used_len))
            },
            r matches Err(e) ==> exists|size: usize, h: KHandles, out: (KHandles, Result<(ListReply, KHandles), VfsServerCallError>)| {
                &&& h@ == ipc::zeroed_handle(ListQueryParameters::HANDLE_BUFFER_MOBJ as int, size)
                &&& #[trigger] call.ensures((&client.ipc(), Type::List, ListQueryParameters { handle: self.spec_handle(), buffer: ipc::Buffer { offset: 0, len: size } }, h), out)
                &&& out.1 == Err::<(ListReply, KHandles), VfsServerCallError>(e)
                &&& (e == CallError::<VfsServerError>::ReplyError(VfsServerError::BufferTooSmall) ==> size > usize::MAX / 2)
            },
    {
        client.list(self.handle.value(), call)
    }
}

impl Symlink {
    /// The symlink opened with `handle`.
    pub closed spec fn spec_from(handle: Handle) -> Symlink {
        Symlink { handle: VfsHandle { handle } }
    }

    /// Opens a symbolic link at the given path (the link itself, not its target).
    pub fn open<F>(client: &Client, path: &str, call: F) -> (r: Result<Self, VfsServerCallError>)
        where
            F: FnOnce(&ipc::Client, Type, OpenQueryParameters, KHandles) -> (KHandles, Result<(OpenReply, KHandles), VfsServerCallError>),
        requires
            forall|h: KHandles| #![trigger h@] h@ == no_handles().update(OpenQueryParameters::HANDLE_PATH_MOBJ as int, HandleView::Memory(path.spec_bytes())) ==> call.requires((&client.ipc(), Type::Open, OpenQueryParameters { path: (ipc::Buffer { offset: 0, len: (path.spec_bytes()).len() as usize }), node_type: Some(NodeType::Symlink), mode: OpenMode::OpenExisting, no_follow: true, permissions: Permissions { bits: 0 }, handle_permissions: HandlePermissions { bits: 1 } }, h)),
        ensures
            exists|h: KHandles, out: (KHandles, Result<(OpenReply, KHandles), VfsServerCallError>)| {
                &&& h@ == no_handles().update(OpenQueryParameters::HANDLE_PATH_MOBJ as int, HandleView::Memory(path.spec_bytes()))
                &&& #[trigger] call.ensures((&client.ipc(), Type::Open, OpenQueryParameters { path: (ipc::Buffer { offset: 0, len: (path.spec_bytes()).len() as usize }), node_type: Some(NodeType::Symlink), mode: OpenMode::OpenExisting, no_follow: true, permissions: Permissions { bits: 0 }, handle_permissions: HandlePermissions { bits: 1 } }, h), out)
                &&& r == match out.1 {
                    Ok(rep) => Ok::<Self, VfsServerCallError>(Symlink::spec_from(rep.0.handle)),
                    Err(e) => Err::<Self, VfsServerCallError>(e),
                }
            },
    {
        let handle_permissions = HandlePermissions::read();
        let permissions = Permissions::none();
        match client.open(path, Some(NodeType::Symlink), OpenMode::OpenExisting, true, permissions, handle_permissions, call) {
            Ok(handle) => Ok(Symlink { handle: VfsHandle::from(handle) }),
            Err(e) => Err(e),
        }
    }

    /// Creates a new symbolic link at the given path pointing to the target path.
    pub fn create<F>(client: &Client, path: &str, target: &str, call: F) -> (r: Result<(), VfsServerCallError>)
        where
            F: FnOnce(&ipc::Client, Type, CreateSymlinkQueryParameters, KHandles) -> (KHandles, Result<(CreateSymlinkReply, KHandles), VfsServerCallError>),
        requires
            forall|h: KHandles| #![trigger h@] h@ == no_handles().update(CreateSymlinkQueryParameters::HANDLE_PATH_MOBJ as int, HandleView::Memory(path.spec_bytes())).update(CreateSymlinkQueryParameters::HANDLE_TARGET_MOBJ as int, HandleView::Memory(target.spec_bytes())) ==> call.requires((&client.ipc(), Type::CreateSymlink, CreateSymlinkQueryParameters { path: (ipc::Buffer { offset: 0, len: (path.spec_bytes()).len() as usize }), target: (ipc::Buffer { offset: 0, len: (target.spec_bytes()).len() as usize }) }, h)),
        ensures
            exists|h: KHandles, out: (KHandles, Result<(CreateSymlinkReply, KHandles), VfsServerCallError>)| {
                &&& h@ == no_handles().update(CreateSymlinkQueryParameters::HANDLE_PATH_MOBJ as int, HandleView::Memory(path.spec_bytes())).update(CreateSymlinkQueryParameters::HANDLE_TARGET_MOBJ as int, HandleView::Memory(target.spec_bytes()))
                &&& #[trigger] call.ensures((&client.ipc(), Type::CreateSymlink, CreateSymlinkQueryParameters { path: (ipc::Buffer { offset: 0, len: (path.spec_bytes()).len() as usize }), target: (ipc::Buffer { offset: 0, len: (target.spec_bytes()).len() as usize }) }, h), out)
                &&& r == match out.1 {
                    Ok(rep) => Ok::<(), VfsServerCallError>(()),
                    Err(e) => Err::<(), VfsServerCallError>(e),
                }
            },
    {
        client.create_symlink(path, target, call)
    }

    /// Reads the target path of the symlink.
    ///
    /// The server writes into a buffer lent for the call; while it answers that
    /// the buffer is too small, the call is made again with one twice as large.
    pub fn target<F>(&self, client: &Client, call: F) -> (r: Result<String, VfsServerCallError>)
        where
            F: Fn(&ipc::Client, Type, ReadSymlinkQueryParameters, KHandles) -> (KHandles, Result<(ReadSymlinkReply, KHandles), VfsServerCallError>),
        requires
            forall|size: usize, h: KHandles| #![trigger h@, ipc::zeroed_handle(ReadSymlinkQueryParameters::HANDLE_BUFFER_MOBJ as int, size)]
                h@ == ipc::zeroed_handle(ReadSymlinkQueryParameters::HANDLE_BUFFER_MOBJ as int, size) ==> call.requires((&client.ipc(), Type::ReadSymlink, ReadSymlinkQueryParameters { handle: self.spec_handle(), buffer: ipc::Buffer { offset: 0, len: size } }, h)),
            forall|a: (&ipc::Client, Type, ReadSymlinkQueryParameters, KHandles), out: (KHandles, Result<(ReadSymlinkReply, KHandles), VfsServerCallError>)| #[trigger] call.ensures(a, out) && out.1 is Ok ==> {
                &&& ipc::keeps_lent_size(a.3@, out.0@, ReadSymlinkQueryParameters::HANDLE_BUFFER_MOBJ as int)
                &&& out.1->Ok_0.0.target_length <= ipc::slot_bytes(out.0@, ReadSymlinkQueryParameters::HANDLE_BUFFER_MOBJ as int).len()
                &&& valid_utf8(ipc::used_bytes(out.0@, ReadSymlinkQueryParameters::HANDLE_BUFFER_MOBJ as int, out.1->Ok_0.0.target_length))
            },
        ensures
            r is Ok ==> exists|size: usize, h: KHandles, out: (KHandles, Result<(ReadSymlinkReply, KHandles), VfsServerCallError>)| {
                &&& h@ == ipc::zeroed_handle(ReadSymlinkQueryParameters::HANDLE_BUFFER_MOBJ as int, size)
                &&& #[trigger] call.ensures((&client.ipc(), Type::ReadSymlink, ReadSymlinkQueryParameters { handle: self.spec_handle(), buffer: ipc::Buffer { offset: 0, len: size } }, h), out)
                &&& out.1 matches Ok(rep) && r->Ok_0@ == decode_utf8(ipc::used_bytes(out.0@, ReadSymlinkQueryParameters::HANDLE_BUFFER_MOBJ as int, rep.0.target_length))
            },
            r matches Err(e) ==> exists|size: usize, h: KHandles, out: (KHandles, Result<(ReadSymlinkReply, KHandles), VfsServerCallError>)| {
                &&& h@ == ipc::zeroed_handle(ReadSymlinkQueryParameters::HANDLE_BUFFER_MOBJ as int, size)
                &&& #[trigger] call.ensures((&client.ipc(), Type::ReadSymlink, ReadSymlinkQueryParameters { handle: self.spec_handle(), buffer: ipc::Buffer { offset: 0, len: size } }, h), out)
                &&& out.1 == Err::<(ReadSymlinkReply, KHandles), VfsServerCallError>(e)
                &&& (e == CallError::<VfsServerError>::ReplyError(VfsServerError::BufferTooSmall) ==> size > usize::MAX / 2)
            },
    {
        client.read_symlink(self.handle.value(), call)
    }
}

/// Mounts a filesystem.
pub fn mount<F>(client: &Client, mount_point: &str, fs_port_name: &str, args: &[u8], call: F) -> (r: Result<(), VfsServerCallError>)
    where
        F: FnOnce(&ipc::Client, Type, MountQueryParameters, KHandles) -> (KHandles, Result<(MountReply, KHandles), VfsServerCallError>),
    requires
        forall|h: KHandles| #![trigger h@] h@ == no_handles().update(MountQueryParameters::HANDLE_MOUNT_POINT_MOBJ as int, HandleView::Memory(mount_point.spec_bytes())).update(MountQueryParameters::HANDLE_FS_PORT_NAME_MOBJ as int, HandleView::Memory(fs_port_name.spec_bytes())).update(MountQueryParameters::HANDLE_ARGS_MOBJ as int, HandleView::Memory(args@)) ==> call.requires((&client.ipc(), Type::Mount, MountQueryParameters { mount_point: (ipc::Buffer { offset: 0, len: (mount_point.spec_bytes()).len() as usize }), fs_port_name: (ipc::Buffer { offset: 0, len: (fs_port_name.spec_bytes()).len() as usize }), args: (ipc::Buffer { offset: 0, len: (args@).len() as usize }) }, h)),
    ensures
        exists|h: KHandles, out: (KHandles, Result<(MountReply, KHandles), VfsServerCallError>)| {
            &&& h@ == no_handles().update(MountQueryParameters::HANDLE_MOUNT_POINT_MOBJ as int, HandleView::Memory(mount_point.spec_bytes())).update(MountQueryParameters::HANDLE_FS_PORT_NAME_MOBJ as int, HandleView::Memory(fs_port_name.spec_bytes())).update(MountQueryParameters::HANDLE_ARGS_MOBJ as int, HandleView::Memory(args@))
            &&& #[trigger] call.ensures((&client.ipc(), Type::Mount, MountQueryParameters { mount_point: (ipc::Buffer { offset: 0, len: (mount_point.spec_bytes()).len() as usize }), fs_port_name: (ipc::Buffer { offset: 0, len: (fs_port_name.spec_bytes()).len() as usize }), args: (ipc::Buffer { offset: 0, len: (args@).len() as usize }) }, h), out)
            &&& r == match out.1 {
                Ok(rep) => Ok::<(), VfsServerCallError>(()),
                Err(e) => Err::<(), VfsServerCallError>(e),
            }
        },
{
    client.mount(mount_point, fs_port_name, args, call)
}

/// Unmounts a filesystem.
pub fn unmount<F>(client: &Client, mount_point: &str, call: F) -> (r: Result<(), VfsServerCallError>)
    where
        F: FnOnce(&ipc::Client, Type, UnmountQueryParameters, KHandles) -> (KHandles, Result<(UnmountReply, KHandles), VfsServerCallError>),
    requires
        forall|h: KHandles| #![trigger h@] h@ == no_handles().update(UnmountQueryParameters::HANDLE_MOUNT_POINT_MOBJ as int, HandleView::Memory(mount_point.spec_bytes())) ==> call.requires((&client.ipc(), Type::Unmount, UnmountQueryParameters { mount_point: (ipc::Buffer { offset: 0, len: (mount_point.spec_bytes()).len() as usize }) }, h)),
    ensures
        exists|h: KHandles, out: (KHandles, Result<(UnmountReply, KHandles), VfsServerCallError>)| {
            &&& h@ == no_handles().update(UnmountQueryParameters::HANDLE_MOUNT_POINT_MOBJ as int, HandleView::Memory(mount_point.spec_bytes()))
            &&& #[trigger] call.ensures((&client.ipc(), Type::Unmount, UnmountQueryParameters { mount_point: (ipc::Buffer { offset: 0, len: (mount_point.spec_bytes()).len() as usize }) }, h), out)
            &&& r == match out.1 {
                Ok(rep) => Ok::<(), VfsServerCallError>(()),
                Err(e) => Err::<(), VfsServerCallError>(e),
            }
        },
{
    client.unmount(mount_point, call)
}

/// Gets the list of mounted filesystems.
///
/// The server writes into a buffer lent for the call; while it answers that
/// the buffer is too small, the call is made again with one twice as large.
pub fn list_mounts<F>(client: &Client, call: F) -> (r: Result<Vec<MountInfo>, VfsServerCallError>)
    where
        F: Fn(&ipc::Client, Type, ListMountsQueryParameters, KHandles) -> (KHandles, Result<(ListMountsReply, KHandles), VfsServerCallError>),
    requires
        forall|size: usize, h: KHandles| #![trigger h@, ipc::zeroed_handle(ListMountsQueryParameters::HANDLE_BUFFER_MOBJ as int, size)]
            h@ == ipc::zeroed_handle(ListMountsQueryParameters::HANDLE_BUFFER_MOBJ as int, size) ==> call.requires((&client.ipc(), Type::ListMounts, ListMountsQueryParameters { buffer: ipc::Buffer { offset: 0, len: size } }, h)),
        forall|a: (&ipc::Client, Type, ListMountsQueryParameters, KHandles), out: (KHandles, Result<(ListMountsReply, KHandles), VfsServerCallError>)| #[trigger] call.ensures(a, out) && out.1 is Ok ==> {
            &&& ipc::keeps_lent_size(a.3@, out.0@, ListMountsQueryParameters::HANDLE_BUFFER_MOBJ as int)
            &&& out.1->Ok_0.0.buffer_used_len <= ipc::slot_bytes(out.0@, ListMountsQueryParameters::HANDLE_BUFFER_MOBJ as int).len()
            &&& mounts_block::list_reply_ok(ipc::used_bytes(out.0@, ListMountsQueryParameters::HANDLE_BUFFER_MOBJ as int, out.1->Ok_0.0.buffer_used_len))
        },
    ensures
        r is Ok ==> exists|size: usize, h: KHandles, out: (KHandles, Result<(ListMountsReply, KHandles), VfsServerCallError>)| {
            &&& h@ == ipc::zeroed_handle(ListMountsQueryParameters::HANDLE_BUFFER_MOBJ as int, size)
            &&& #[trigger] call.ensures((&client.ipc(), Type::ListMounts, ListMountsQueryParameters { buffer: ipc::Buffer { offset: 0, len: size } }, h), out)
            &&& out.1 matches Ok(rep) && mounts_block::mounts_view(r->Ok_0@) == mounts_block::mounts_of(ipc::used_bytes(out.0@, ListMountsQueryParameters::HANDLE_BUFFER_MOBJ as int, rep.0.buffer_used_len))
        },
        r matches Err(e) ==> exists|size: usize, h: KHandles, out: (KHandles, Result<(ListMountsReply, KHandles), VfsServerCallError>)| {
            &&& h@ == ipc::zeroed_handle(ListMountsQueryParameters::HANDLE_BUFFER_MOBJ as int, size)
            &&& #[trigger] call.ensures((&client.ipc(), Type::ListMounts, ListMountsQueryParameters { buffer: ipc::Buffer { offset: 0, len: size } }, h), out)
            &&& out.1 == Err::<(ListMountsReply, KHandles), VfsServerCallError>(e)
            &&& (e == CallError::<VfsServerError>::ReplyError(VfsServerError::BufferTooSmall) ==> size > usize::MAX / 2)
        },
{
    client.list_mounts(call)
}

/// The handles of an Open message for the path with `path_bytes`.
pub open spec fn path_handles(path_bytes: Seq<u8>) -> Seq<HandleView> {
    no_handles().update(OpenQueryParameters::HANDLE_PATH_MOBJ as int, HandleView::Memory(path_bytes))
}

/// The Open message for an existing directory at a path of `len` bytes.
pub open spec fn open_dir_query(len: nat) -> OpenQueryParameters {
    OpenQueryParameters {
        path: ipc::Buffer { offset: 0, len: len as usize },
        node_type: Some(NodeType::Directory),
        mode: OpenMode::OpenExisting,
        no_follow: false,
        permissions: Permissions { bits: 0 },
        handle_permissions: HandlePermissions { bits: 1 },
    }
}

/// Gets the metadata of the object at the given path: the path is opened,
/// its metadata asked, and the handle closed.
pub fn stat<F1, F2, F3>(path: &str, client: &Client, open_call: F1, stat_call: F2, close_call: F3) -> (r: Result<Metadata, VfsServerCallError>)
    where
        F1: FnOnce(&ipc::Client, Type, OpenQueryParameters, KHandles) -> (KHandles, Result<(OpenReply, KHandles), VfsServerCallError>),
        F2: FnOnce(&ipc::Client, Type, StatQueryParameters, KHandles) -> (KHandles, Result<(StatReply, KHandles), VfsServerCallError>),
        F3: FnOnce(&ipc::Client, Type, CloseQueryParameters, KHandles) -> (KHandles, Result<(CloseReply, KHandles), VfsServerCallError>),
    requires
        forall|h: KHandles| #![trigger h@] h@ == path_handles(path.spec_bytes()) ==> open_call.requires((&client.ipc(), Type::Open,
            OpenQueryParameters { path: ipc::Buffer { offset: 0, len: path.spec_bytes().len() as usize }, node_type: None, mode: OpenMode::OpenExisting, no_follow: false, permissions: Permissions { bits: 0 }, handle_permissions: HandlePermissions { bits: 1 } }, h)),
        forall|hd: Handle, h: KHandles| #![trigger stat_call.requires((&client.ipc(), Type::Stat, StatQueryParameters { handle: hd }, h))] h@ == no_handles() ==> stat_call.requires((&client.ipc(), Type::Stat, StatQueryParameters { handle: hd }, h)),
        forall|hd: Handle, h: KHandles| #![trigger close_call.requires((&client.ipc(), Type::Close, CloseQueryParameters { handle: hd }, h))] h@ == no_handles() ==> close_call.requires((&client.ipc(), Type::Close, CloseQueryParameters { handle: hd }, h)),
        forall|a: (&ipc::Client, Type, CloseQueryParameters, KHandles), out: (KHandles, Result<(CloseReply, KHandles), VfsServerCallError>)|
            #[trigger] close_call.ensures(a, out) ==> out.1 is Ok,
    ensures
        exists|h1: KHandles, out1: (KHandles, Result<(OpenReply, KHandles), VfsServerCallError>)| {
            &&& h1@ == path_handles(path.spec_bytes())
            &&& #[trigger] open_call.ensures((&client.ipc(), Type::Open,
                OpenQueryParameters { path: ipc::Buffer { offset: 0, len: path.spec_bytes().len() as usize }, node_type: None, mode: OpenMode::OpenExisting, no_follow: false, permissions: Permissions { bits: 0 }, handle_permissions: HandlePermissions { bits: 1 } }, h1), out1)
            &&& match out1.1 {
                Err(e) => r == Err::<Metadata, VfsServerCallError>(e),
                Ok(rep1) => exists|h2: KHandles, out2: (KHandles, Result<(StatReply, KHandles), VfsServerCallError>)| {
                    &&& h2@ == no_handles()
                    &&& #[trigger] stat_call.ensures((&client.ipc(), Type::Stat, StatQueryParameters { handle: rep1.0.handle }, h2), out2)
                    &&& closed_with(close_call, client, rep1.0.handle)
                    &&& r == match out2.1 {
                        Ok(rep2) => Ok::<Metadata, VfsServerCallError>(rep2.0.metadata),
                        Err(e) => Err::<Metadata, VfsServerCallError>(e),
                    }
                },
            }
        },
{
    let handle = match client.open(path, None, OpenMode::OpenExisting, false, Permissions::none(), HandlePermissions::read(), open_call) {
        Ok(h) => VfsHandle::from(h),
        Err(e) => {
            return Err(e);
        },
    };
    let r = client.stat(handle.value(), stat_call);
    handle.close(client, close_call);
    r
}

/// Removes the object at the given path: its parent directory is opened,
/// the object removed from it, and the directory closed.
pub fn remove<F1, F2, F3>(path: &str, client: &Client, open_call: F1, remove_call: F2, close_call: F3) -> (r: Result<(), VfsServerCallError>)
    where
        F1: FnOnce(&ipc::Client, Type, OpenQueryParameters, KHandles) -> (KHandles, Result<(OpenReply, KHandles), VfsServerCallError>),
        F2: FnOnce(&ipc::Client, Type, RemoveQueryParameters, KHandles) -> (KHandles, Result<(RemoveReply, KHandles), VfsServerCallError>),
        F3: FnOnce(&ipc::Client, Type, CloseQueryParameters, KHandles) -> (KHandles, Result<(CloseReply, KHandles), VfsServerCallError>),
    requires
        spec_split_path(path@) matches Some(pn) ==> forall|h: KHandles| #![trigger h@]
            h@ == path_handles(encode_utf8(pn.0)) ==> open_call.requires((&client.ipc(), Type::Open, open_dir_query(encode_utf8(pn.0).len()), h)),
        spec_split_path(path@) matches Some(pn) ==> forall|hd: Handle, h: KHandles|
            #![trigger remove_call.requires((&client.ipc(), Type::Remove, RemoveQueryParameters { dir: hd, name: ipc::Buffer { offset: 0, len: encode_utf8(pn.1).len() as usize } }, h))]
            h@ == no_handles().update(RemoveQueryParameters::HANDLE_NAME_MOBJ as int, HandleView::Memory(encode_utf8(pn.1)))
            ==> remove_call.requires((&client.ipc(), Type::Remove, RemoveQueryParameters { dir: hd, name: ipc::Buffer { offset: 0, len: encode_utf8(pn.1).len() as usize } }, h)),
        forall|hd: Handle, h: KHandles| #![trigger close_call.requires((&client.ipc(), Type::Close, CloseQueryParameters { handle: hd }, h))] h@ == no_handles() ==> close_call.requires((&client.ipc(), Type::Close, CloseQueryParameters { handle: hd }, h)),
        forall|a: (&ipc::Client, Type, CloseQueryParameters, KHandles), out: (KHandles, Result<(CloseReply, KHandles), VfsServerCallError>)|
            #[trigger] close_call.ensures(a, out) ==> out.1 is Ok,
    ensures
        spec_split_path(path@) is None ==> r == Err::<(), VfsServerCallError>(CallError::ReplyError(VfsServerError::InvalidArgument)),
        spec_split_path(path@) matches Some(pn) ==> exists|h1: KHandles, out1: (KHandles, Result<(OpenReply, KHandles), VfsServerCallError>)| {
            &&& h1@ == path_handles(encode_utf8(pn.0))
            &&& #[trigger] open_call.ensures((&client.ipc(), Type::Open, open_dir_query(encode_utf8(pn.0).len()), h1), out1)
            &&& match out1.1 {
                Err(e) => r == Err::<(), VfsServerCallError>(e),
                Ok(rep1) => exists|h2: KHandles, out2: (KHandles, Result<(RemoveReply, KHandles), VfsServerCallError>)| {
                    &&& h2@ == no_handles().update(RemoveQueryParameters::HANDLE_NAME_MOBJ as int, HandleView::Memory(encode_utf8(pn.1)))
                    &&& #[trigger] remove_call.ensures((&client.ipc(), Type::Remove,
                        RemoveQueryParameters { dir: rep1.0.handle, name: ipc::Buffer { offset: 0, len: encode_utf8(pn.1).len() as usize } }, h2), out2)
                    &&& closed_with(close_call, client, rep1.0.handle)
                    &&& r == match out2.1 {
                        Ok(_) => Ok::<(), VfsServerCallError>(()),
                        Err(e) => Err::<(), VfsServerCallError>(e),
                    }
                },
            }
        },
{
    let (parent, name) = match split_path(path) {
        Ok(pn) => pn,
        Err(e) => {
            return Err(e);
        },
    };
    proof {
        assert(open_dir_query(encode_utf8(parent@).len()) == OpenQueryParameters {
            path: ipc::Buffer { offset: 0, len: parent.spec_bytes().len() as usize },
            node_type: Some(NodeType::Directory),
            mode: OpenMode::OpenExisting,
            no_follow: false,
            permissions: Permissions { bits: 0 },
            handle_permissions: HandlePermissions { bits: 1 },
        });
    }
    let dir = match Directory::open(client, parent, open_call) {
        Ok(d) => d,
        Err(e) => {
            return Err(e);
        },
    };
    let r = client.remove(dir.handle.value(), name, remove_call);
    dir.handle.close(client, close_call);
    r
}

/// The handles of a Move message for the names with `old_bytes` and `new_bytes`.
pub open spec fn move_handles(old_bytes: Seq<u8>, new_bytes: Seq<u8>) -> Seq<HandleView> {
    no_handles().update(MoveQueryParameters::HANDLE_OLD_NAME_MOBJ as int, HandleView::Memory(old_bytes)).update(
        MoveQueryParameters::HANDLE_NEW_NAME_MOBJ as int,
        HandleView::Memory(new_bytes),
    )
}

/// The Move message from directory `old_dir` to directory `new_dir`.
pub open spec fn move_query(old_dir: Handle, old_name: Seq<char>, new_dir: Handle, new_name: Seq<char>) -> MoveQueryParameters {
    MoveQueryParameters {
        old_dir,
        old_name: ipc::Buffer { offset: 0, len: encode_utf8(old_name).len() as usize },
        new_dir,
        new_name: ipc::Buffer { offset: 0, len: encode_utf8(new_name).len() as usize },
    }
}

/// Moves a object from the source path to the destination path: both parent
/// directories are opened, the object moved, and the directories closed.
pub fn move_path<F1, F2, F3>(src: &str, dst: &str, client: &Client, open_call: F1, move_call: F2, close_call: F3) -> (r: Result<(), VfsServerCallError>)
    where
        F1: Fn(&ipc::Client, Type, OpenQueryParameters, KHandles) -> (KHandles, Result<(OpenReply, KHandles), VfsServerCallError>),
        F2: FnOnce(&ipc::Client, Type, MoveQueryParameters, KHandles) -> (KHandles, Result<(MoveReply, KHandles), VfsServerCallError>),
        F3: Fn(&ipc::Client, Type, CloseQueryParameters, KHandles) -> (KHandles, Result<(CloseReply, KHandles), VfsServerCallError>),
    requires
        spec_split_path(src@) matches Some(sp) ==> forall|h: KHandles| #![trigger h@]
            h@ == path_handles(encode_utf8(sp.0)) ==> open_call.requires((&client.ipc(), Type::Open, open_dir_query(encode_utf8(sp.0).len()), h)),
        spec_split_path(dst@) matches Some(dp) ==> forall|h: KHandles| #![trigger h@]
            h@ == path_handles(encode_utf8(dp.0)) ==> open_call.requires((&client.ipc(), Type::Open, open_dir_query(encode_utf8(dp.0).len()), h)),
        forall|q: MoveQueryParameters, h: KHandles| #![trigger move_call.requires((&client.ipc(), Type::Move, q, h))]
            move_call.requires((&client.ipc(), Type::Move, q, h)),
        forall|hd: Handle, h: KHandles| #![trigger close_call.requires((&client.ipc(), Type::Close, CloseQueryParameters { handle: hd }, h))] h@ == no_handles() ==> close_call.requires((&client.ipc(), Type::Close, CloseQueryParameters { handle: hd }, h)),
    ensures
        spec_split_path(src@) is None || spec_split_path(dst@) is None
            ==> r == Err::<(), VfsServerCallError>(CallError::ReplyError(VfsServerError::InvalidArgument)),
        spec_split_path(src@) matches Some(sp) ==> spec_split_path(dst@) matches Some(dp) ==>
            exists|h1: KHandles, out1: (KHandles, Result<(OpenReply, KHandles), VfsServerCallError>)| {
                &&& h1@ == path_handles(encode_utf8(sp.0))
                &&& #[trigger] open_call.ensures((&client.ipc(), Type::Open, open_dir_query(encode_utf8(sp.0).len()), h1), out1)
                &&& match out1.1 {
                    Err(e) => r == Err::<(), VfsServerCallError>(e),
                    Ok(rep1) => exists|h2: KHandles, out2: (KHandles, Result<(OpenReply, KHandles), VfsServerCallError>)| {
                        &&& h2@ == path_handles(encode_utf8(dp.0))
                        &&& #[trigger] open_call.ensures((&client.ipc(), Type::Open, open_dir_query(encode_utf8(dp.0).len()), h2), out2)
                        &&& match out2.1 {
                            Err(e) => r == Err::<(), VfsServerCallError>(e) && closed_with(close_call, client, rep1.0.handle),
                            Ok(rep2) => exists|h3: KHandles, out3: (KHandles, Result<(MoveReply, KHandles), VfsServerCallError>)| {
                                &&& h3@ == move_handles(encode_utf8(sp.1), encode_utf8(dp.1))
                                &&& #[trigger] move_call.ensures((&client.ipc(), Type::Move, move_query(rep1.0.handle, sp.1, rep2.0.handle, dp.1), h3), out3)
                                &&& closed_with(close_call, client, rep1.0.handle)
                                &&& closed_with(close_call, client, rep2.0.handle)
                                &&& r == match out3.1 {
                                    Ok(_) => Ok::<(), VfsServerCallError>(()),
                                    Err(e) => Err::<(), VfsServerCallError>(e),
                                }
                            },
                        }
                    },
                }
            },
{
    let (src_parent, src_name) = match split_path(src) {
        Ok(pn) => pn,
        Err(e) => {
            return Err(e);
        },
    };
    let (dst_parent, dst_name) = match split_path(dst) {
        Ok(pn) => pn,
        Err(e) => {
            return Err(e);
        },
    };
    let src_dir = match open_directory(client, src_parent, &open_call) {
        Ok(h) => h,
        Err(e) => {
            return Err(e);
        },
    };
    let dst_dir = match open_directory(client, dst_parent, &open_call) {
        Ok(h) => h,
        Err(e) => {
            close_handle(client, src_dir, &close_call);
            return Err(e);
        },
    };
    proof {
        assert(move_query(src_dir, src_name@, dst_dir, dst_name@) == MoveQueryParameters {
            old_dir: src_dir,
            old_name: ipc::Buffer { offset: 0, len: src_name.spec_bytes().len() as usize },
            new_dir: dst_dir,
            new_name: ipc::Buffer { offset: 0, len: dst_name.spec_bytes().len() as usize },
        });
        assert(move_handles(encode_utf8(src_name@), encode_utf8(dst_name@)) == no_handles().update(
            MoveQueryParameters::HANDLE_OLD_NAME_MOBJ as int,
            HandleView::Memory(src_name.spec_bytes()),
        ).update(MoveQueryParameters::HANDLE_NEW_NAME_MOBJ as int, HandleView::Memory(dst_name.spec_bytes())));
    }
    let r = client.move_node(src_dir, src_name, dst_dir, dst_name, move_call);
    close_handle(client, dst_dir, &close_call);
    close_handle(client, src_dir, &close_call);
    r
}

/// Opens the existing directory at `path`, through `call`.
fn open_directory<F>(client: &Client, path: &str, call: &F) -> (r: Result<Handle, VfsServerCallError>)
    where
        F: Fn(&ipc::Client, Type, OpenQueryParameters, KHandles) -> (KHandles, Result<(OpenReply, KHandles), VfsServerCallError>),
    requires
        forall|h: KHandles| #![trigger h@]
            h@ == path_handles(encode_utf8(path@)) ==> call.requires((&client.ipc(), Type::Open, open_dir_query(encode_utf8(path@).len()), h)),
    ensures
        exists|h: KHandles, out: (KHandles, Result<(OpenReply, KHandles), VfsServerCallError>)| {
            &&& h@ == path_handles(encode_utf8(path@))
            &&& #[trigger] call.ensures((&client.ipc(), Type::Open, open_dir_query(encode_utf8(path@).len()), h), out)
            &&& r == match out.1 {
                Ok(rep) => Ok::<Handle, VfsServerCallError>(rep.0.handle),
                Err(e) => Err::<Handle, VfsServerCallError>(e),
            }
        },
{
    let (m, b) = ipc::share_bytes(path.as_bytes());
    let query = OpenQueryParameters {
        path: b,
        node_type: Some(NodeType::Directory),
        mode: OpenMode::OpenExisting,
        no_follow: false,
        permissions: Permissions::none(),
        handle_permissions: HandlePermissions::read(),
    };
    let mut query_handles = KHandles::new();
    query_handles.set(OpenQueryParameters::HANDLE_PATH_MOBJ, KHandle::MemoryObject(m));
    let (_lent, res) = call(client.ipc_client(), Type::Open, query, query_handles);
    match res {
        Ok((reply, _reply_handles)) => Ok(reply.handle),
        Err(e) => Err(e),
    }
}

/// Closes `handle` on the server, through `call`.
fn close_handle<F>(client: &Client, handle: Handle, call: &F)
    where
        F: Fn(&ipc::Client, Type, CloseQueryParameters, KHandles) -> (KHandles, Result<(CloseReply, KHandles), VfsServerCallError>),
    requires
        forall|h: KHandles| #![trigger h@] h@ == no_handles() ==> call.requires((&client.ipc(), Type::Close, CloseQueryParameters { handle: handle }, h)),
    ensures
        closed_with(*call, client, handle),
{
    let q = CloseQueryParameters { handle };
    let hs = KHandles::new();
    let ghost g = hs;
    let out = call(client.ipc_client(), Type::Close, q, hs);
    assert(call.ensures((&client.ipc(), Type::Close, q, g), out));
}

} // verus!
