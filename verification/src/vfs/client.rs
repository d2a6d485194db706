//! Low level client of the VFS server.
use vstd::prelude::*;
use vstd::string::StringSliceAdditionalSpecFns;
use crate::ipc::{self, CallError, KHandle, KHandles, HandleView, Handle, no_handles};
use crate::kobject::{MemoryObject, PortSender};
use super::messages::{
    Type, VfsServerError, OpenQueryParameters, OpenReply, CloseQueryParameters, CloseReply, StatQueryParameters,
    StatReply, SetPermissionsQueryParameters, SetPermissionsReply, ReadQueryParameters, ReadReply,
    WriteQueryParameters, WriteReply, ResizeQueryParameters, ResizeReply, ListQueryParameters, ListReply,
    MoveQueryParameters, MoveReply, RemoveQueryParameters, RemoveReply, CreateSymlinkQueryParameters,
    CreateSymlinkReply, ReadSymlinkQueryParameters, ReadSymlinkReply, MountQueryParameters, MountReply,
    UnmountQueryParameters, UnmountReply, ListMountsQueryParameters, ListMountsReply, PORT_NAME, VERSION,
};
use super::types::{HandlePermissions, Metadata, NodeType, OpenMode, Permissions};
use crate::layout::put_bytes;
use super::dentries_block::{self, DentriesBlock, DirectoryEntry};
use super::mounts_block::{self, MountsBlock, MountInfo};
use crate::text::string_from_utf8;
use vstd::utf8::{valid_utf8, decode_utf8};

verus! {

pub type VfsServerCallError = CallError<VfsServerError>;

/// Low level VFS client implementation.
pub struct Client {
    ipc_client: ipc::Client,
}

impl Client {
    /// The port and version this client talks to.
    pub closed spec fn ipc(&self) -> ipc::Client {
        self.ipc_client
    }

    /// The client of the server port.
    pub fn ipc_client(&self) -> (r: &ipc::Client)
        ensures
            *r == self.ipc(),
    {
        &self.ipc_client
    }

    /// Creates a new VFS client.
    pub fn new() -> (r: Self)
        ensures
            r.ipc().spec_port_name() == PORT_NAME@,
            r.ipc().spec_version() == VERSION,
    {
        Self { ipc_client: ipc::Client::new(PORT_NAME, VERSION) }
    }

    /// call ipc Open
    pub fn open<F>(&self, path: &str, node_type: Option<NodeType>, mode: OpenMode, no_follow: bool, permissions: Permissions, handle_permissions: HandlePermissions, call: F) -> (r: Result<Handle, VfsServerCallError>)
        where
            F: FnOnce(&ipc::Client, Type, OpenQueryParameters, KHandles) -> (KHandles, Result<(OpenReply, KHandles), VfsServerCallError>),
        requires
            forall|h: KHandles| #![trigger h@] h@ == no_handles().update(OpenQueryParameters::HANDLE_PATH_MOBJ as int, HandleView::Memory(path.spec_bytes())) ==> call.requires((&self.ipc(), Type::Open, OpenQueryParameters { path: (ipc::Buffer { offset: 0, len: (path.spec_bytes()).len() as usize }), node_type: node_type, mode: mode, no_follow: no_follow, permissions: permissions, handle_permissions: handle_permissions }, h)),
        ensures
            exists|h: KHandles, out: (KHandles, Result<(OpenReply, KHandles), VfsServerCallError>)| {
                &&& h@ == no_handles().update(OpenQueryParameters::HANDLE_PATH_MOBJ as int, HandleView::Memory(path.spec_bytes()))
                &&& #[trigger] call.ensures((&self.ipc(), Type::Open, OpenQueryParameters { path: (ipc::Buffer { offset: 0, len: (path.spec_bytes()).len() as usize }), node_type: node_type, mode: mode, no_follow: no_follow, permissions: permissions, handle_permissions: handle_permissions }, h), out)
                &&& r == match out.1 {
                    Ok(rep) => Ok::<Handle, VfsServerCallError>(rep.0.handle),
                    Err(e) => Err::<Handle, VfsServerCallError>(e),
                }
            },
    {
        let (m0, b0) = ipc::share_bytes(path.as_bytes());
        let query = OpenQueryParameters { path: b0, node_type: node_type, mode: mode, no_follow: no_follow, permissions: permissions, handle_permissions: handle_permissions };
        let mut query_handles = KHandles::new();
        query_handles.set(OpenQueryParameters::HANDLE_PATH_MOBJ, KHandle::MemoryObject(m0));
        let (_lent, res) = call(&self.ipc_client, Type::Open, query, query_handles);
        match res {
            Ok((reply, _reply_handles)) => Ok(reply.handle),
            Err(e) => Err(e),
        }
    }

    /// call ipc Close
    pub fn close<F>(&self, handle: Handle, call: F) -> (r: Result<(), VfsServerCallError>)
        where
            F: FnOnce(&ipc::Client, Type, CloseQueryParameters, KHandles) -> (KHandles, Result<(CloseReply, KHandles), VfsServerCallError>),
        requires
            forall|h: KHandles| #![trigger h@] h@ == no_handles() ==> call.requires((&self.ipc(), Type::Close, CloseQueryParameters { handle: handle }, h)),
        ensures
            exists|h: KHandles, out: (KHandles, Result<(CloseReply, KHandles), VfsServerCallError>)| {
                &&& h@ == no_handles()
                &&& #[trigger] call.ensures((&self.ipc(), Type::Close, CloseQueryParameters { handle: handle }, h), out)
                &&& r == match out.1 {
                    Ok(rep) => Ok::<(), VfsServerCallError>(()),
                    Err(e) => Err::<(), VfsServerCallError>(e),
                }
            },
    {
        let query = CloseQueryParameters { handle: handle };
        let mut query_handles = KHandles::new();
        let (_lent, res) = call(&self.ipc_client, Type::Close, query, query_handles);
        match res {
            Ok((reply, _reply_handles)) => Ok(()),
            Err(e) => Err(e),
        }
    }

    /// call ipc Stat
    pub fn stat<F>(&self, handle: Handle, call: F) -> (r: Result<Metadata, VfsServerCallError>)
        where
            F: FnOnce(&ipc::Client, Type, StatQueryParameters, KHandles) -> (KHandles, Result<(StatReply, KHandles), VfsServerCallError>),
        requires
            forall|h: KHandles| #![trigger h@] h@ == no_handles() ==> call.requires((&self.ipc(), Type::Stat, StatQueryParameters { handle: handle }, h)),
        ensures
            exists|h: KHandles, out: (KHandles, Result<(StatReply, KHandles), VfsServerCallError>)| {
                &&& h@ == no_handles()
                &&& #[trigger] call.ensures((&self.ipc(), Type::Stat, StatQueryParameters { handle: handle }, h), out)
                &&& r == match out.1 {
                    Ok(rep) => Ok::<Metadata, VfsServerCallError>(rep.0.metadata),
                    Err(e) => Err::<Metadata, VfsServerCallError>(e),
                }
            },
    {
        let query = StatQueryParameters { handle: handle };
        let mut query_handles = KHandles::new();
        let (_lent, res) = call(&self.ipc_client, Type::Stat, query, query_handles);
        match res {
            Ok((reply, _reply_handles)) => Ok(reply.metadata),
            Err(e) => Err(e),
        }
    }

    /// call ipc SetPermissions
    pub fn set_permissions<F>(&self, handle: Handle, permissions: Permissions, call: F) -> (r: Result<(), VfsServerCallError>)
        where
            F: FnOnce(&ipc::Client, Type, SetPermissionsQueryParameters, KHandles) -> (KHandles, Result<(SetPermissionsReply, KHandles), VfsServerCallError>),
        requires
            forall|h: KHandles| #![trigger h@] h@ == no_handles() ==> call.requires((&self.ipc(), Type::SetPermissions, SetPermissionsQueryParameters { handle: handle, permissions: permissions }, h)),
        ensures
            exists|h: KHandles, out: (KHandles, Result<(SetPermissionsReply, KHandles), VfsServerCallError>)| {
                &&& h@ == no_handles()
                &&& #[trigger] call.ensures((&self.ipc(), Type::SetPermissions, SetPermissionsQueryParameters { handle: handle, permissions: permissions }, h), out)
                &&& r == match out.1 {
                    Ok(rep) => Ok::<(), VfsServerCallError>(()),
                    Err(e) => Err::<(), VfsServerCallError>(e),
                }
            },
    {
        let query = SetPermissionsQueryParameters { handle: handle, permissions: permissions };
        let mut query_handles = KHandles::new();
        let (_lent, res) = call(&self.ipc_client, Type::SetPermissions, query, query_handles);
        match res {
            Ok((reply, _reply_handles)) => Ok(()),
            Err(e) => Err(e),
        }
    }

    /// call ipc Write
    pub fn write<F>(&self, handle: Handle, offset: u64, buffer: &[u8], call: F) -> (r: Result<u64, VfsServerCallError>)
        where
            F: FnOnce(&ipc::Client, Type, WriteQueryParameters, KHandles) -> (KHandles, Result<(WriteReply, KHandles), VfsServerCallError>),
        requires
            forall|h: KHandles| #![trigger h@] h@ == no_handles().update(WriteQueryParameters::HANDLE_BUFFER_MOBJ as int, HandleView::Memory(buffer@)) ==> call.requires((&self.ipc(), Type::Write, WriteQueryParameters { handle: handle, buffer: (ipc::Buffer { offset: 0, len: (buffer@).len() as usize }), offset: offset }, h)),
        ensures
            exists|h: KHandles, out: (KHandles, Result<(WriteReply, KHandles), VfsServerCallError>)| {
                &&& h@ == no_handles().update(WriteQueryParameters::HANDLE_BUFFER_MOBJ as int, HandleView::Memory(buffer@))
                &&& #[trigger] call.ensures((&self.ipc(), Type::Write, WriteQueryParameters { handle: handle, buffer: (ipc::Buffer { offset: 0, len: (buffer@).len() as usize }), offset: offset }, h), out)
                &&& r == match out.1 {
                    Ok(rep) => Ok::<u64, VfsServerCallError>(rep.0.bytes_written),
                    Err(e) => Err::<u64, VfsServerCallError>(e),
                }
            },
    {
        let (m0, b0) = ipc::share_bytes(buffer);
        let query = WriteQueryParameters { handle: handle, buffer: b0, offset: offset };
        let mut query_handles = KHandles::new();
        query_handles.set(WriteQueryParameters::HANDLE_BUFFER_MOBJ, KHandle::MemoryObject(m0));
        let (_lent, res) = call(&self.ipc_client, Type::Write, query, query_handles);
        match res {
            Ok((reply, _reply_handles)) => Ok(reply.bytes_written),
            Err(e) => Err(e),
        }
    }

    /// call ipc Resize
    pub fn resize<F>(&self, handle: Handle, new_size: u64, call: F) -> (r: Result<(), VfsServerCallError>)
        where
            F: FnOnce(&ipc::Client, Type, ResizeQueryParameters, KHandles) -> (KHandles, Result<(ResizeReply, KHandles), VfsServerCallError>),
        requires
            forall|h: KHandles| #![trigger h@] h@ == no_handles() ==> call.requires((&self.ipc(), Type::Resize, ResizeQueryParameters { handle: handle, new_size: new_size }, h)),
        ensures
            exists|h: KHandles, out: (KHandles, Result<(ResizeReply, KHandles), VfsServerCallError>)| {
                &&& h@ == no_handles()
                &&& #[trigger] call.ensures((&self.ipc(), Type::Resize, ResizeQueryParameters { handle: handle, new_size: new_size }, h), out)
                &&& r == match out.1 {
                    Ok(rep) => Ok::<(), VfsServerCallError>(()),
                    Err(e) => Err::<(), VfsServerCallError>(e),
                }
            },
    {
        let query = ResizeQueryParameters { handle: handle, new_size: new_size };
        let mut query_handles = KHandles::new();
        let (_lent, res) = call(&self.ipc_client, Type::Resize, query, query_handles);
        match res {
            Ok((reply, _reply_handles)) => Ok(()),
            Err(e) => Err(e),
        }
    }

    /// call ipc Move
    pub fn move_node<F>(&self, old_dir: Handle, old_name: &str, new_dir: Handle, new_name: &str, call: F) -> (r: Result<(), VfsServerCallError>)
        where
            F: FnOnce(&ipc::Client, Type, MoveQueryParameters, KHandles) -> (KHandles, Result<(MoveReply, KHandles), VfsServerCallError>),
        requires
            forall|h: KHandles| #![trigger h@] h@ == no_handles().update(MoveQueryParameters::HANDLE_OLD_NAME_MOBJ as int, HandleView::Memory(old_name.spec_bytes())).update(MoveQueryParameters::HANDLE_NEW_NAME_MOBJ as int, HandleView::Memory(new_name.spec_bytes())) ==> call.requires((&self.ipc(), Type::Move, MoveQueryParameters { old_dir: old_dir, old_name: (ipc::Buffer { offset: 0, len: (old_name.spec_bytes()).len() as usize }), new_dir: new_dir, new_name: (ipc::Buffer { offset: 0, len: (new_name.spec_bytes()).len() as usize }) }, h)),
        ensures
            exists|h: KHandles, out: (KHandles, Result<(MoveReply, KHandles), VfsServerCallError>)| {
                &&& h@ == no_handles().update(MoveQueryParameters::HANDLE_OLD_NAME_MOBJ as int, HandleView::Memory(old_name.spec_bytes())).update(MoveQueryParameters::HANDLE_NEW_NAME_MOBJ as int, HandleView::Memory(new_name.spec_bytes()))
                &&& #[trigger] call.ensures((&self.ipc(), Type::Move, MoveQueryParameters { old_dir: old_dir, old_name: (ipc::Buffer { offset: 0, len: (old_name.spec_bytes()).len() as usize }), new_dir: new_dir, new_name: (ipc::Buffer { offset: 0, len: (new_name.spec_bytes()).len() as usize }) }, h), out)
                &&& r == match out.1 {
                    Ok(rep) => Ok::<(), VfsServerCallError>(()),
                    Err(e) => Err::<(), VfsServerCallError>(e),
                }
            },
    {
        let (m0, b0) = ipc::share_bytes(old_name.as_bytes());
        let (m1, b1) = ipc::share_bytes(new_name.as_bytes());
        let query = MoveQueryParameters { old_dir: old_dir, old_name: b0, new_dir: new_dir, new_name: b1 };
        let mut query_handles = KHandles::new();
        query_handles.set(MoveQueryParameters::HANDLE_OLD_NAME_MOBJ, KHandle::MemoryObject(m0));
        query_handles.set(MoveQueryParameters::HANDLE_NEW_NAME_MOBJ, KHandle::MemoryObject(m1));
        let (_lent, res) = call(&self.ipc_client, Type::Move, query, query_handles);
        match res {
            Ok((reply, _reply_handles)) => Ok(()),
            Err(e) => Err(e),
        }
    }

    /// call ipc Remove
    pub fn remove<F>(&self, dir: Handle, name: &str, call: F) -> (r: Result<(), VfsServerCallError>)
        where
            F: FnOnce(&ipc::Client, Type, RemoveQueryParameters, KHandles) -> (KHandles, Result<(RemoveReply, KHandles), VfsServerCallError>),
        requires
            forall|h: KHandles| #![trigger h@] h@ == no_handles().update(RemoveQueryParameters::HANDLE_NAME_MOBJ as int, HandleView::Memory(name.spec_bytes())) ==> call.requires((&self.ipc(), Type::Remove, RemoveQueryParameters { dir: dir, name: (ipc::Buffer { offset: 0, len: (name.spec_bytes()).len() as usize }) }, h)),
        ensures
            exists|h: KHandles, out: (KHandles, Result<(RemoveReply, KHandles), VfsServerCallError>)| {
                &&& h@ == no_handles().update(RemoveQueryParameters::HANDLE_NAME_MOBJ as int, HandleView::Memory(name.spec_bytes()))
                &&& #[trigger] call.ensures((&self.ipc(), Type::Remove, RemoveQueryParameters { dir: dir, name: (ipc::Buffer { offset: 0, len: (name.spec_bytes()).len() as usize }) }, h), out)
                &&& r == match out.1 {
                    Ok(rep) => Ok::<(), VfsServerCallError>(()),
                    Err(e) => Err::<(), VfsServerCallError>(e),
                }
            },
    {
        let (m0, b0) = ipc::share_bytes(name.as_bytes());
        let query = RemoveQueryParameters { dir: dir, name: b0 };
        let mut query_handles = KHandles::new();
        query_handles.set(RemoveQueryParameters::HANDLE_NAME_MOBJ, KHandle::MemoryObject(m0));
        let (_lent, res) = call(&self.ipc_client, Type::Remove, query, query_handles);
        match res {
            Ok((reply, _reply_handles)) => Ok(()),
            Err(e) => Err(e),
        }
    }

    /// call ipc CreateSymlink
    pub fn create_symlink<F>(&self, path: &str, target: &str, call: F) -> (r: Result<(), VfsServerCallError>)
        where
            F: FnOnce(&ipc::Client, Type, CreateSymlinkQueryParameters, KHandles) -> (KHandles, Result<(CreateSymlinkReply, KHandles), VfsServerCallError>),
        requires
            forall|h: KHandles| #![trigger h@] h@ == no_handles().update(CreateSymlinkQueryParameters::HANDLE_PATH_MOBJ as int, HandleView::Memory(path.spec_bytes())).update(CreateSymlinkQueryParameters::HANDLE_TARGET_MOBJ as int, HandleView::Memory(target.spec_bytes())) ==> call.requires((&self.ipc(), Type::CreateSymlink, CreateSymlinkQueryParameters { path: (ipc::Buffer { offset: 0, len: (path.spec_bytes()).len() as usize }), target: (ipc::Buffer { offset: 0, len: (target.spec_bytes()).len() as usize }) }, h)),
        ensures
            exists|h: KHandles, out: (KHandles, Result<(CreateSymlinkReply, KHandles), VfsServerCallError>)| {
                &&& h@ == no_handles().update(CreateSymlinkQueryParameters::HANDLE_PATH_MOBJ as int, HandleView::Memory(path.spec_bytes())).update(CreateSymlinkQueryParameters::HANDLE_TARGET_MOBJ as int, HandleView::Memory(target.spec_bytes()))
                &&& #[trigger] call.ensures((&self.ipc(), Type::CreateSymlink, CreateSymlinkQueryParameters { path: (ipc::Buffer { offset: 0, len: (path.spec_bytes()).len() as usize }), target: (ipc::Buffer { offset: 0, len: (target.spec_bytes()).len() as usize }) }, h), out)
                &&& r == match out.1 {
                    Ok(rep) => Ok::<(), VfsServerCallError>(()),
                    Err(e) => Err::<(), VfsServerCallError>(e),
                }
            },
    {
        let (m0, b0) = ipc::share_bytes(path.as_bytes());
        let (m1, b1) = ipc::share_bytes(target.as_bytes());
        let query = CreateSymlinkQueryParameters { path: b0, target: b1 };
        let mut query_handles = KHandles::new();
        query_handles.set(CreateSymlinkQueryParameters::HANDLE_PATH_MOBJ, KHandle::MemoryObject(m0));
        query_handles.set(CreateSymlinkQueryParameters::HANDLE_TARGET_MOBJ, KHandle::MemoryObject(m1));
        let (_lent, res) = call(&self.ipc_client, Type::CreateSymlink, query, query_handles);
        match res {
            Ok((reply, _reply_handles)) => Ok(()),
            Err(e) => Err(e),
        }
    }

    /// call ipc Mount
    pub fn mount<F>(&self, mount_point: &str, fs_port_name: &str, args: &[u8], call: F) -> (r: Result<(), VfsServerCallError>)
        where
            F: FnOnce(&ipc::Client, Type, MountQueryParameters, KHandles) -> (KHandles, Result<(MountReply, KHandles), VfsServerCallError>),
        requires
            forall|h: KHandles| #![trigger h@] h@ == no_handles().update(MountQueryParameters::HANDLE_MOUNT_POINT_MOBJ as int, HandleView::Memory(mount_point.spec_bytes())).update(MountQueryParameters::HANDLE_FS_PORT_NAME_MOBJ as int, HandleView::Memory(fs_port_name.spec_bytes())).update(MountQueryParameters::HANDLE_ARGS_MOBJ as int, HandleView::Memory(args@)) ==> call.requires((&self.ipc(), Type::Mount, MountQueryParameters { mount_point: (ipc::Buffer { offset: 0, len: (mount_point.spec_bytes()).len() as usize }), fs_port_name: (ipc::Buffer { offset: 0, len: (fs_port_name.spec_bytes()).len() as usize }), args: (ipc::Buffer { offset: 0, len: (args@).len() as usize }) }, h)),
        ensures
            exists|h: KHandles, out: (KHandles, Result<(MountReply, KHandles), VfsServerCallError>)| {
                &&& h@ == no_handles().update(MountQueryParameters::HANDLE_MOUNT_POINT_MOBJ as int, HandleView::Memory(mount_point.spec_bytes())).update(MountQueryParameters::HANDLE_FS_PORT_NAME_MOBJ as int, HandleView::Memory(fs_port_name.spec_bytes())).update(MountQueryParameters::HANDLE_ARGS_MOBJ as int, HandleView::Memory(args@))
                &&& #[trigger] call.ensures((&self.ipc(), Type::Mount, MountQueryParameters { mount_point: (ipc::Buffer { offset: 0, len: (mount_point.spec_bytes()).len() as usize }), fs_port_name: (ipc::Buffer { offset: 0, len: (fs_port_name.spec_bytes()).len() as usize }), args: (ipc::Buffer { offset: 0, len: (args@).len() as usize }) }, h), out)
                &&& r == match out.1 {
                    Ok(rep) => Ok::<(), VfsServerCallError>(()),
                    Err(e) => Err::<(), VfsServerCallError>(e),
                }
            },
    {
        let (m0, b0) = ipc::share_bytes(mount_point.as_bytes());
        let (m1, b1) = ipc::share_bytes(fs_port_name.as_bytes());
        let (m2, b2) = ipc::share_bytes(args);
        let query = MountQueryParameters { mount_point: b0, fs_port_name: b1, args: b2 };
        let mut query_handles = KHandles::new();
        query_handles.set(MountQueryParameters::HANDLE_MOUNT_POINT_MOBJ, KHandle::MemoryObject(m0));
        query_handles.set(MountQueryParameters::HANDLE_FS_PORT_NAME_MOBJ, KHandle::MemoryObject(m1));
        query_handles.set(MountQueryParameters::HANDLE_ARGS_MOBJ, KHandle::MemoryObject(m2));
        let (_lent, res) = call(&self.ipc_client, Type::Mount, query, query_handles);
        match res {
            Ok((reply, _reply_handles)) => Ok(()),
            Err(e) => Err(e),
        }
    }

    /// call ipc Unmount
    pub fn unmount<F>(&self, mount_point: &str, call: F) -> (r: Result<(), VfsServerCallError>)
        where
            F: FnOnce(&ipc::Client, Type, UnmountQueryParameters, KHandles) -> (KHandles, Result<(UnmountReply, KHandles), VfsServerCallError>),
        requires
            forall|h: KHandles| #![trigger h@] h@ == no_handles().update(UnmountQueryParameters::HANDLE_MOUNT_POINT_MOBJ as int, HandleView::Memory(mount_point.spec_bytes())) ==> call.requires((&self.ipc(), Type::Unmount, UnmountQueryParameters { mount_point: (ipc::Buffer { offset: 0, len: (mount_point.spec_bytes()).len() as usize }) }, h)),
        ensures
            exists|h: KHandles, out: (KHandles, Result<(UnmountReply, KHandles), VfsServerCallError>)| {
                &&& h@ == no_handles().update(UnmountQueryParameters::HANDLE_MOUNT_POINT_MOBJ as int, HandleView::Memory(mount_point.spec_bytes()))
                &&& #[trigger] call.ensures((&self.ipc(), Type::Unmount, UnmountQueryParameters { mount_point: (ipc::Buffer { offset: 0, len: (mount_point.spec_bytes()).len() as usize }) }, h), out)
                &&& r == match out.1 {
                    Ok(rep) => Ok::<(), VfsServerCallError>(()),
                    Err(e) => Err::<(), VfsServerCallError>(e),
                }
            },
    {
        let (m0, b0) = ipc::share_bytes(mount_point.as_bytes());
        let query = UnmountQueryParameters { mount_point: b0 };
        let mut query_handles = KHandles::new();
        query_handles.set(UnmountQueryParameters::HANDLE_MOUNT_POINT_MOBJ, KHandle::MemoryObject(m0));
        let (_lent, res) = call(&self.ipc_client, Type::Unmount, query, query_handles);
        match res {
            Ok((reply, _reply_handles)) => Ok(()),
            Err(e) => Err(e),
        }
    }

    /// call ipc Read
    ///
    /// The buffer is shared with the server for the call: it holds afterwards
    /// what the server wrote into it.
    pub fn read<F>(&self, handle: Handle, offset: u64, buffer: &mut [u8], call: F) -> (r: Result<u64, VfsServerCallError>)
        where
            F: FnOnce(&ipc::Client, Type, ReadQueryParameters, KHandles) -> (KHandles, Result<(ReadReply, KHandles), VfsServerCallError>),
        requires
            forall|h: KHandles| h@ == no_handles().update(ReadQueryParameters::HANDLE_BUFFER_MOBJ as int, HandleView::Memory(old(buffer)@))
                ==> #[trigger] call.requires((&self.ipc(), Type::Read, ReadQueryParameters { handle: handle, buffer: ipc::Buffer { offset: 0, len: old(buffer)@.len() as usize }, offset: offset }, h)),
            forall|a: (&ipc::Client, Type, ReadQueryParameters, KHandles), out: (KHandles, Result<(ReadReply, KHandles), VfsServerCallError>)|
                call.ensures(a, out) ==> ipc::keeps_lent_size(a.3@, out.0@, ReadQueryParameters::HANDLE_BUFFER_MOBJ as int),
        ensures
            exists|h: KHandles, out: (KHandles, Result<(ReadReply, KHandles), VfsServerCallError>)| {
                &&& h@ == no_handles().update(ReadQueryParameters::HANDLE_BUFFER_MOBJ as int, HandleView::Memory(old(buffer)@))
                &&& #[trigger] call.ensures((&self.ipc(), Type::Read, ReadQueryParameters { handle: handle, buffer: ipc::Buffer { offset: 0, len: old(buffer)@.len() as usize }, offset: offset }, h), out)
                &&& out.0@[ReadQueryParameters::HANDLE_BUFFER_MOBJ as int] == HandleView::Memory(final(buffer)@)
                &&& r == match out.1 {
                    Ok(rep) => Ok::<u64, VfsServerCallError>(rep.0.bytes_read),
                    Err(e) => Err::<u64, VfsServerCallError>(e),
                }
            },
    {
        let (m0, b0) = ipc::share_bytes(buffer);
        let query = ReadQueryParameters { handle, buffer: b0, offset };
        let mut query_handles = KHandles::new();
        query_handles.set(ReadQueryParameters::HANDLE_BUFFER_MOBJ, KHandle::MemoryObject(m0));
        let ghost sent = query_handles@;
        proof {
            assert(sent == no_handles().update(ReadQueryParameters::HANDLE_BUFFER_MOBJ as int, HandleView::Memory(old(buffer)@)));
            assert(b0 == ipc::Buffer { offset: 0, len: old(buffer)@.len() as usize });
            assert(query == ReadQueryParameters { handle: handle, buffer: ipc::Buffer { offset: 0, len: old(buffer)@.len() as usize }, offset: offset });
            assert(call.requires((&self.ipc(), Type::Read, query, query_handles)));
        }
        let ghost args = (&self.ipc_client, Type::Read, query, query_handles);
        let (mut lent, res) = call(&self.ipc_client, Type::Read, query, query_handles);
        let ghost lent_view = lent@;
        proof {
            assert(call.ensures(args, (lent, res)));
            assert(ipc::keeps_lent_size(args.3@, lent_view, ReadQueryParameters::HANDLE_BUFFER_MOBJ as int));
        }
        let back = lent.take(ReadQueryParameters::HANDLE_BUFFER_MOBJ);
        match back {
            KHandle::MemoryObject(m) => {
                put_bytes(buffer, 0, m.as_slice());
                proof {
                    assert(buffer@ =~= m@);
                }
            },
            _ => {
                proof {
                    assert(false);
                }
            },
        }
        match res {
            Ok((reply, _reply_handles)) => Ok(reply.bytes_read),
            Err(e) => Err(e),
        }
    }

    /// call ipc List
    ///
    /// The server writes into a buffer lent for the call; while it answers that
    /// the buffer is too small, the call is made again with one twice as large.
    pub fn list<F>(&self, handle: Handle, call: F) -> (r: Result<Vec<DirectoryEntry>, VfsServerCallError>)
        where
            F: Fn(&ipc::Client, Type, ListQueryParameters, KHandles) -> (KHandles, Result<(ListReply, KHandles), VfsServerCallError>),
        requires
            forall|size: usize, h: KHandles| #![trigger h@, ipc::zeroed_handle(ListQueryParameters::HANDLE_BUFFER_MOBJ as int, size)]
                h@ == ipc::zeroed_handle(ListQueryParameters::HANDLE_BUFFER_MOBJ as int, size) ==> call.requires((&self.ipc(), Type::List, ListQueryParameters { handle: handle, buffer: ipc::Buffer { offset: 0, len: size } }, h)),
            forall|a: (&ipc::Client, Type, ListQueryParameters, KHandles), out: (KHandles, Result<(ListReply, KHandles), VfsServerCallError>)| #[trigger] call.ensures(a, out) && out.1 is Ok ==> {
                &&& ipc::keeps_lent_size(a.3@, out.0@, ListQueryParameters::HANDLE_BUFFER_MOBJ as int)
                &&& out.1->Ok_0.0.buffer_used_len <= ipc::slot_bytes(out.0@, ListQueryParameters::HANDLE_BUFFER_MOBJ as int).len()
                &&& dentries_block::list_reply_ok(ipc::used_bytes(out.0@, ListQueryParameters::HANDLE_BUFFER_MOBJ as int, out.1->Ok_0.0.buffer_used_len))
            },
        ensures
            r is Ok ==> exists|size: usize, h: KHandles, out: (KHandles, Result<(ListReply, KHandles), VfsServerCallError>)| {
                &&& h@ == ipc::zeroed_handle(ListQueryParameters::HANDLE_BUFFER_MOBJ as int, size)
                &&& #[trigger] call.ensures((&self.ipc(), Type::List, ListQueryParameters { handle: handle, buffer: ipc::Buffer { offset: 0, len: size } }, h), out)
                &&& exists|tried: Seq<usize>| #[trigger] ipc::grow_schedule(tried, 256) && tried.last() == size
                    && forall|i: int| 0 <= i < tried.len() - 1 ==> #[trigger] ipc::answered_with(call, &self.ipc(), Type::List, ListQueryParameters { handle: handle, buffer: ipc::Buffer { offset: 0, len: tried[i] } }, ListQueryParameters::HANDLE_BUFFER_MOBJ as int, tried[i], CallError::ReplyError(VfsServerError::BufferTooSmall))
                &&& out.1 matches Ok(rep) && dentries_block::entries_view(r->Ok_0@) == dentries_block::dentries_of(ipc::used_bytes(out.0@, ListQueryParameters::HANDLE_BUFFER_MOBJ as int, rep.0.buffer_used_len))
            },
            r matches Err(e) ==> exists|size: usize, h: KHandles, out: (KHandles, Result<(ListReply, KHandles), VfsServerCallError>)| {
                &&& h@ == ipc::zeroed_handle(ListQueryParameters::HANDLE_BUFFER_MOBJ as int, size)
                &&& #[trigger] call.ensures((&self.ipc(), Type::List, ListQueryParameters { handle: handle, buffer: ipc::Buffer { offset: 0, len: size } }, h), out)
                &&& exists|tried: Seq<usize>| #[trigger] ipc::grow_schedule(tried, 256) && tried.last() == size
                    && forall|i: int| 0 <= i < tried.len() - 1 ==> #[trigger] ipc::answered_with(call, &self.ipc(), Type::List, ListQueryParameters { handle: handle, buffer: ipc::Buffer { offset: 0, len: tried[i] } }, ListQueryParameters::HANDLE_BUFFER_MOBJ as int, tried[i], CallError::ReplyError(VfsServerError::BufferTooSmall))
                &&& out.1 == Err::<(ListReply, KHandles), VfsServerCallError>(e)
                &&& (e == CallError::<VfsServerError>::ReplyError(VfsServerError::BufferTooSmall) ==> size > usize::MAX / 2)
            },
    {
        let mut size: usize = 256;
        let ghost mut tried: Seq<usize> = seq![size];
        loop
            invariant
                size > 0,
                ipc::grow_schedule(tried, 256),
                tried.last() == size,
                forall|i: int| 0 <= i < tried.len() - 1 ==> #[trigger] ipc::answered_with(call, &self.ipc(), Type::List, ListQueryParameters { handle: handle, buffer: ipc::Buffer { offset: 0, len: tried[i] } }, ListQueryParameters::HANDLE_BUFFER_MOBJ as int, tried[i], CallError::ReplyError(VfsServerError::BufferTooSmall)),
                forall|size: usize, h: KHandles| #![trigger h@, ipc::zeroed_handle(ListQueryParameters::HANDLE_BUFFER_MOBJ as int, size)]
                    h@ == ipc::zeroed_handle(ListQueryParameters::HANDLE_BUFFER_MOBJ as int, size) ==> call.requires((&self.ipc(), Type::List, ListQueryParameters { handle: handle, buffer: ipc::Buffer { offset: 0, len: size } }, h)),
                forall|a: (&ipc::Client, Type, ListQueryParameters, KHandles), out: (KHandles, Result<(ListReply, KHandles), VfsServerCallError>)| #[trigger] call.ensures(a, out) && out.1 is Ok ==> {
                    &&& ipc::keeps_lent_size(a.3@, out.0@, ListQueryParameters::HANDLE_BUFFER_MOBJ as int)
                    &&& out.1->Ok_0.0.buffer_used_len <= ipc::slot_bytes(out.0@, ListQueryParameters::HANDLE_BUFFER_MOBJ as int).len()
                    &&& dentries_block::list_reply_ok(ipc::used_bytes(out.0@, ListQueryParameters::HANDLE_BUFFER_MOBJ as int, out.1->Ok_0.0.buffer_used_len))
                },
            decreases usize::MAX - size,
        {
            let (m, b) = ipc::share_zeroed(size);
            let query = ListQueryParameters { handle: handle, buffer: b };
            let mut query_handles = KHandles::new();
            query_handles.set(ListQueryParameters::HANDLE_BUFFER_MOBJ, KHandle::MemoryObject(m));
            proof {
                assert(query_handles@ == ipc::zeroed_handle(ListQueryParameters::HANDLE_BUFFER_MOBJ as int, size));
            }
            let ghost sent = query_handles@;
            let ghost sent_h = query_handles;
            let (mut lent, res) = call(&self.ipc_client, Type::List, query, query_handles);
            let ghost outv = (lent, res);
            let ghost q = ListQueryParameters { handle: handle, buffer: ipc::Buffer { offset: 0, len: size } };
            proof {
                assert(call.ensures((&self.ipc(), Type::List, q, sent_h), outv));
            }
            match res {
                Err(CallError::ReplyError(VfsServerError::BufferTooSmall)) => match ipc::grown_size(size) {
                    Some(n) => {
                        proof {
                            let ghost prev = tried;
                            tried = tried.push(n);
                            assert(ipc::answered_with(call, &self.ipc(), Type::List, ListQueryParameters { handle: handle, buffer: ipc::Buffer { offset: 0, len: size } }, ListQueryParameters::HANDLE_BUFFER_MOBJ as int, size, CallError::ReplyError(VfsServerError::BufferTooSmall)));
                            assert forall|i: int| 0 <= i < tried.len() - 1 implies #[trigger] ipc::answered_with(call, &self.ipc(), Type::List, ListQueryParameters { handle: handle, buffer: ipc::Buffer { offset: 0, len: tried[i] } }, ListQueryParameters::HANDLE_BUFFER_MOBJ as int, tried[i], CallError::ReplyError(VfsServerError::BufferTooSmall)) by {
                                if i < prev.len() - 1 {
                                    assert(tried[i] == prev[i]);
                                }
                            }
                            assert forall|i: int| 0 < i < tried.len() implies #[trigger] tried[i] == 2 * tried[i - 1] by {
                                if i < prev.len() {
                                    assert(tried[i] == prev[i]);
                                }
                            }
                        }
                        size = n;
                    },
                    None => {
                        return Err(CallError::ReplyError(VfsServerError::BufferTooSmall));
                    },
                },
                Err(e) => {
                    return Err(e);
                },
                Ok((reply, _reply_handles)) => {
                    let ghost back = lent@;
                    proof {
                        assert(ipc::keeps_lent_size(sent, back, ListQueryParameters::HANDLE_BUFFER_MOBJ as int));
                    }
                    let bytes = ipc::take_used(lent.take(ListQueryParameters::HANDLE_BUFFER_MOBJ), reply.buffer_used_len);
                    match DentriesBlock::read(bytes.as_slice()) {
                        Ok(v) => {
                            return Ok(v);
                        },
                        Err(_) => {
                            proof {
                                assert(false);
                            }
                            return Err(CallError::KernelError(0));
                        },
                    }
                },
            }
        }
    }

    /// call ipc ReadSymlink
    ///
    /// The server writes into a buffer lent for the call; while it answers that
    /// the buffer is too small, the call is made again with one twice as large.
    pub fn read_symlink<F>(&self, handle: Handle, call: F) -> (r: Result<String, VfsServerCallError>)
        where
            F: Fn(&ipc::Client, Type, ReadSymlinkQueryParameters, KHandles) -> (KHandles, Result<(ReadSymlinkReply, KHandles), VfsServerCallError>),
        requires
            forall|size: usize, h: KHandles| #![trigger h@, ipc::zeroed_handle(ReadSymlinkQueryParameters::HANDLE_BUFFER_MOBJ as int, size)]
                h@ == ipc::zeroed_handle(ReadSymlinkQueryParameters::HANDLE_BUFFER_MOBJ as int, size) ==> call.requires((&self.ipc(), Type::ReadSymlink, ReadSymlinkQueryParameters { handle: handle, buffer: ipc::Buffer { offset: 0, len: size } }, h)),
            forall|a: (&ipc::Client, Type, ReadSymlinkQueryParameters, KHandles), out: (KHandles, Result<(ReadSymlinkReply, KHandles), VfsServerCallError>)| #[trigger] call.ensures(a, out) && out.1 is Ok ==> {
                &&& ipc::keeps_lent_size(a.3@, out.0@, ReadSymlinkQueryParameters::HANDLE_BUFFER_MOBJ as int)
                &&& out.1->Ok_0.0.target_length <= ipc::slot_bytes(out.0@, ReadSymlinkQueryParameters::HANDLE_BUFFER_MOBJ as int).len()
                &&& valid_utf8(ipc::used_bytes(out.0@, ReadSymlinkQueryParameters::HANDLE_BUFFER_MOBJ as int, out.1->Ok_0.0.target_length))
            },
        ensures
            r is Ok ==> exists|size: usize, h: KHandles, out: (KHandles, Result<(ReadSymlinkReply, KHandles), VfsServerCallError>)| {
                &&& h@ == ipc::zeroed_handle(ReadSymlinkQueryParameters::HANDLE_BUFFER_MOBJ as int, size)
                &&& #[trigger] call.ensures((&self.ipc(), Type::ReadSymlink, ReadSymlinkQueryParameters { handle: handle, buffer: ipc::Buffer { offset: 0, len: size } }, h), out)
                &&& exists|tried: Seq<usize>| #[trigger] ipc::grow_schedule(tried, 64) && tried.last() == size
                    && forall|i: int| 0 <= i < tried.len() - 1 ==> #[trigger] ipc::answered_with(call, &self.ipc(), Type::ReadSymlink, ReadSymlinkQueryParameters { handle: handle, buffer: ipc::Buffer { offset: 0, len: tried[i] } }, ReadSymlinkQueryParameters::HANDLE_BUFFER_MOBJ as int, tried[i], CallError::ReplyError(VfsServerError::BufferTooSmall))
                &&& out.1 matches Ok(rep) && r->Ok_0@ == decode_utf8(ipc::used_bytes(out.0@, ReadSymlinkQueryParameters::HANDLE_BUFFER_MOBJ as int, rep.0.target_length))
            },
            r matches Err(e) ==> exists|size: usize, h: KHandles, out: (KHandles, Result<(ReadSymlinkReply, KHandles), VfsServerCallError>)| {
                &&& h@ == ipc::zeroed_handle(ReadSymlinkQueryParameters::HANDLE_BUFFER_MOBJ as int, size)
                &&& #[trigger] call.ensures((&self.ipc(), Type::ReadSymlink, ReadSymlinkQueryParameters { handle: handle, buffer: ipc::Buffer { offset: 0, len: size } }, h), out)
                &&& exists|tried: Seq<usize>| #[trigger] ipc::grow_schedule(tried, 64) && tried.last() == size
                    && forall|i: int| 0 <= i < tried.len() - 1 ==> #[trigger] ipc::answered_with(call, &self.ipc(), Type::ReadSymlink, ReadSymlinkQueryParameters { handle: handle, buffer: ipc::Buffer { offset: 0, len: tried[i] } }, ReadSymlinkQueryParameters::HANDLE_BUFFER_MOBJ as int, tried[i], CallError::ReplyError(VfsServerError::BufferTooSmall))
                &&& out.1 == Err::<(ReadSymlinkReply, KHandles), VfsServerCallError>(e)
                &&& (e == CallError::<VfsServerError>::ReplyError(VfsServerError::BufferTooSmall) ==> size > usize::MAX / 2)
            },
    {
        let mut size: usize = 64;
        let ghost mut tried: Seq<usize> = seq![size];
        loop
            invariant
                size > 0,
                ipc::grow_schedule(tried, 64),
                tried.last() == size,
                forall|i: int| 0 <= i < tried.len() - 1 ==> #[trigger] ipc::answered_with(call, &self.ipc(), Type::ReadSymlink, ReadSymlinkQueryParameters { handle: handle, buffer: ipc::Buffer { offset: 0, len: tried[i] } }, ReadSymlinkQueryParameters::HANDLE_BUFFER_MOBJ as int, tried[i], CallError::ReplyError(VfsServerError::BufferTooSmall)),
                forall|size: usize, h: KHandles| #![trigger h@, ipc::zeroed_handle(ReadSymlinkQueryParameters::HANDLE_BUFFER_MOBJ as int, size)]
                    h@ == ipc::zeroed_handle(ReadSymlinkQueryParameters::HANDLE_BUFFER_MOBJ as int, size) ==> call.requires((&self.ipc(), Type::ReadSymlink, ReadSymlinkQueryParameters { handle: handle, buffer: ipc::Buffer { offset: 0, len: size } }, h)),
                forall|a: (&ipc::Client, Type, ReadSymlinkQueryParameters, KHandles), out: (KHandles, Result<(ReadSymlinkReply, KHandles), VfsServerCallError>)| #[trigger] call.ensures(a, out) && out.1 is Ok ==> {
                    &&& ipc::keeps_lent_size(a.3@, out.0@, ReadSymlinkQueryParameters::HANDLE_BUFFER_MOBJ as int)
                    &&& out.1->Ok_0.0.target_length <= ipc::slot_bytes(out.0@, ReadSymlinkQueryParameters::HANDLE_BUFFER_MOBJ as int).len()
                    &&& valid_utf8(ipc::used_bytes(out.0@, ReadSymlinkQueryParameters::HANDLE_BUFFER_MOBJ as int, out.1->Ok_0.0.target_length))
                },
            decreases usize::MAX - size,
        {
            let (m, b) = ipc::share_zeroed(size);
            let query = ReadSymlinkQueryParameters { handle: handle, buffer: b };
            let mut query_handles = KHandles::new();
            query_handles.set(ReadSymlinkQueryParameters::HANDLE_BUFFER_MOBJ, KHandle::MemoryObject(m));
            proof {
                assert(query_handles@ == ipc::zeroed_handle(ReadSymlinkQueryParameters::HANDLE_BUFFER_MOBJ as int, size));
            }
            let ghost sent = query_handles@;
            let ghost sent_h = query_handles;
            let (mut lent, res) = call(&self.ipc_client, Type::ReadSymlink, query, query_handles);
            let ghost outv = (lent, res);
            let ghost q = ReadSymlinkQueryParameters { handle: handle, buffer: ipc::Buffer { offset: 0, len: size } };
            proof {
                assert(call.ensures((&self.ipc(), Type::ReadSymlink, q, sent_h), outv));
            }
            match res {
                Err(CallError::ReplyError(VfsServerError::BufferTooSmall)) => match ipc::grown_size(size) {
                    Some(n) => {
                        proof {
                            let ghost prev = tried;
                            tried = tried.push(n);
                            assert(ipc::answered_with(call, &self.ipc(), Type::ReadSymlink, ReadSymlinkQueryParameters { handle: handle, buffer: ipc::Buffer { offset: 0, len: size } }, ReadSymlinkQueryParameters::HANDLE_BUFFER_MOBJ as int, size, CallError::ReplyError(VfsServerError::BufferTooSmall)));
                            assert forall|i: int| 0 <= i < tried.len() - 1 implies #[trigger] ipc::answered_with(call, &self.ipc(), Type::ReadSymlink, ReadSymlinkQueryParameters { handle: handle, buffer: ipc::Buffer { offset: 0, len: tried[i] } }, ReadSymlinkQueryParameters::HANDLE_BUFFER_MOBJ as int, tried[i], CallError::ReplyError(VfsServerError::BufferTooSmall)) by {
                                if i < prev.len() - 1 {
                                    assert(tried[i] == prev[i]);
                                }
                            }
                            assert forall|i: int| 0 < i < tried.len() implies #[trigger] tried[i] == 2 * tried[i - 1] by {
                                if i < prev.len() {
                                    assert(tried[i] == prev[i]);
                                }
                            }
                        }
                        size = n;
                    },
                    None => {
                        return Err(CallError::ReplyError(VfsServerError::BufferTooSmall));
                    },
                },
                Err(e) => {
                    return Err(e);
                },
                Ok((reply, _reply_handles)) => {
                    let ghost back = lent@;
                    proof {
                        assert(ipc::keeps_lent_size(sent, back, ReadSymlinkQueryParameters::HANDLE_BUFFER_MOBJ as int));
                    }
                    let bytes = ipc::take_used(lent.take(ReadSymlinkQueryParameters::HANDLE_BUFFER_MOBJ), reply.target_length);
                    return Ok(string_from_utf8(bytes.as_slice()));
                },
            }
        }
    }

    /// call ipc ListMounts
    ///
    /// The server writes into a buffer lent for the call; while it answers that
    /// the buffer is too small, the call is made again with one twice as large.
    pub fn list_mounts<F>(&self, call: F) -> (r: Result<Vec<MountInfo>, VfsServerCallError>)
        where
            F: Fn(&ipc::Client, Type, ListMountsQueryParameters, KHandles) -> (KHandles, Result<(ListMountsReply, KHandles), VfsServerCallError>),
        requires
            forall|size: usize, h: KHandles| #![trigger h@, ipc::zeroed_handle(ListMountsQueryParameters::HANDLE_BUFFER_MOBJ as int, size)]
                h@ == ipc::zeroed_handle(ListMountsQueryParameters::HANDLE_BUFFER_MOBJ as int, size) ==> call.requires((&self.ipc(), Type::ListMounts, ListMountsQueryParameters { buffer: ipc::Buffer { offset: 0, len: size } }, h)),
            forall|a: (&ipc::Client, Type, ListMountsQueryParameters, KHandles), out: (KHandles, Result<(ListMountsReply, KHandles), VfsServerCallError>)| #[trigger] call.ensures(a, out) && out.1 is Ok ==> {
                &&& ipc::keeps_lent_size(a.3@, out.0@, ListMountsQueryParameters::HANDLE_BUFFER_MOBJ as int)
                &&& out.1->Ok_0.0.buffer_used_len <= ipc::slot_bytes(out.0@, ListMountsQueryParameters::HANDLE_BUFFER_MOBJ as int).len()
                &&& mounts_block::list_reply_ok(ipc::used_bytes(out.0@, ListMountsQueryParameters::HANDLE_BUFFER_MOBJ as int, out.1->Ok_0.0.buffer_used_len))
            },
        ensures
            r is Ok ==> exists|size: usize, h: KHandles, out: (KHandles, Result<(ListMountsReply, KHandles), VfsServerCallError>)| {
                &&& h@ == ipc::zeroed_handle(ListMountsQueryParameters::HANDLE_BUFFER_MOBJ as int, size)
                &&& #[trigger] call.ensures((&self.ipc(), Type::ListMounts, ListMountsQueryParameters { buffer: ipc::Buffer { offset: 0, len: size } }, h), out)
                &&& exists|tried: Seq<usize>| #[trigger] ipc::grow_schedule(tried, 256) && tried.last() == size
                    && forall|i: int| 0 <= i < tried.len() - 1 ==> #[trigger] ipc::answered_with(call, &self.ipc(), Type::ListMounts, ListMountsQueryParameters { buffer: ipc::Buffer { offset: 0, len: tried[i] } }, ListMountsQueryParameters::HANDLE_BUFFER_MOBJ as int, tried[i], CallError::ReplyError(VfsServerError::BufferTooSmall))
                &&& out.1 matches Ok(rep) && mounts_block::mounts_view(r->Ok_0@) == mounts_block::mounts_of(ipc::used_bytes(out.0@, ListMountsQueryParameters::HANDLE_BUFFER_MOBJ as int, rep.0.buffer_used_len))
            },
            r matches Err(e) ==> exists|size: usize, h: KHandles, out: (KHandles, Result<(ListMountsReply, KHandles), VfsServerCallError>)| {
                &&& h@ == ipc::zeroed_handle(ListMountsQueryParameters::HANDLE_BUFFER_MOBJ as int, size)
                &&& #[trigger] call.ensures((&self.ipc(), Type::ListMounts, ListMountsQueryParameters { buffer: ipc::Buffer { offset: 0, len: size } }, h), out)
                &&& exists|tried: Seq<usize>| #[trigger] ipc::grow_schedule(tried, 256) && tried.last() == size
                    && forall|i: int| 0 <= i < tried.len() - 1 ==> #[trigger] ipc::answered_with(call, &self.ipc(), Type::ListMounts, ListMountsQueryParameters { buffer: ipc::Buffer { offset: 0, len: tried[i] } }, ListMountsQueryParameters::HANDLE_BUFFER_MOBJ as int, tried[i], CallError::ReplyError(VfsServerError::BufferTooSmall))
                &&& out.1 == Err::<(ListMountsReply, KHandles), VfsServerCallError>(e)
                &&& (e == CallError::<VfsServerError>::ReplyError(VfsServerError::BufferTooSmall) ==> size > usize::MAX / 2)
            },
    {
        let mut size: usize = 256;
        let ghost mut tried: Seq<usize> = seq![size];
        loop
            invariant
                size > 0,
                ipc::grow_schedule(tried, 256),
                tried.last() == size,
                forall|i: int| 0 <= i < tried.len() - 1 ==> #[trigger] ipc::answered_with(call, &self.ipc(), Type::ListMounts, ListMountsQueryParameters { buffer: ipc::Buffer { offset: 0, len: tried[i] } }, ListMountsQueryParameters::HANDLE_BUFFER_MOBJ as int, tried[i], CallError::ReplyError(VfsServerError::BufferTooSmall)),
                forall|size: usize, h: KHandles| #![trigger h@, ipc::zeroed_handle(ListMountsQueryParameters::HANDLE_BUFFER_MOBJ as int, size)]
                    h@ == ipc::zeroed_handle(ListMountsQueryParameters::HANDLE_BUFFER_MOBJ as int, size) ==> call.requires((&self.ipc(), Type::ListMounts, ListMountsQueryParameters { buffer: ipc::Buffer { offset: 0, len: size } }, h)),
                forall|a: (&ipc::Client, Type, ListMountsQueryParameters, KHandles), out: (KHandles, Result<(ListMountsReply, KHandles), VfsServerCallError>)| #[trigger] call.ensures(a, out) && out.1 is Ok ==> {
                    &&& ipc::keeps_lent_size(a.3@, out.0@, ListMountsQueryParameters::HANDLE_BUFFER_MOBJ as int)
                    &&& out.1->Ok_0.0.buffer_used_len <= ipc::slot_bytes(out.0@, ListMountsQueryParameters::HANDLE_BUFFER_MOBJ as int).len()
                    &&& mounts_block::list_reply_ok(ipc::used_bytes(out.0@, ListMountsQueryParameters::HANDLE_BUFFER_MOBJ as int, out.1->Ok_0.0.buffer_used_len))
                },
            decreases usize::MAX - size,
        {
            let (m, b) = ipc::share_zeroed(size);
            let query = ListMountsQueryParameters { buffer: b };
            let mut query_handles = KHandles::new();
            query_handles.set(ListMountsQueryParameters::HANDLE_BUFFER_MOBJ, KHandle::MemoryObject(m));
            proof {
                assert(query_handles@ == ipc::zeroed_handle(ListMountsQueryParameters::HANDLE_BUFFER_MOBJ as int, size));
            }
            let ghost sent = query_handles@;
            let ghost sent_h = query_handles;
            let (mut lent, res) = call(&self.ipc_client, Type::ListMounts, query, query_handles);
            let ghost outv = (lent, res);
            let ghost q = ListMountsQueryParameters { buffer: ipc::Buffer { offset: 0, len: size } };
            proof {
                assert(call.ensures((&self.ipc(), Type::ListMounts, q, sent_h), outv));
            }
            match res {
                Err(CallError::ReplyError(VfsServerError::BufferTooSmall)) => match ipc::grown_size(size) {
                    Some(n) => {
                        proof {
                            let ghost prev = tried;
                            tried = tried.push(n);
                            assert(ipc::answered_with(call, &self.ipc(), Type::ListMounts, ListMountsQueryParameters { buffer: ipc::Buffer { offset: 0, len: size } }, ListMountsQueryParameters::HANDLE_BUFFER_MOBJ as int, size, CallError::ReplyError(VfsServerError::BufferTooSmall)));
                            assert forall|i: int| 0 <= i < tried.len() - 1 implies #[trigger] ipc::answered_with(call, &self.ipc(), Type::ListMounts, ListMountsQueryParameters { buffer: ipc::Buffer { offset: 0, len: tried[i] } }, ListMountsQueryParameters::HANDLE_BUFFER_MOBJ as int, tried[i], CallError::ReplyError(VfsServerError::BufferTooSmall)) by {
                                if i < prev.len() - 1 {
                                    assert(tried[i] == prev[i]);
                                }
                            }
                            assert forall|i: int| 0 < i < tried.len() implies #[trigger] tried[i] == 2 * tried[i - 1] by {
                                if i < prev.len() {
                                    assert(tried[i] == prev[i]);
                                }
                            }
                        }
                        size = n;
                    },
                    None => {
                        return Err(CallError::ReplyError(VfsServerError::BufferTooSmall));
                    },
                },
                Err(e) => {
                    return Err(e);
                },
                Ok((reply, _reply_handles)) => {
                    let ghost back = lent@;
                    proof {
                        assert(ipc::keeps_lent_size(sent, back, ListMountsQueryParameters::HANDLE_BUFFER_MOBJ as int));
                    }
                    let bytes = ipc::take_used(lent.take(ListMountsQueryParameters::HANDLE_BUFFER_MOBJ), reply.buffer_used_len);
                    match MountsBlock::read(bytes.as_slice()) {
                        Ok(v) => {
                            return Ok(v);
                        },
                        Err(_) => {
                            proof {
                                assert(false);
                            }
                            return Err(CallError::KernelError(0));
                        },
                    }
                },
            }
        }
    }
}

} // verus!
