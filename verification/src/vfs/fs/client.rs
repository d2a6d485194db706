//! Low level client of a file system server.
use vstd::prelude::*;
use vstd::string::StringSliceAdditionalSpecFns;
use crate::ipc::{self, CallError, KHandle, KHandles, HandleView, Handle, no_handles};
use crate::kobject::{MemoryObject, PortSender};
use super::messages::{
    Type, FsServerError, LookupQueryParameters, LookupReply, CreateQueryParameters, CreateReply,
    RemoveQueryParameters, RemoveReply, MoveQueryParameters, MoveReply, GetMetadataQueryParameters,
    GetMetadataReply, SetMetadataQueryParameters, SetMetadataReply, OpenFileQueryParameters, OpenFileReply,
    CloseFileQueryParameters, CloseFileReply, ReadFileQueryParameters, ReadFileReply, WriteFileQueryParameters,
    WriteFileReply, OpenDirQueryParameters, OpenDirReply, CloseDirQueryParameters, CloseDirReply,
    ListDirQueryParameters, ListDirReply, CreateSymlinkQueryParameters, CreateSymlinkReply,
    ReadSymlinkQueryParameters, ReadSymlinkReply, MountQueryParameters, MountReply, UnmountQueryParameters,
    UnmountReply, VERSION,
};
use crate::vfs::types::{Metadata, NodeId, NodeType, Permissions};
use crate::vfs::dentries_block::{self, DentriesBlock, DirectoryEntry};
use crate::layout::put_bytes;
use crate::text::string_from_utf8;
use vstd::utf8::{valid_utf8, decode_utf8};

verus! {

pub type FsServerCallError = CallError<FsServerError>;

/// Low level FS client implementation.
pub struct Client {
    port_name: String,
    ipc_client: ipc::Client,
}

impl Client {
    /// The port and version this client talks to.
    pub closed spec fn ipc(&self) -> ipc::Client {
        self.ipc_client
    }

    /// Creates a new FS client.
    pub fn new(port: &str) -> (r: Self)
        ensures
            r.ipc().spec_port_name() == port@,
            r.ipc().spec_version() == VERSION,
    {
        Self { port_name: port.to_owned(), ipc_client: ipc::Client::new(port, VERSION) }
    }

    /// call ipc Lookup
    pub fn lookup<F>(&self, mount_handle: Handle, parent: NodeId, name: &str, call: F) -> (r: Result<NodeId, FsServerCallError>)
        where
            F: FnOnce(&ipc::Client, Type, LookupQueryParameters, KHandles) -> (KHandles, Result<(LookupReply, KHandles), FsServerCallError>),
        requires
            forall|h: KHandles| #![trigger h@] h@ == no_handles().update(LookupQueryParameters::HANDLE_NAME_MOBJ as int, HandleView::Memory(name.spec_bytes())) ==> call.requires((&self.ipc(), Type::Lookup, LookupQueryParameters { mount_handle: mount_handle, parent: parent, name: (ipc::Buffer { offset: 0, len: (name.spec_bytes()).len() as usize }) }, h)),
        ensures
            exists|h: KHandles, out: (KHandles, Result<(LookupReply, KHandles), FsServerCallError>)| {
                &&& h@ == no_handles().update(LookupQueryParameters::HANDLE_NAME_MOBJ as int, HandleView::Memory(name.spec_bytes()))
                &&& #[trigger] call.ensures((&self.ipc(), Type::Lookup, LookupQueryParameters { mount_handle: mount_handle, parent: parent, name: (ipc::Buffer { offset: 0, len: (name.spec_bytes()).len() as usize }) }, h), out)
                &&& r == match out.1 {
                    Ok(rep) => Ok::<NodeId, FsServerCallError>(rep.0.node_id),
                    Err(e) => Err::<NodeId, FsServerCallError>(e),
                }
            },
    {
        let (m0, b0) = ipc::share_bytes(name.as_bytes());
        let query = LookupQueryParameters { mount_handle: mount_handle, parent: parent, name: b0 };
        let mut query_handles = KHandles::new();
        query_handles.set(LookupQueryParameters::HANDLE_NAME_MOBJ, KHandle::MemoryObject(m0));
        let (_lent, res) = call(&self.ipc_client, Type::Lookup, query, query_handles);
        match res {
            Ok((reply, _reply_handles)) => Ok(reply.node_id),
            Err(e) => Err(e),
        }
    }

    /// call ipc Create
    pub fn create<F>(&self, mount_handle: Handle, parent: NodeId, name: &str, node_type: NodeType, permissions: Permissions, call: F) -> (r: Result<NodeId, FsServerCallError>)
        where
            F: FnOnce(&ipc::Client, Type, CreateQueryParameters, KHandles) -> (KHandles, Result<(CreateReply, KHandles), FsServerCallError>),
        requires
            forall|h: KHandles| #![trigger h@] h@ == no_handles().update(CreateQueryParameters::HANDLE_NAME_MOBJ as int, HandleView::Memory(name.spec_bytes())) ==> call.requires((&self.ipc(), Type::Create, CreateQueryParameters { mount_handle: mount_handle, parent: parent, name: (ipc::Buffer { offset: 0, len: (name.spec_bytes()).len() as usize }), node_type: node_type, permissions: permissions }, h)),
        ensures
            exists|h: KHandles, out: (KHandles, Result<(CreateReply, KHandles), FsServerCallError>)| {
                &&& h@ == no_handles().update(CreateQueryParameters::HANDLE_NAME_MOBJ as int, HandleView::Memory(name.spec_bytes()))
                &&& #[trigger] call.ensures((&self.ipc(), Type::Create, CreateQueryParameters { mount_handle: mount_handle, parent: parent, name: (ipc::Buffer { offset: 0, len: (name.spec_bytes()).len() as usize }), node_type: node_type, permissions: permissions }, h), out)
                &&& r == match out.1 {
                    Ok(rep) => Ok::<NodeId, FsServerCallError>(rep.0.node_id),
                    Err(e) => Err::<NodeId, FsServerCallError>(e),
                }
            },
    {
        let (m0, b0) = ipc::share_bytes(name.as_bytes());
        let query = CreateQueryParameters { mount_handle: mount_handle, parent: parent, name: b0, node_type: node_type, permissions: permissions };
        let mut query_handles = KHandles::new();
        query_handles.set(CreateQueryParameters::HANDLE_NAME_MOBJ, KHandle::MemoryObject(m0));
        let (_lent, res) = call(&self.ipc_client, Type::Create, query, query_handles);
        match res {
            Ok((reply, _reply_handles)) => Ok(reply.node_id),
            Err(e) => Err(e),
        }
    }

    /// call ipc Remove
    pub fn remove<F>(&self, mount_handle: Handle, parent: NodeId, name: &str, call: F) -> (r: Result<(), FsServerCallError>)
        where
            F: FnOnce(&ipc::Client, Type, RemoveQueryParameters, KHandles) -> (KHandles, Result<(RemoveReply, KHandles), FsServerCallError>),
        requires
            forall|h: KHandles| #![trigger h@] h@ == no_handles().update(RemoveQueryParameters::HANDLE_NAME_MOBJ as int, HandleView::Memory(name.spec_bytes())) ==> call.requires((&self.ipc(), Type::Remove, RemoveQueryParameters { mount_handle: mount_handle, parent: parent, name: (ipc::Buffer { offset: 0, len: (name.spec_bytes()).len() as usize }) }, h)),
        ensures
            exists|h: KHandles, out: (KHandles, Result<(RemoveReply, KHandles), FsServerCallError>)| {
                &&& h@ == no_handles().update(RemoveQueryParameters::HANDLE_NAME_MOBJ as int, HandleView::Memory(name.spec_bytes()))
                &&& #[trigger] call.ensures((&self.ipc(), Type::Remove, RemoveQueryParameters { mount_handle: mount_handle, parent: parent, name: (ipc::Buffer { offset: 0, len: (name.spec_bytes()).len() as usize }) }, h), out)
                &&& r == match out.1 {
                    Ok(rep) => Ok::<(), FsServerCallError>(()),
                    Err(e) => Err::<(), FsServerCallError>(e),
                }
            },
    {
        let (m0, b0) = ipc::share_bytes(name.as_bytes());
        let query = RemoveQueryParameters { mount_handle: mount_handle, parent: parent, name: b0 };
        let mut query_handles = KHandles::new();
        query_handles.set(RemoveQueryParameters::HANDLE_NAME_MOBJ, KHandle::MemoryObject(m0));
        let (_lent, res) = call(&self.ipc_client, Type::Remove, query, query_handles);
        match res {
            Ok((reply, _reply_handles)) => Ok(()),
            Err(e) => Err(e),
        }
    }

    /// call ipc Move
    pub fn move_node<F>(&self, mount_handle: Handle, src_parent: NodeId, src_name: &str, dst_parent: NodeId, dst_name: &str, call: F) -> (r: Result<(), FsServerCallError>)
        where
            F: FnOnce(&ipc::Client, Type, MoveQueryParameters, KHandles) -> (KHandles, Result<(MoveReply, KHandles), FsServerCallError>),
        requires
            forall|h: KHandles| #![trigger h@] h@ == no_handles().update(MoveQueryParameters::HANDLE_SRC_NAME_MOBJ as int, HandleView::Memory(src_name.spec_bytes())).update(MoveQueryParameters::HANDLE_DST_NAME_MOBJ as int, HandleView::Memory(dst_name.spec_bytes())) ==> call.requires((&self.ipc(), Type::Move, MoveQueryParameters { mount_handle: mount_handle, src_parent: src_parent, src_name: (ipc::Buffer { offset: 0, len: (src_name.spec_bytes()).len() as usize }), dst_parent: dst_parent, dst_name: (ipc::Buffer { offset: 0, len: (dst_name.spec_bytes()).len() as usize }) }, h)),
        ensures
            exists|h: KHandles, out: (KHandles, Result<(MoveReply, KHandles), FsServerCallError>)| {
                &&& h@ == no_handles().update(MoveQueryParameters::HANDLE_SRC_NAME_MOBJ as int, HandleView::Memory(src_name.spec_bytes())).update(MoveQueryParameters::HANDLE_DST_NAME_MOBJ as int, HandleView::Memory(dst_name.spec_bytes()))
                &&& #[trigger] call.ensures((&self.ipc(), Type::Move, MoveQueryParameters { mount_handle: mount_handle, src_parent: src_parent, src_name: (ipc::Buffer { offset: 0, len: (src_name.spec_bytes()).len() as usize }), dst_parent: dst_parent, dst_name: (ipc::Buffer { offset: 0, len: (dst_name.spec_bytes()).len() as usize }) }, h), out)
                &&& r == match out.1 {
                    Ok(rep) => Ok::<(), FsServerCallError>(()),
                    Err(e) => Err::<(), FsServerCallError>(e),
                }
            },
    {
        let (m0, b0) = ipc::share_bytes(src_name.as_bytes());
        let (m1, b1) = ipc::share_bytes(dst_name.as_bytes());
        let query = MoveQueryParameters { mount_handle: mount_handle, src_parent: src_parent, src_name: b0, dst_parent: dst_parent, dst_name: b1 };
        let mut query_handles = KHandles::new();
        query_handles.set(MoveQueryParameters::HANDLE_SRC_NAME_MOBJ, KHandle::MemoryObject(m0));
        query_handles.set(MoveQueryParameters::HANDLE_DST_NAME_MOBJ, KHandle::MemoryObject(m1));
        let (_lent, res) = call(&self.ipc_client, Type::Move, query, query_handles);
        match res {
            Ok((reply, _reply_handles)) => Ok(()),
            Err(e) => Err(e),
        }
    }

    /// call ipc GetMetadata
    pub fn get_metadata<F>(&self, mount_handle: Handle, node_id: NodeId, call: F) -> (r: Result<Metadata, FsServerCallError>)
        where
            F: FnOnce(&ipc::Client, Type, GetMetadataQueryParameters, KHandles) -> (KHandles, Result<(GetMetadataReply, KHandles), FsServerCallError>),
        requires
            forall|h: KHandles| #![trigger h@] h@ == no_handles() ==> call.requires((&self.ipc(), Type::GetMetadata, GetMetadataQueryParameters { mount_handle: mount_handle, node_id: node_id }, h)),
        ensures
            exists|h: KHandles, out: (KHandles, Result<(GetMetadataReply, KHandles), FsServerCallError>)| {
                &&& h@ == no_handles()
                &&& #[trigger] call.ensures((&self.ipc(), Type::GetMetadata, GetMetadataQueryParameters { mount_handle: mount_handle, node_id: node_id }, h), out)
                &&& r == match out.1 {
                    Ok(rep) => Ok::<Metadata, FsServerCallError>(rep.0.metadata),
                    Err(e) => Err::<Metadata, FsServerCallError>(e),
                }
            },
    {
        let query = GetMetadataQueryParameters { mount_handle: mount_handle, node_id: node_id };
        let mut query_handles = KHandles::new();
        let (_lent, res) = call(&self.ipc_client, Type::GetMetadata, query, query_handles);
        match res {
            Ok((reply, _reply_handles)) => Ok(reply.metadata),
            Err(e) => Err(e),
        }
    }

    /// call ipc SetMetadata
    pub fn set_metadata<F>(&self, mount_handle: Handle, node_id: NodeId, permissions: Option<Permissions>, size: Option<usize>, created: Option<u64>, modified: Option<u64>, call: F) -> (r: Result<(), FsServerCallError>)
        where
            F: FnOnce(&ipc::Client, Type, SetMetadataQueryParameters, KHandles) -> (KHandles, Result<(SetMetadataReply, KHandles), FsServerCallError>),
        requires
            forall|h: KHandles| #![trigger h@] h@ == no_handles() ==> call.requires((&self.ipc(), Type::SetMetadata, SetMetadataQueryParameters { mount_handle: mount_handle, node_id: node_id, permissions: permissions, size: size, created: created, modified: modified }, h)),
        ensures
            exists|h: KHandles, out: (KHandles, Result<(SetMetadataReply, KHandles), FsServerCallError>)| {
                &&& h@ == no_handles()
                &&& #[trigger] call.ensures((&self.ipc(), Type::SetMetadata, SetMetadataQueryParameters { mount_handle: mount_handle, node_id: node_id, permissions: permissions, size: size, created: created, modified: modified }, h), out)
                &&& r == match out.1 {
                    Ok(rep) => Ok::<(), FsServerCallError>(()),
                    Err(e) => Err::<(), FsServerCallError>(e),
                }
            },
    {
        let query = SetMetadataQueryParameters { mount_handle: mount_handle, node_id: node_id, permissions: permissions, size: size, created: created, modified: modified };
        let mut query_handles = KHandles::new();
        let (_lent, res) = call(&self.ipc_client, Type::SetMetadata, query, query_handles);
        match res {
            Ok((reply, _reply_handles)) => Ok(()),
            Err(e) => Err(e),
        }
    }

    /// call ipc OpenFile
    pub fn open_file<F>(&self, mount_handle: Handle, node_id: NodeId, open_permissions: Permissions, call: F) -> (r: Result<Handle, FsServerCallError>)
        where
            F: FnOnce(&ipc::Client, Type, OpenFileQueryParameters, KHandles) -> (KHandles, Result<(OpenFileReply, KHandles), FsServerCallError>),
        requires
            forall|h: KHandles| #![trigger h@] h@ == no_handles() ==> call.requires((&self.ipc(), Type::OpenFile, OpenFileQueryParameters { mount_handle: mount_handle, node_id: node_id, open_permissions: open_permissions }, h)),
        ensures
            exists|h: KHandles, out: (KHandles, Result<(OpenFileReply, KHandles), FsServerCallError>)| {
                &&& h@ == no_handles()
                &&& #[trigger] call.ensures((&self.ipc(), Type::OpenFile, OpenFileQueryParameters { mount_handle: mount_handle, node_id: node_id, open_permissions: open_permissions }, h), out)
                &&& r == match out.1 {
                    Ok(rep) => Ok::<Handle, FsServerCallError>(rep.0.handle),
                    Err(e) => Err::<Handle, FsServerCallError>(e),
                }
            },
    {
        let query = OpenFileQueryParameters { mount_handle: mount_handle, node_id: node_id, open_permissions: open_permissions };
        let mut query_handles = KHandles::new();
        let (_lent, res) = call(&self.ipc_client, Type::OpenFile, query, query_handles);
        match res {
            Ok((reply, _reply_handles)) => Ok(reply.handle),
            Err(e) => Err(e),
        }
    }

    /// call ipc CloseFile
    pub fn close_file<F>(&self, mount_handle: Handle, handle: Handle, call: F) -> (r: Result<(), FsServerCallError>)
        where
            F: FnOnce(&ipc::Client, Type, CloseFileQueryParameters, KHandles) -> (KHandles, Result<(CloseFileReply, KHandles), FsServerCallError>),
        requires
            forall|h: KHandles| #![trigger h@] h@ == no_handles() ==> call.requires((&self.ipc(), Type::CloseFile, CloseFileQueryParameters { mount_handle: mount_handle, handle: handle }, h)),
        ensures
            exists|h: KHandles, out: (KHandles, Result<(CloseFileReply, KHandles), FsServerCallError>)| {
                &&& h@ == no_handles()
                &&& #[trigger] call.ensures((&self.ipc(), Type::CloseFile, CloseFileQueryParameters { mount_handle: mount_handle, handle: handle }, h), out)
                &&& r == match out.1 {
                    Ok(rep) => Ok::<(), FsServerCallError>(()),
                    Err(e) => Err::<(), FsServerCallError>(e),
                }
            },
    {
        let query = CloseFileQueryParameters { mount_handle: mount_handle, handle: handle };
        let mut query_handles = KHandles::new();
        let (_lent, res) = call(&self.ipc_client, Type::CloseFile, query, query_handles);
        match res {
            Ok((reply, _reply_handles)) => Ok(()),
            Err(e) => Err(e),
        }
    }

    /// call ipc WriteFile
    pub fn write_file<F>(&self, mount_handle: Handle, handle: Handle, offset: usize, buffer: &[u8], call: F) -> (r: Result<usize, FsServerCallError>)
        where
            F: FnOnce(&ipc::Client, Type, WriteFileQueryParameters, KHandles) -> (KHandles, Result<(WriteFileReply, KHandles), FsServerCallError>),
        requires
            forall|h: KHandles| #![trigger h@] h@ == no_handles().update(WriteFileQueryParameters::HANDLE_BUFFER_MOBJ as int, HandleView::Memory(buffer@)) ==> call.requires((&self.ipc(), Type::WriteFile, WriteFileQueryParameters { mount_handle: mount_handle, handle: handle, buffer: (ipc::Buffer { offset: 0, len: (buffer@).len() as usize }), offset: offset }, h)),
        ensures
            exists|h: KHandles, out: (KHandles, Result<(WriteFileReply, KHandles), FsServerCallError>)| {
                &&& h@ == no_handles().update(WriteFileQueryParameters::HANDLE_BUFFER_MOBJ as int, HandleView::Memory(buffer@))
                &&& #[trigger] call.ensures((&self.ipc(), Type::WriteFile, WriteFileQueryParameters { mount_handle: mount_handle, handle: handle, buffer: (ipc::Buffer { offset: 0, len: (buffer@).len() as usize }), offset: offset }, h), out)
                &&& r == match out.1 {
                    Ok(rep) => Ok::<usize, FsServerCallError>(rep.0.bytes_written),
                    Err(e) => Err::<usize, FsServerCallError>(e),
                }
            },
    {
        let (m0, b0) = ipc::share_bytes(buffer);
        let query = WriteFileQueryParameters { mount_handle: mount_handle, handle: handle, buffer: b0, offset: offset };
        let mut query_handles = KHandles::new();
        query_handles.set(WriteFileQueryParameters::HANDLE_BUFFER_MOBJ, KHandle::MemoryObject(m0));
        let (_lent, res) = call(&self.ipc_client, Type::WriteFile, query, query_handles);
        match res {
            Ok((reply, _reply_handles)) => Ok(reply.bytes_written),
            Err(e) => Err(e),
        }
    }

    /// call ipc OpenDir
    pub fn open_dir<F>(&self, mount_handle: Handle, node_id: NodeId, call: F) -> (r: Result<Handle, FsServerCallError>)
        where
            F: FnOnce(&ipc::Client, Type, OpenDirQueryParameters, KHandles) -> (KHandles, Result<(OpenDirReply, KHandles), FsServerCallError>),
        requires
            forall|h: KHandles| #![trigger h@] h@ == no_handles() ==> call.requires((&self.ipc(), Type::OpenDir, OpenDirQueryParameters { mount_handle: mount_handle, node_id: node_id }, h)),
        ensures
            exists|h: KHandles, out: (KHandles, Result<(OpenDirReply, KHandles), FsServerCallError>)| {
                &&& h@ == no_handles()
                &&& #[trigger] call.ensures((&self.ipc(), Type::OpenDir, OpenDirQueryParameters { mount_handle: mount_handle, node_id: node_id }, h), out)
                &&& r == match out.1 {
                    Ok(rep) => Ok::<Handle, FsServerCallError>(rep.0.handle),
                    Err(e) => Err::<Handle, FsServerCallError>(e),
                }
            },
    {
        let query = OpenDirQueryParameters { mount_handle: mount_handle, node_id: node_id };
        let mut query_handles = KHandles::new();
        let (_lent, res) = call(&self.ipc_client, Type::OpenDir, query, query_handles);
        match res {
            Ok((reply, _reply_handles)) => Ok(reply.handle),
            Err(e) => Err(e),
        }
    }

    /// call ipc CloseDir
    pub fn close_dir<F>(&self, mount_handle: Handle, handle: Handle, call: F) -> (r: Result<(), FsServerCallError>)
        where
            F: FnOnce(&ipc::Client, Type, CloseDirQueryParameters, KHandles) -> (KHandles, Result<(CloseDirReply, KHandles), FsServerCallError>),
        requires
            forall|h: KHandles| #![trigger h@] h@ == no_handles() ==> call.requires((&self.ipc(), Type::CloseDir, CloseDirQueryParameters { mount_handle: mount_handle, handle: handle }, h)),
        ensures
            exists|h: KHandles, out: (KHandles, Result<(CloseDirReply, KHandles), FsServerCallError>)| {
                &&& h@ == no_handles()
                &&& #[trigger] call.ensures((&self.ipc(), Type::CloseDir, CloseDirQueryParameters { mount_handle: mount_handle, handle: handle }, h), out)
                &&& r == match out.1 {
                    Ok(rep) => Ok::<(), FsServerCallError>(()),
                    Err(e) => Err::<(), FsServerCallError>(e),
                }
            },
    {
        let query = CloseDirQueryParameters { mount_handle: mount_handle, handle: handle };
        let mut query_handles = KHandles::new();
        let (_lent, res) = call(&self.ipc_client, Type::CloseDir, query, query_handles);
        match res {
            Ok((reply, _reply_handles)) => Ok(()),
            Err(e) => Err(e),
        }
    }

    /// call ipc CreateSymlink
    pub fn create_symlink<F>(&self, mount_handle: Handle, parent: NodeId, name: &str, target: &str, call: F) -> (r: Result<NodeId, FsServerCallError>)
        where
            F: FnOnce(&ipc::Client, Type, CreateSymlinkQueryParameters, KHandles) -> (KHandles, Result<(CreateSymlinkReply, KHandles), FsServerCallError>),
        requires
            forall|h: KHandles| #![trigger h@] h@ == no_handles().update(CreateSymlinkQueryParameters::HANDLE_NAME_MOBJ as int, HandleView::Memory(name.spec_bytes())).update(CreateSymlinkQueryParameters::HANDLE_TARGET_MOBJ as int, HandleView::Memory(target.spec_bytes())) ==> call.requires((&self.ipc(), Type::CreateSymlink, CreateSymlinkQueryParameters { mount_handle: mount_handle, parent: parent, name: (ipc::Buffer { offset: 0, len: (name.spec_bytes()).len() as usize }), target: (ipc::Buffer { offset: 0, len: (target.spec_bytes()).len() as usize }) }, h)),
        ensures
            exists|h: KHandles, out: (KHandles, Result<(CreateSymlinkReply, KHandles), FsServerCallError>)| {
                &&& h@ == no_handles().update(CreateSymlinkQueryParameters::HANDLE_NAME_MOBJ as int, HandleView::Memory(name.spec_bytes())).update(CreateSymlinkQueryParameters::HANDLE_TARGET_MOBJ as int, HandleView::Memory(target.spec_bytes()))
                &&& #[trigger] call.ensures((&self.ipc(), Type::CreateSymlink, CreateSymlinkQueryParameters { mount_handle: mount_handle, parent: parent, name: (ipc::Buffer { offset: 0, len: (name.spec_bytes()).len() as usize }), target: (ipc::Buffer { offset: 0, len: (target.spec_bytes()).len() as usize }) }, h), out)
                &&& r == match out.1 {
                    Ok(rep) => Ok::<NodeId, FsServerCallError>(rep.0.node_id),
                    Err(e) => Err::<NodeId, FsServerCallError>(e),
                }
            },
    {
        let (m0, b0) = ipc::share_bytes(name.as_bytes());
        let (m1, b1) = ipc::share_bytes(target.as_bytes());
        let query = CreateSymlinkQueryParameters { mount_handle: mount_handle, parent: parent, name: b0, target: b1 };
        let mut query_handles = KHandles::new();
        query_handles.set(CreateSymlinkQueryParameters::HANDLE_NAME_MOBJ, KHandle::MemoryObject(m0));
        query_handles.set(CreateSymlinkQueryParameters::HANDLE_TARGET_MOBJ, KHandle::MemoryObject(m1));
        let (_lent, res) = call(&self.ipc_client, Type::CreateSymlink, query, query_handles);
        match res {
            Ok((reply, _reply_handles)) => Ok(reply.node_id),
            Err(e) => Err(e),
        }
    }

    /// call ipc Mount
    pub fn mount<F>(&self, args: &[u8], call: F) -> (r: Result<(Handle, NodeId), FsServerCallError>)
        where
            F: FnOnce(&ipc::Client, Type, MountQueryParameters, KHandles) -> (KHandles, Result<(MountReply, KHandles), FsServerCallError>),
        requires
            forall|h: KHandles| #![trigger h@] h@ == no_handles().update(MountQueryParameters::HANDLE_ARGS_MOBJ as int, HandleView::Memory(args@)) ==> call.requires((&self.ipc(), Type::Mount, MountQueryParameters { args: (ipc::Buffer { offset: 0, len: (args@).len() as usize }) }, h)),
        ensures
            exists|h: KHandles, out: (KHandles, Result<(MountReply, KHandles), FsServerCallError>)| {
                &&& h@ == no_handles().update(MountQueryParameters::HANDLE_ARGS_MOBJ as int, HandleView::Memory(args@))
                &&& #[trigger] call.ensures((&self.ipc(), Type::Mount, MountQueryParameters { args: (ipc::Buffer { offset: 0, len: (args@).len() as usize }) }, h), out)
                &&& r == match out.1 {
                    Ok(rep) => Ok::<(Handle, NodeId), FsServerCallError>((rep.0.mount_handle, rep.0.root_node_id)),
                    Err(e) => Err::<(Handle, NodeId), FsServerCallError>(e),
                }
            },
    {
        let (m0, b0) = ipc::share_bytes(args);
        let query = MountQueryParameters { args: b0 };
        let mut query_handles = KHandles::new();
        query_handles.set(MountQueryParameters::HANDLE_ARGS_MOBJ, KHandle::MemoryObject(m0));
        let (_lent, res) = call(&self.ipc_client, Type::Mount, query, query_handles);
        match res {
            Ok((reply, _reply_handles)) => Ok((reply.mount_handle, reply.root_node_id)),
            Err(e) => Err(e),
        }
    }

    /// call ipc Unmount
    pub fn unmount<F>(&self, mount_handle: Handle, call: F) -> (r: Result<(), FsServerCallError>)
        where
            F: FnOnce(&ipc::Client, Type, UnmountQueryParameters, KHandles) -> (KHandles, Result<(UnmountReply, KHandles), FsServerCallError>),
        requires
            forall|h: KHandles| #![trigger h@] h@ == no_handles() ==> call.requires((&self.ipc(), Type::Unmount, UnmountQueryParameters { mount_handle: mount_handle }, h)),
        ensures
            exists|h: KHandles, out: (KHandles, Result<(UnmountReply, KHandles), FsServerCallError>)| {
                &&& h@ == no_handles()
                &&& #[trigger] call.ensures((&self.ipc(), Type::Unmount, UnmountQueryParameters { mount_handle: mount_handle }, h), out)
                &&& r == match out.1 {
                    Ok(rep) => Ok::<(), FsServerCallError>(()),
                    Err(e) => Err::<(), FsServerCallError>(e),
                }
            },
    {
        let query = UnmountQueryParameters { mount_handle: mount_handle };
        let mut query_handles = KHandles::new();
        let (_lent, res) = call(&self.ipc_client, Type::Unmount, query, query_handles);
        match res {
            Ok((reply, _reply_handles)) => Ok(()),
            Err(e) => Err(e),
        }
    }

    /// call ipc ReadFile
    ///
    /// The buffer is shared with the server for the call: it holds afterwards
    /// what the server wrote into it.
    pub fn read_file<F>(&self, mount_handle: Handle, handle: Handle, offset: usize, buffer: &mut [u8], call: F) -> (r: Result<usize, FsServerCallError>)
        where
            F: FnOnce(&ipc::Client, Type, ReadFileQueryParameters, KHandles) -> (KHandles, Result<(ReadFileReply, KHandles), FsServerCallError>),
        requires
            forall|h: KHandles| h@ == no_handles().update(ReadFileQueryParameters::HANDLE_BUFFER_MOBJ as int, HandleView::Memory(old(buffer)@))
                ==> #[trigger] call.requires((&self.ipc(), Type::ReadFile, ReadFileQueryParameters { mount_handle: mount_handle, handle: handle, buffer: ipc::Buffer { offset: 0, len: old(buffer)@.len() as usize }, offset: offset }, h)),
            forall|a: (&ipc::Client, Type, ReadFileQueryParameters, KHandles), out: (KHandles, Result<(ReadFileReply, KHandles), FsServerCallError>)|
                call.ensures(a, out) ==> ipc::keeps_lent_size(a.3@, out.0@, ReadFileQueryParameters::HANDLE_BUFFER_MOBJ as int),
        ensures
            exists|h: KHandles, out: (KHandles, Result<(ReadFileReply, KHandles), FsServerCallError>)| {
                &&& h@ == no_handles().update(ReadFileQueryParameters::HANDLE_BUFFER_MOBJ as int, HandleView::Memory(old(buffer)@))
                &&& #[trigger] call.ensures((&self.ipc(), Type::ReadFile, ReadFileQueryParameters { mount_handle: mount_handle, handle: handle, buffer: ipc::Buffer { offset: 0, len: old(buffer)@.len() as usize }, offset: offset }, h), out)
                &&& out.0@[ReadFileQueryParameters::HANDLE_BUFFER_MOBJ as int] == HandleView::Memory(final(buffer)@)
                &&& r == match out.1 {
                    Ok(rep) => Ok::<usize, FsServerCallError>(rep.0.bytes_read),
                    Err(e) => Err::<usize, FsServerCallError>(e),
                }
            },
    {
        let (m0, b0) = ipc::share_bytes(buffer);
        let query = ReadFileQueryParameters { mount_handle, handle, buffer: b0, offset };
        let mut query_handles = KHandles::new();
        query_handles.set(ReadFileQueryParameters::HANDLE_BUFFER_MOBJ, KHandle::MemoryObject(m0));
        let ghost sent = query_handles@;
        proof {
            assert(sent == no_handles().update(ReadFileQueryParameters::HANDLE_BUFFER_MOBJ as int, HandleView::Memory(old(buffer)@)));
            assert(b0 == ipc::Buffer { offset: 0, len: old(buffer)@.len() as usize });
            assert(query == ReadFileQueryParameters { mount_handle: mount_handle, handle: handle, buffer: ipc::Buffer { offset: 0, len: old(buffer)@.len() as usize }, offset: offset });
            assert(call.requires((&self.ipc(), Type::ReadFile, query, query_handles)));
        }
        let ghost args = (&self.ipc_client, Type::ReadFile, query, query_handles);
        let (mut lent, res) = call(&self.ipc_client, Type::ReadFile, query, query_handles);
        let ghost lent_view = lent@;
        proof {
            assert(call.ensures(args, (lent, res)));
            assert(ipc::keeps_lent_size(args.3@, lent_view, ReadFileQueryParameters::HANDLE_BUFFER_MOBJ as int));
        }
        let back = lent.take(ReadFileQueryParameters::HANDLE_BUFFER_MOBJ);
        match back {
            KHandle::MemoryObject(m) => {
                put_bytes(buffer, 0, m.as_slice());
                proof {
                    assert(buffer@ =~= m@);
                }
            },
            _ => {
                proof {
                    assert(false);
                }
            },
        }
        match res {
            Ok((reply, _reply_handles)) => Ok(reply.bytes_read),
            Err(e) => Err(e),
        }
    }

    /// call ipc ListDir
    ///
    /// The server writes into a buffer lent for the call; while it answers that
    /// the buffer is too small, the call is made again with one twice as large.
    pub fn list_dir<F>(&self, mount_handle: Handle, handle: Handle, call: F) -> (r: Result<Vec<DirectoryEntry>, FsServerCallError>)
        where
            F: Fn(&ipc::Client, Type, ListDirQueryParameters, KHandles) -> (KHandles, Result<(ListDirReply, KHandles), FsServerCallError>),
        requires
            forall|size: usize, h: KHandles| #![trigger h@, ipc::zeroed_handle(ListDirQueryParameters::HANDLE_BUFFER_MOBJ as int, size)]
                h@ == ipc::zeroed_handle(ListDirQueryParameters::HANDLE_BUFFER_MOBJ as int, size) ==> call.requires((&self.ipc(), Type::ListDir, ListDirQueryParameters { mount_handle: mount_handle, handle: handle, buffer: ipc::Buffer { offset: 0, len: size } }, h)),
            forall|a: (&ipc::Client, Type, ListDirQueryParameters, KHandles), out: (KHandles, Result<(ListDirReply, KHandles), FsServerCallError>)| #[trigger] call.ensures(a, out) && out.1 is Ok ==> {
                &&& ipc::keeps_lent_size(a.3@, out.0@, ListDirQueryParameters::HANDLE_BUFFER_MOBJ as int)
                &&& out.1->Ok_0.0.buffer_used_len <= ipc::slot_bytes(out.0@, ListDirQueryParameters::HANDLE_BUFFER_MOBJ as int).len()
                &&& dentries_block::list_reply_ok(ipc::used_bytes(out.0@, ListDirQueryParameters::HANDLE_BUFFER_MOBJ as int, out.1->Ok_0.0.buffer_used_len))
            },
        ensures
            r is Ok ==> exists|size: usize, h: KHandles, out: (KHandles, Result<(ListDirReply, KHandles), FsServerCallError>)| {
                &&& h@ == ipc::zeroed_handle(ListDirQueryParameters::HANDLE_BUFFER_MOBJ as int, size)
                &&& #[trigger] call.ensures((&self.ipc(), Type::ListDir, ListDirQueryParameters { mount_handle: mount_handle, handle: handle, buffer: ipc::Buffer { offset: 0, len: size } }, h), out)
                &&& exists|tried: Seq<usize>| #[trigger] ipc::grow_schedule(tried, 256) && tried.last() == size
                    && forall|i: int| 0 <= i < tried.len() - 1 ==> #[trigger] ipc::answered_with(call, &self.ipc(), Type::ListDir, ListDirQueryParameters { mount_handle: mount_handle, handle: handle, buffer: ipc::Buffer { offset: 0, len: tried[i] } }, ListDirQueryParameters::HANDLE_BUFFER_MOBJ as int, tried[i], CallError::ReplyError(FsServerError::BufferTooSmall))
                &&& out.1 matches Ok(rep) && dentries_block::entries_view(r->Ok_0@) == dentries_block::dentries_of(ipc::used_bytes(out.0@, ListDirQueryParameters::HANDLE_BUFFER_MOBJ as int, rep.0.buffer_used_len))
            },
            r matches Err(e) ==> exists|size: usize, h: KHandles, out: (KHandles, Result<(ListDirReply, KHandles), FsServerCallError>)| {
                &&& h@ == ipc::zeroed_handle(ListDirQueryParameters::HANDLE_BUFFER_MOBJ as int, size)
                &&& #[trigger] call.ensures((&self.ipc(), Type::ListDir, ListDirQueryParameters { mount_handle: mount_handle, handle: handle, buffer: ipc::Buffer { offset: 0, len: size } }, h), out)
                &&& exists|tried: Seq<usize>| #[trigger] ipc::grow_schedule(tried, 256) && tried.last() == size
                    && forall|i: int| 0 <= i < tried.len() - 1 ==> #[trigger] ipc::answered_with(call, &self.ipc(), Type::ListDir, ListDirQueryParameters { mount_handle: mount_handle, handle: handle, buffer: ipc::Buffer { offset: 0, len: tried[i] } }, ListDirQueryParameters::HANDLE_BUFFER_MOBJ as int, tried[i], CallError::ReplyError(FsServerError::BufferTooSmall))
                &&& out.1 == Err::<(ListDirReply, KHandles), FsServerCallError>(e)
                &&& (e == CallError::<FsServerError>::ReplyError(FsServerError::BufferTooSmall) ==> size > usize::MAX / 2)
            },
    {
        let mut size: usize = 256;
        let ghost mut tried: Seq<usize> = seq![size];
        loop
            invariant
                size > 0,
                ipc::grow_schedule(tried, 256),
                tried.last() == size,
                forall|i: int| 0 <= i < tried.len() - 1 ==> #[trigger] ipc::answered_with(call, &self.ipc(), Type::ListDir, ListDirQueryParameters { mount_handle: mount_handle, handle: handle, buffer: ipc::Buffer { offset: 0, len: tried[i] } }, ListDirQueryParameters::HANDLE_BUFFER_MOBJ as int, tried[i], CallError::ReplyError(FsServerError::BufferTooSmall)),
                forall|size: usize, h: KHandles| #![trigger h@, ipc::zeroed_handle(ListDirQueryParameters::HANDLE_BUFFER_MOBJ as int, size)]
                    h@ == ipc::zeroed_handle(ListDirQueryParameters::HANDLE_BUFFER_MOBJ as int, size) ==> call.requires((&self.ipc(), Type::ListDir, ListDirQueryParameters { mount_handle: mount_handle, handle: handle, buffer: ipc::Buffer { offset: 0, len: size } }, h)),
                forall|a: (&ipc::Client, Type, ListDirQueryParameters, KHandles), out: (KHandles, Result<(ListDirReply, KHandles), FsServerCallError>)| #[trigger] call.ensures(a, out) && out.1 is Ok ==> {
                    &&& ipc::keeps_lent_size(a.3@, out.0@, ListDirQueryParameters::HANDLE_BUFFER_MOBJ as int)
                    &&& out.1->Ok_0.0.buffer_used_len <= ipc::slot_bytes(out.0@, ListDirQueryParameters::HANDLE_BUFFER_MOBJ as int).len()
                    &&& dentries_block::list_reply_ok(ipc::used_bytes(out.0@, ListDirQueryParameters::HANDLE_BUFFER_MOBJ as int, out.1->Ok_0.0.buffer_used_len))
                },
            decreases usize::MAX - size,
        {
            let (m, b) = ipc::share_zeroed(size);
            let query = ListDirQueryParameters { mount_handle: mount_handle, handle: handle, buffer: b };
            let mut query_handles = KHandles::new();
            query_handles.set(ListDirQueryParameters::HANDLE_BUFFER_MOBJ, KHandle::MemoryObject(m));
            proof {
                assert(query_handles@ == ipc::zeroed_handle(ListDirQueryParameters::HANDLE_BUFFER_MOBJ as int, size));
            }
            let ghost sent = query_handles@;
            let ghost sent_h = query_handles;
            let (mut lent, res) = call(&self.ipc_client, Type::ListDir, query, query_handles);
            let ghost outv = (lent, res);
            let ghost q = ListDirQueryParameters { mount_handle: mount_handle, handle: handle, buffer: ipc::Buffer { offset: 0, len: size } };
            proof {
                assert(call.ensures((&self.ipc(), Type::ListDir, q, sent_h), outv));
            }
            match res {
                Err(CallError::ReplyError(FsServerError::BufferTooSmall)) => match ipc::grown_size(size) {
                    Some(n) => {
                        proof {
                            let ghost prev = tried;
                            tried = tried.push(n);
                            assert(ipc::answered_with(call, &self.ipc(), Type::ListDir, ListDirQueryParameters { mount_handle: mount_handle, handle: handle, buffer: ipc::Buffer { offset: 0, len: size } }, ListDirQueryParameters::HANDLE_BUFFER_MOBJ as int, size, CallError::ReplyError(FsServerError::BufferTooSmall)));
                            assert forall|i: int| 0 <= i < tried.len() - 1 implies #[trigger] ipc::answered_with(call, &self.ipc(), Type::ListDir, ListDirQueryParameters { mount_handle: mount_handle, handle: handle, buffer: ipc::Buffer { offset: 0, len: tried[i] } }, ListDirQueryParameters::HANDLE_BUFFER_MOBJ as int, tried[i], CallError::ReplyError(FsServerError::BufferTooSmall)) by {
                                if i < prev.len() - 1 {
                                    assert(tried[i] == prev[i]);
                                }
                            }
                            assert forall|i: int| 0 < i < tried.len() implies #[trigger] tried[i] == 2 * tried[i - 1] by {
                                if i < prev.len() {
                                    assert(tried[i] == prev[i]);
                                }
                            }
                        }
                        size = n;
                    },
                    None => {
                        return Err(CallError::ReplyError(FsServerError::BufferTooSmall));
                    },
                },
                Err(e) => {
                    return Err(e);
                },
                Ok((reply, _reply_handles)) => {
                    let ghost back = lent@;
                    proof {
                        assert(ipc::keeps_lent_size(sent, back, ListDirQueryParameters::HANDLE_BUFFER_MOBJ as int));
                    }
                    let bytes = ipc::take_used(lent.take(ListDirQueryParameters::HANDLE_BUFFER_MOBJ), reply.buffer_used_len);
                    match DentriesBlock::read(bytes.as_slice()) {
                        Ok(v) => {
                            return Ok(v);
                        },
                        Err(_) => {
                            proof {
                                assert(false);
                            }
                            return Err(CallError::KernelError(0));
                        },
                    }
                },
            }
        }
    }

    /// call ipc ReadSymlink
    ///
    /// The server writes into a buffer lent for the call; while it answers that
    /// the buffer is too small, the call is made again with one twice as large.
    pub fn read_symlink<F>(&self, mount_handle: Handle, node_id: NodeId, call: F) -> (r: Result<String, FsServerCallError>)
        where
            F: Fn(&ipc::Client, Type, ReadSymlinkQueryParameters, KHandles) -> (KHandles, Result<(ReadSymlinkReply, KHandles), FsServerCallError>),
        requires
            forall|size: usize, h: KHandles| #![trigger h@, ipc::zeroed_handle(ReadSymlinkQueryParameters::HANDLE_BUFFER_MOBJ as int, size)]
                h@ == ipc::zeroed_handle(ReadSymlinkQueryParameters::HANDLE_BUFFER_MOBJ as int, size) ==> call.requires((&self.ipc(), Type::ReadSymlink, ReadSymlinkQueryParameters { mount_handle: mount_handle, node_id: node_id, buffer: ipc::Buffer { offset: 0, len: size } }, h)),
            forall|a: (&ipc::Client, Type, ReadSymlinkQueryParameters, KHandles), out: (KHandles, Result<(ReadSymlinkReply, KHandles), FsServerCallError>)| #[trigger] call.ensures(a, out) && out.1 is Ok ==> {
                &&& ipc::keeps_lent_size(a.3@, out.0@, ReadSymlinkQueryParameters::HANDLE_BUFFER_MOBJ as int)
                &&& out.1->Ok_0.0.target_len <= ipc::slot_bytes(out.0@, ReadSymlinkQueryParameters::HANDLE_BUFFER_MOBJ as int).len()
                &&& valid_utf8(ipc::used_bytes(out.0@, ReadSymlinkQueryParameters::HANDLE_BUFFER_MOBJ as int, out.1->Ok_0.0.target_len))
            },
        ensures
            r is Ok ==> exists|size: usize, h: KHandles, out: (KHandles, Result<(ReadSymlinkReply, KHandles), FsServerCallError>)| {
                &&& h@ == ipc::zeroed_handle(ReadSymlinkQueryParameters::HANDLE_BUFFER_MOBJ as int, size)
                &&& #[trigger] call.ensures((&self.ipc(), Type::ReadSymlink, ReadSymlinkQueryParameters { mount_handle: mount_handle, node_id: node_id, buffer: ipc::Buffer { offset: 0, len: size } }, h), out)
                &&& exists|tried: Seq<usize>| #[trigger] ipc::grow_schedule(tried, 64) && tried.last() == size
                    && forall|i: int| 0 <= i < tried.len() - 1 ==> #[trigger] ipc::answered_with(call, &self.ipc(), Type::ReadSymlink, ReadSymlinkQueryParameters { mount_handle: mount_handle, node_id: node_id, buffer: ipc::Buffer { offset: 0, len: tried[i] } }, ReadSymlinkQueryParameters::HANDLE_BUFFER_MOBJ as int, tried[i], CallError::ReplyError(FsServerError::BufferTooSmall))
                &&& out.1 matches Ok(rep) && r->Ok_0@ == decode_utf8(ipc::used_bytes(out.0@, ReadSymlinkQueryParameters::HANDLE_BUFFER_MOBJ as int, rep.0.target_len))
            },
            r matches Err(e) ==> exists|size: usize, h: KHandles, out: (KHandles, Result<(ReadSymlinkReply, KHandles), FsServerCallError>)| {
                &&& h@ == ipc::zeroed_handle(ReadSymlinkQueryParameters::HANDLE_BUFFER_MOBJ as int, size)
                &&& #[trigger] call.ensures((&self.ipc(), Type::ReadSymlink, ReadSymlinkQueryParameters { mount_handle: mount_handle, node_id: node_id, buffer: ipc::Buffer { offset: 0, len: size } }, h), out)
                &&& exists|tried: Seq<usize>| #[trigger] ipc::grow_schedule(tried, 64) && tried.last() == size
                    && forall|i: int| 0 <= i < tried.len() - 1 ==> #[trigger] ipc::answered_with(call, &self.ipc(), Type::ReadSymlink, ReadSymlinkQueryParameters { mount_handle: mount_handle, node_id: node_id, buffer: ipc::Buffer { offset: 0, len: tried[i] } }, ReadSymlinkQueryParameters::HANDLE_BUFFER_MOBJ as int, tried[i], CallError::ReplyError(FsServerError::BufferTooSmall))
                &&& out.1 == Err::<(ReadSymlinkReply, KHandles), FsServerCallError>(e)
                &&& (e == CallError::<FsServerError>::ReplyError(FsServerError::BufferTooSmall) ==> size > usize::MAX / 2)
            },
    {
        let mut size: usize = 64;
        let ghost mut tried: Seq<usize> = seq![size];
        loop
            invariant
                size > 0,
                ipc::grow_schedule(tried, 64),
                tried.last() == size,
                forall|i: int| 0 <= i < tried.len() - 1 ==> #[trigger] ipc::answered_with(call, &self.ipc(), Type::ReadSymlink, ReadSymlinkQueryParameters { mount_handle: mount_handle, node_id: node_id, buffer: ipc::Buffer { offset: 0, len: tried[i] } }, ReadSymlinkQueryParameters::HANDLE_BUFFER_MOBJ as int, tried[i], CallError::ReplyError(FsServerError::BufferTooSmall)),
                forall|size: usize, h: KHandles| #![trigger h@, ipc::zeroed_handle(ReadSymlinkQueryParameters::HANDLE_BUFFER_MOBJ as int, size)]
                    h@ == ipc::zeroed_handle(ReadSymlinkQueryParameters::HANDLE_BUFFER_MOBJ as int, size) ==> call.requires((&self.ipc(), Type::ReadSymlink, ReadSymlinkQueryParameters { mount_handle: mount_handle, node_id: node_id, buffer: ipc::Buffer { offset: 0, len: size } }, h)),
                forall|a: (&ipc::Client, Type, ReadSymlinkQueryParameters, KHandles), out: (KHandles, Result<(ReadSymlinkReply, KHandles), FsServerCallError>)| #[trigger] call.ensures(a, out) && out.1 is Ok ==> {
                    &&& ipc::keeps_lent_size(a.3@, out.0@, ReadSymlinkQueryParameters::HANDLE_BUFFER_MOBJ as int)
                    &&& out.1->Ok_0.0.target_len <= ipc::slot_bytes(out.0@, ReadSymlinkQueryParameters::HANDLE_BUFFER_MOBJ as int).len()
                    &&& valid_utf8(ipc::used_bytes(out.0@, ReadSymlinkQueryParameters::HANDLE_BUFFER_MOBJ as int, out.1->Ok_0.0.target_len))
                },
            decreases usize::MAX - size,
        {
            let (m, b) = ipc::share_zeroed(size);
            let query = ReadSymlinkQueryParameters { mount_handle: mount_handle, node_id: node_id, buffer: b };
            let mut query_handles = KHandles::new();
            query_handles.set(ReadSymlinkQueryParameters::HANDLE_BUFFER_MOBJ, KHandle::MemoryObject(m));
            proof {
                assert(query_handles@ == ipc::zeroed_handle(ReadSymlinkQueryParameters::HANDLE_BUFFER_MOBJ as int, size));
            }
            let ghost sent = query_handles@;
            let ghost sent_h = query_handles;
            let (mut lent, res) = call(&self.ipc_client, Type::ReadSymlink, query, query_handles);
            let ghost outv = (lent, res);
            let ghost q = ReadSymlinkQueryParameters { mount_handle: mount_handle, node_id: node_id, buffer: ipc::Buffer { offset: 0, len: size } };
            proof {
                assert(call.ensures((&self.ipc(), Type::ReadSymlink, q, sent_h), outv));
            }
            match res {
                Err(CallError::ReplyError(FsServerError::BufferTooSmall)) => match ipc::grown_size(size) {
                    Some(n) => {
                        proof {
                            let ghost prev = tried;
                            tried = tried.push(n);
                            assert(ipc::answered_with(call, &self.ipc(), Type::ReadSymlink, ReadSymlinkQueryParameters { mount_handle: mount_handle, node_id: node_id, buffer: ipc::Buffer { offset: 0, len: size } }, ReadSymlinkQueryParameters::HANDLE_BUFFER_MOBJ as int, size, CallError::ReplyError(FsServerError::BufferTooSmall)));
                            assert forall|i: int| 0 <= i < tried.len() - 1 implies #[trigger] ipc::answered_with(call, &self.ipc(), Type::ReadSymlink, ReadSymlinkQueryParameters { mount_handle: mount_handle, node_id: node_id, buffer: ipc::Buffer { offset: 0, len: tried[i] } }, ReadSymlinkQueryParameters::HANDLE_BUFFER_MOBJ as int, tried[i], CallError::ReplyError(FsServerError::BufferTooSmall)) by {
                                if i < prev.len() - 1 {
                                    assert(tried[i] == prev[i]);
                                }
                            }
                            assert forall|i: int| 0 < i < tried.len() implies #[trigger] tried[i] == 2 * tried[i - 1] by {
                                if i < prev.len() {
                                    assert(tried[i] == prev[i]);
                                }
                            }
                        }
                        size = n;
                    },
                    None => {
                        return Err(CallError::ReplyError(FsServerError::BufferTooSmall));
                    },
                },
                Err(e) => {
                    return Err(e);
                },
                Ok((reply, _reply_handles)) => {
                    let ghost back = lent@;
                    proof {
                        assert(ipc::keeps_lent_size(sent, back, ReadSymlinkQueryParameters::HANDLE_BUFFER_MOBJ as int));
                    }
                    let bytes = ipc::take_used(lent.take(ReadSymlinkQueryParameters::HANDLE_BUFFER_MOBJ), reply.target_len);
                    return Ok(string_from_utf8(bytes.as_slice()));
                },
            }
        }
    }
}

} // verus!
