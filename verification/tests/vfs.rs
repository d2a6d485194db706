use std::cell::RefCell;

use libruntime::ipc::{self, Buffer, CallError, Handle, KHandle, KHandles};
use libruntime::kobject::MemoryObject;
use libruntime::vfs::api::split_path;
use libruntime::vfs::client::Client;
use libruntime::vfs::dentries_block::DirectoryEntry;
use libruntime::vfs::messages::{
    ListMountsQueryParameters, ListQueryParameters, MountQueryParameters, MoveQueryParameters, ReadQueryParameters,
    ReadSymlinkQueryParameters, Type, VfsServerError,
};
use libruntime::vfs::mounts_block::MountInfo;
use libruntime::vfs::server as vfs_server;
use libruntime::vfs::types::NodeType;

fn memory(bytes: &[u8]) -> KHandle {
    KHandle::MemoryObject(MemoryObject::from_bytes(bytes.to_vec()))
}

fn slot_bytes(h: &mut KHandles, i: usize) -> Vec<u8> {
    match h.take(i) {
        KHandle::MemoryObject(m) => m.as_slice().to_vec(),
        _ => panic!("slot {} holds no memory object", i),
    }
}

#[test]
fn vfs_split_path_cases() {
    assert_eq!(split_path("/usr/bin/ls"), Ok(("/usr/bin", "ls")));
    assert_eq!(split_path("/etc"), Ok(("/", "etc")));
    assert_eq!(split_path("dir/file"), Ok(("dir", "file")));
    assert_eq!(split_path("/a/b/"), Err(CallError::ReplyError(VfsServerError::InvalidArgument)));
    assert_eq!(split_path("/a/."), Err(CallError::ReplyError(VfsServerError::InvalidArgument)));
    assert_eq!(split_path("/a/.."), Err(CallError::ReplyError(VfsServerError::InvalidArgument)));
    assert_eq!(split_path("/a/..b"), Ok(("/a", "..b")));
    assert_eq!(split_path("noslash"), Err(CallError::ReplyError(VfsServerError::InvalidArgument)));
    assert_eq!(split_path(""), Err(CallError::ReplyError(VfsServerError::InvalidArgument)));
}

#[test]
fn vfs_server_move_arguments_read_both_names() {
    let q = MoveQueryParameters {
        old_dir: Handle(1),
        old_name: Buffer { offset: 0, len: 3 },
        new_dir: Handle(2),
        new_name: Buffer { offset: 2, len: 3 },
    };
    let mut h = KHandles::new();
    h.set(MoveQueryParameters::HANDLE_OLD_NAME_MOBJ, memory(b"old"));
    h.set(MoveQueryParameters::HANDLE_NEW_NAME_MOBJ, memory(b"xxnew"));
    assert_eq!(vfs_server::move_node_arguments(&q, &h), Ok(("old".to_string(), "new".to_string())));
    // A buffer past the end of its object.
    let q2 = MoveQueryParameters { new_name: Buffer { offset: 3, len: 3 }, ..q };
    assert_eq!(vfs_server::move_node_arguments(&q2, &h), Err(VfsServerError::InvalidArgument));
    // A missing object.
    let mut h2 = KHandles::new();
    h2.set(MoveQueryParameters::HANDLE_OLD_NAME_MOBJ, memory(b"old"));
    assert_eq!(vfs_server::move_node_arguments(&q, &h2), Err(VfsServerError::InvalidArgument));
}

#[test]
fn vfs_server_mount_arguments_keep_raw_args() {
    let q = MountQueryParameters {
        mount_point: Buffer { offset: 0, len: 4 },
        fs_port_name: Buffer { offset: 0, len: 5 },
        args: Buffer { offset: 1, len: 2 },
    };
    let mut h = KHandles::new();
    h.set(MountQueryParameters::HANDLE_MOUNT_POINT_MOBJ, memory(b"/mnt"));
    h.set(MountQueryParameters::HANDLE_FS_PORT_NAME_MOBJ, memory(b"memfs"));
    h.set(MountQueryParameters::HANDLE_ARGS_MOBJ, memory(&[0xff, 0x01, 0xfe]));
    assert_eq!(
        vfs_server::mount_arguments(&q, &h),
        Ok(("/mnt".to_string(), "memfs".to_string(), vec![0x01, 0xfe]))
    );
    // The mount point must be text.
    h.set(MountQueryParameters::HANDLE_MOUNT_POINT_MOBJ, memory(&[0xc3, 0x28, 0, 0]));
    assert_eq!(vfs_server::mount_arguments(&q, &h), Err(VfsServerError::InvalidArgument));
}

#[test]
fn vfs_list_roundtrip_through_server_reply() {
    let entries: Vec<DirectoryEntry> = (0..12)
        .map(|i| DirectoryEntry {
            name: format!("entry-with-a-long-name-{}", i),
            node_type: if i % 3 == 0 { NodeType::Directory } else { NodeType::File },
        })
        .collect();
    let client = Client::new();
    let sizes = RefCell::new(Vec::new());
    let listed = client
        .list(Handle(3), |_c: &ipc::Client, t: Type, q: ListQueryParameters, mut h: KHandles| {
            assert_eq!(t, Type::List);
            sizes.borrow_mut().push(q.buffer.len);
            if let Err(e) = vfs_server::list_arguments(&q, &h) {
                return (h, Err(CallError::ReplyError(e)));
            }
            let res = vfs_server::list_reply(&mut h, &q, &entries);
            (h, res.map(|r| (r, KHandles::new())).map_err(CallError::ReplyError))
        })
        .unwrap();
    assert_eq!(listed.len(), 12);
    for (a, b) in listed.iter().zip(entries.iter()) {
        assert_eq!(a.name, b.name);
        assert_eq!(a.node_type, b.node_type);
    }
    let sizes = sizes.borrow();
    assert_eq!(sizes[0], 256);
    for w in sizes.windows(2) {
        assert_eq!(w[1], 2 * w[0]);
    }
}

#[test]
fn vfs_server_list_reply_too_small_leaves_buffer() {
    let entries = vec![DirectoryEntry { name: "a-name".to_string(), node_type: NodeType::File }];
    let q = ListQueryParameters { handle: Handle(1), buffer: Buffer { offset: 0, len: 12 } };
    let mut h = KHandles::new();
    h.set(ListQueryParameters::HANDLE_BUFFER_MOBJ, memory(&[7u8; 12]));
    assert_eq!(vfs_server::list_reply(&mut h, &q, &entries).unwrap_err(), VfsServerError::BufferTooSmall);
    assert_eq!(slot_bytes(&mut h, ListQueryParameters::HANDLE_BUFFER_MOBJ), vec![7u8; 12]);
    let empty = KHandles::new();
    assert_eq!(vfs_server::list_arguments(&q, &empty), Err(VfsServerError::InvalidArgument));
}

#[test]
fn vfs_list_mounts_roundtrip_through_server_reply() {
    let mounts = vec![
        MountInfo { mount_point: "/".to_string(), fs_port_name: "root".to_string() },
        MountInfo { mount_point: "/proc".to_string(), fs_port_name: "procfs".to_string() },
    ];
    let client = Client::new();
    let listed = client
        .list_mounts(|_c: &ipc::Client, _t: Type, q: ListMountsQueryParameters, mut h: KHandles| {
            if let Err(e) = vfs_server::list_mounts_arguments(&q, &h) {
                return (h, Err(CallError::ReplyError(e)));
            }
            let res = vfs_server::list_mounts_reply(&mut h, &q, &mounts);
            (h, res.map(|r| (r, KHandles::new())).map_err(CallError::ReplyError))
        })
        .unwrap();
    assert_eq!(listed.len(), 2);
    assert_eq!(listed[1].mount_point, "/proc");
    assert_eq!(listed[1].fs_port_name, "procfs");
}

#[test]
fn vfs_read_symlink_roundtrip_through_server_reply() {
    let target = "/very/long/target/".repeat(10);
    let client = Client::new();
    let read = client
        .read_symlink(Handle(8), |_c: &ipc::Client, _t: Type, q: ReadSymlinkQueryParameters, mut h: KHandles| {
            if let Err(e) = vfs_server::read_symlink_arguments(&q, &h) {
                return (h, Err(CallError::ReplyError(e)));
            }
            let res = vfs_server::read_symlink_reply(&mut h, &q, &target);
            (h, res.map(|r| (r, KHandles::new())).map_err(CallError::ReplyError))
        })
        .unwrap();
    assert_eq!(read, target);
}

#[test]
fn vfs_server_read_symlink_reply_writes_at_the_buffer() {
    let q = ReadSymlinkQueryParameters { handle: Handle(1), buffer: Buffer { offset: 2, len: 4 } };
    let mut h = KHandles::new();
    h.set(ReadSymlinkQueryParameters::HANDLE_BUFFER_MOBJ, memory(&[0u8; 6]));
    let reply = vfs_server::read_symlink_reply(&mut h, &q, "ab").unwrap();
    assert_eq!(reply.target_length, 2);
    assert_eq!(slot_bytes(&mut h, ReadSymlinkQueryParameters::HANDLE_BUFFER_MOBJ), vec![0, 0, b'a', b'b', 0, 0]);
    let mut h = KHandles::new();
    h.set(ReadSymlinkQueryParameters::HANDLE_BUFFER_MOBJ, memory(&[0u8; 6]));
    assert_eq!(vfs_server::read_symlink_reply(&mut h, &q, "abcde").unwrap_err(), VfsServerError::BufferTooSmall);
}

#[test]
fn vfs_read_roundtrip_through_server_reply() {
    let client = Client::new();
    let mut buffer = [0u8; 8];
    let n = client
        .read(Handle(5), 100, &mut buffer, |_c: &ipc::Client, _t: Type, q: ReadQueryParameters, mut h: KHandles| {
            let mut data = match vfs_server::read_arguments(&q, &h) {
                Ok(d) => d,
                Err(e) => return (h, Err(CallError::ReplyError(e))),
            };
            // The file holds the bytes 100, 101, ... from offset 100 on; five are left.
            for (i, b) in data.iter_mut().take(5).enumerate() {
                *b = (q.offset as u8) + i as u8;
            }
            let reply = vfs_server::read_reply(&mut h, &q, &data, 5);
            (h, Ok((reply, KHandles::new())))
        })
        .unwrap();
    assert_eq!(n, 5);
    assert_eq!(&buffer[..5], &[100, 101, 102, 103, 104]);
}
