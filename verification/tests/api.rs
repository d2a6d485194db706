use std::cell::RefCell;

use libruntime::ipc::{self, CallError, Handle, KHandles};
use libruntime::kobject::{PortReceiver, PortSender};
use libruntime::process::api::{Process, ProcessWaiter};
use libruntime::process::client::Client as ProcessClient;
use libruntime::process::messages::{
    CreateProcessReply, ProcessServerError, ProcessStatus, ProcessTerminatedNotification,
    RegisterProcessTerminatedNotificationReply, TerminateProcessReply, Type as ProcessType,
};
use libruntime::vfs::api::{move_path, remove, stat, File, Symlink};
use libruntime::vfs::client::Client as VfsClient;
use libruntime::vfs::messages::{
    CloseReply, MoveReply, OpenQueryParameters, OpenReply, ReadQueryParameters, RemoveQueryParameters,
    RemoveReply, StatReply, Type as VfsType, VfsServerError, WriteReply,
};
use libruntime::vfs::server as vfs_server;
use libruntime::vfs::types::{HandlePermissions, Metadata, NodeType, OpenMode, Permissions};

fn text_at(h: &KHandles, i: usize, q: ipc::Buffer) -> String {
    ipc::view_string(h, i, q).expect("a text buffer")
}

#[test]
fn process_spawn_kill_and_wait() {
    let client = ProcessClient::new();
    let process = Process::spawn(&client, "worker", b"bin", &[("A", "1")], &[], |_c: &ipc::Client, t, _q, h| {
        assert_eq!(t, ProcessType::CreateProcess);
        (h, Ok((CreateProcessReply { handle: Handle(4), pid: 40 }, KHandles::new())))
    })
    .unwrap();
    assert_eq!(process.pid(), 40);
    let killed = process.kill(&client, |_c: &ipc::Client, t, q, h| {
        assert_eq!(t, ProcessType::TerminateProcess);
        assert_eq!(q.handle, Handle(4));
        (h, Ok((TerminateProcessReply {}, KHandles::new())))
    });
    assert_eq!(killed, Ok(()));
    let mut waiter = ProcessWaiter::new(&process, PortReceiver(1), PortSender(2), &client, |_c: &ipc::Client, _t, _q, h| {
        (h, Ok((RegisterProcessTerminatedNotificationReply { registration_handle: Handle(77) }, KHandles::new())))
    })
    .unwrap();
    assert!(waiter.is_waitable());
    assert_eq!(waiter.pending_registration(), Some(Handle(77)));
    assert_eq!(waiter.status(None), ProcessStatus::Running);
    let code = waiter.wait_status(|| ProcessTerminatedNotification { correlation: 0, pid: 40, exit_code: 3 });
    assert_eq!(code, 3);
    assert!(!waiter.is_waitable());
    assert_eq!(waiter.pending_registration(), None);
    // Once exited, the status stays and nothing more is received.
    assert_eq!(waiter.wait_status(|| panic!("no second notification")), 3);
    assert_eq!(waiter.status(None), ProcessStatus::Exited(3));
}

#[test]
fn process_waiter_status_takes_a_received_notification() {
    let client = ProcessClient::new();
    let process = Process::spawn(&client, "p", b"x", &[], &[], |_c: &ipc::Client, _t, _q, h| {
        (h, Ok((CreateProcessReply { handle: Handle(1), pid: 2 }, KHandles::new())))
    })
    .unwrap();
    let mut waiter = ProcessWaiter::new(&process, PortReceiver(1), PortSender(2), &client, |_c: &ipc::Client, _t, _q, h| {
        (h, Ok((RegisterProcessTerminatedNotificationReply { registration_handle: Handle(9) }, KHandles::new())))
    })
    .unwrap();
    let status = waiter.status(Some(ProcessTerminatedNotification { correlation: 0, pid: 2, exit_code: -1 }));
    assert_eq!(status, ProcessStatus::Exited(-1));
    let failed = ProcessWaiter::new(&process, PortReceiver(1), PortSender(2), &client, |_c: &ipc::Client, _t, _q, h| {
        (h, Err(CallError::ReplyError(ProcessServerError::ProcessNotRunning)))
    });
    assert!(matches!(failed, Err(CallError::ReplyError(ProcessServerError::ProcessNotRunning))));
}

#[test]
fn vfs_remove_opens_the_parent_and_removes_the_name() {
    let client = VfsClient::new();
    let opened = RefCell::new(String::new());
    let removed = RefCell::new((Handle(0), String::new()));
    let closed = RefCell::new(Vec::new());
    let res = remove(
        "/home/user/notes.txt",
        &client,
        |_c: &ipc::Client, t, q: OpenQueryParameters, h| {
            assert_eq!(t, VfsType::Open);
            assert_eq!(q.node_type, Some(NodeType::Directory));
            *opened.borrow_mut() = text_at(&h, OpenQueryParameters::HANDLE_PATH_MOBJ, q.path);
            (h, Ok((OpenReply { handle: Handle(21) }, KHandles::new())))
        },
        |_c: &ipc::Client, _t, q: RemoveQueryParameters, h| {
            *removed.borrow_mut() = (q.dir, text_at(&h, RemoveQueryParameters::HANDLE_NAME_MOBJ, q.name));
            (h, Ok((RemoveReply {}, KHandles::new())))
        },
        |_c: &ipc::Client, _t, q, h| {
            closed.borrow_mut().push(q.handle);
            (h, Ok((CloseReply {}, KHandles::new())))
        },
    );
    assert_eq!(res, Ok(()));
    assert_eq!(*opened.borrow(), "/home/user");
    assert_eq!(*removed.borrow(), (Handle(21), "notes.txt".to_string()));
    assert_eq!(*closed.borrow(), vec![Handle(21)]);
}

#[test]
fn vfs_remove_of_a_bad_path_asks_nothing() {
    let client = VfsClient::new();
    let res = remove(
        "nopath",
        &client,
        |_c: &ipc::Client, _t, _q, _h| -> (KHandles, Result<(OpenReply, KHandles), _>) { panic!("no open") },
        |_c: &ipc::Client, _t, _q, _h| -> (KHandles, Result<(RemoveReply, KHandles), _>) { panic!("no remove") },
        |_c: &ipc::Client, _t, _q, _h| -> (KHandles, Result<(CloseReply, KHandles), _>) { panic!("no close") },
    );
    assert_eq!(res, Err(CallError::ReplyError(VfsServerError::InvalidArgument)));
}

#[test]
fn vfs_move_path_within_and_across_directories() {
    let client = VfsClient::new();
    let opened = RefCell::new(Vec::new());
    let moved = RefCell::new(Vec::new());
    let res = move_path(
        "/a/x",
        "/b/y",
        &client,
        |_c: &ipc::Client, _t, q: OpenQueryParameters, h| {
            let path = text_at(&h, OpenQueryParameters::HANDLE_PATH_MOBJ, q.path);
            let handle = if path == "/a" { Handle(1) } else { Handle(2) };
            opened.borrow_mut().push(path);
            (h, Ok((OpenReply { handle }, KHandles::new())))
        },
        |_c: &ipc::Client, _t, q, h| {
            moved.borrow_mut().push((q.old_dir, q.new_dir));
            (h, Ok((MoveReply {}, KHandles::new())))
        },
        |_c: &ipc::Client, _t, _q, h| (h, Ok((CloseReply {}, KHandles::new()))),
    );
    assert_eq!(res, Ok(()));
    assert_eq!(*opened.borrow(), vec!["/a".to_string(), "/b".to_string()]);
    assert_eq!(*moved.borrow(), vec![(Handle(1), Handle(2))]);
}

#[test]
fn vfs_stat_passes_the_open_error_on() {
    let client = VfsClient::new();
    let res = stat(
        "/missing",
        &client,
        |_c: &ipc::Client, _t, _q, h| (h, Err(CallError::ReplyError(VfsServerError::RuntimeError))),
        |_c: &ipc::Client, _t, _q, _h| -> (KHandles, Result<(StatReply, KHandles), _>) { panic!("no stat") },
        |_c: &ipc::Client, _t, _q, _h| -> (KHandles, Result<(CloseReply, KHandles), _>) { panic!("no close") },
    );
    assert!(matches!(res, Err(CallError::ReplyError(VfsServerError::RuntimeError))));
    let res = stat(
        "/file",
        &client,
        |_c: &ipc::Client, _t, _q, h| (h, Ok((OpenReply { handle: Handle(5) }, KHandles::new()))),
        |_c: &ipc::Client, _t, q, h| {
            assert_eq!(q.handle, Handle(5));
            let metadata = Metadata {
                node_type: NodeType::File,
                permissions: Permissions { bits: 0o644 },
                size: 12,
                created: 1,
                modified: 2,
            };
            (h, Ok((StatReply { metadata }, KHandles::new())))
        },
        |_c: &ipc::Client, _t, _q, h| (h, Ok((CloseReply {}, KHandles::new()))),
    );
    let metadata = res.unwrap();
    assert_eq!(metadata.node_type, NodeType::File);
    assert_eq!(metadata.size, 12);
}

#[test]
fn vfs_file_open_write_and_read() {
    let client = VfsClient::new();
    let file = File::open(&client, "/data", HandlePermissions { bits: 3 }, |_c: &ipc::Client, _t, q: OpenQueryParameters, h| {
        assert_eq!(q.mode, OpenMode::OpenExisting);
        assert_eq!(q.node_type, Some(NodeType::File));
        (h, Ok((OpenReply { handle: Handle(8) }, KHandles::new())))
    })
    .unwrap();
    let written = file.write(&client, 4, b"hello", |_c: &ipc::Client, _t, q, h| {
        assert_eq!(q.offset, 4);
        (h, Ok((WriteReply { bytes_written: 5 }, KHandles::new())))
    });
    assert_eq!(written, Ok(5));
    let mut buffer = [0u8; 4];
    let read = file.read(0, &mut buffer, &client, |_c: &ipc::Client, _t, q: ReadQueryParameters, mut h: KHandles| {
        let mut data = vfs_server::read_arguments(&q, &h).unwrap();
        data[..3].copy_from_slice(b"abc");
        let reply = vfs_server::read_reply(&mut h, &q, &data, 3);
        (h, Ok((reply, KHandles::new())))
    });
    assert_eq!(read, Ok(3));
    assert_eq!(&buffer, b"abc\0");
    let failed = file.read(0, &mut buffer, &client, |_c: &ipc::Client, _t, _q, h| {
        (h, Err(CallError::KernelError(1)))
    });
    assert_eq!(failed, Err(CallError::KernelError(1)));
}

#[test]
fn vfs_symlink_target_reads_back() {
    let client = VfsClient::new();
    let link = Symlink::open(&client, "/link", |_c: &ipc::Client, _t, q: OpenQueryParameters, h| {
        assert_eq!(q.node_type, Some(NodeType::Symlink));
        assert!(q.no_follow);
        (h, Ok((OpenReply { handle: Handle(3) }, KHandles::new())))
    })
    .unwrap();
    let target = link
        .target(&client, |_c: &ipc::Client, _t, q, mut h: KHandles| {
            let res = vfs_server::read_symlink_reply(&mut h, &q, "/real/place");
            (h, res.map(|r| (r, KHandles::new())).map_err(CallError::ReplyError))
        })
        .unwrap();
    assert_eq!(target, "/real/place");
}
