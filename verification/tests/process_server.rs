use std::cell::RefCell;
use std::collections::BTreeMap;
use std::rc::Rc;

use libruntime::ipc::{self, Buffer, CallError, Handle, KHandle, KHandles};
use libruntime::kobject::{MemoryObject, PortSender};
use libruntime::process::client::{Client, ProcessServerCallError};
use libruntime::process::kvblock::KVBlock;
use libruntime::process::messages::{
    CreateProcessQueryParameters, GetProcessNameQueryParameters, ListProcessesQueryParameters, ProcessServerError,
    ProcessStatus, RegisterProcessTerminatedNotificationQueryParameters, Type, UpdateEnvQueryParameters,
    UpdateNameQueryParameters,
};
use libruntime::process::plblock::ProcessInfo;
use libruntime::process::server::{ProcessServer, Server};
use libruntime::process::symblock::SymBlock;
use libruntime::process::StartupInfo;

/// What the process server was told.
#[derive(Default)]
struct Log {
    names: RefCell<Vec<String>>,
    envs: RefCell<Vec<Vec<(String, String)>>>,
    created: RefCell<Vec<(String, Vec<u8>, usize, usize)>>,
    exit_codes: RefCell<Vec<i32>>,
    ports: RefCell<Vec<(u64, u64)>>,
    terminated: RefCell<Vec<u64>>,
}

/// A process server that remembers what it was told.
#[derive(Default)]
struct Recorder {
    name: String,
    processes: Vec<ProcessInfo>,
    log: Rc<Log>,
}

fn entries(block: &KVBlock) -> Vec<(String, String)> {
    let mut out = Vec::new();
    let mut it = block.iter();
    while let Some((k, v)) = it.next() {
        out.push((k.to_string(), v.to_string()));
    }
    out
}

impl ProcessServer for Recorder {
    type Error = ProcessServerError;

    fn process_terminated(&self, pid: u64) {
        self.log.terminated.borrow_mut().push(pid);
    }

    fn get_startup_info(&self, _sender_id: u64) -> Result<StartupInfo, ProcessServerError> {
        let env = KVBlock::from_memory_object(KVBlock::build(&[("HOME", "/root")])).unwrap();
        let args = KVBlock::from_memory_object(KVBlock::build(&[("0", "prog"), ("1", "-v")])).unwrap();
        let mut syms = BTreeMap::new();
        syms.insert(0x100usize, "entry".to_string());
        Ok(StartupInfo { name: self.name.clone(), env, args, symbols: SymBlock::build(&syms) })
    }

    fn update_name(&self, _sender_id: u64, new_name: &str) -> Result<(), ProcessServerError> {
        self.log.names.borrow_mut().push(new_name.to_string());
        Ok(())
    }

    fn update_env(&self, _sender_id: u64, new_env: KVBlock) -> Result<(), ProcessServerError> {
        self.log.envs.borrow_mut().push(entries(&new_env));
        Ok(())
    }

    fn set_exit_code(&self, _sender_id: u64, exit_code: i32) -> Result<(), ProcessServerError> {
        self.log.exit_codes.borrow_mut().push(exit_code);
        Ok(())
    }

    fn create_process(
        &self,
        _sender_id: u64,
        name: &str,
        binary: &[u8],
        environment: KVBlock,
        arguments: KVBlock,
    ) -> Result<(Handle, u64), ProcessServerError> {
        if binary.is_empty() {
            return Err(ProcessServerError::InvalidBinaryFormat);
        }
        self.log.created.borrow_mut().push((name.to_string(), binary.to_vec(), environment.len(), arguments.len()));
        Ok((Handle(9), 77))
    }

    fn open_process(&self, _sender_id: u64, pid: u64) -> Result<(Handle, u64), ProcessServerError> {
        Ok((Handle(pid + 100), pid))
    }

    fn close_process(&self, _sender_id: u64, _handle: Handle) -> Result<(), ProcessServerError> {
        Ok(())
    }

    fn get_process_name(&self, _sender_id: u64, handle: Handle) -> Result<String, ProcessServerError> {
        if handle.0 == 0 {
            return Err(ProcessServerError::InvalidArgument);
        }
        Ok(self.name.clone())
    }

    fn get_process_env(&self, _sender_id: u64, _handle: Handle) -> Result<KVBlock, ProcessServerError> {
        Ok(KVBlock::from_memory_object(KVBlock::build(&[("LANG", "C")])).unwrap())
    }

    fn get_process_args(&self, _sender_id: u64, _handle: Handle) -> Result<KVBlock, ProcessServerError> {
        Ok(KVBlock::from_memory_object(KVBlock::build(&[])).unwrap())
    }

    fn get_process_status(&self, _sender_id: u64, handle: Handle) -> Result<ProcessStatus, ProcessServerError> {
        if handle.0 == 1 {
            Ok(ProcessStatus::Running)
        } else {
            Ok(ProcessStatus::Exited(3))
        }
    }

    fn terminate_process(&self, _sender_id: u64, _handle: Handle) -> Result<(), ProcessServerError> {
        Err(ProcessServerError::ProcessNotRunning)
    }

    fn list_processes(&self, _sender_id: u64) -> Result<Vec<ProcessInfo>, ProcessServerError> {
        Ok(self.processes.clone())
    }

    fn register_process_terminated_notification(
        &self,
        _sender_id: u64,
        _handle: Handle,
        port: PortSender,
        correlation: u64,
    ) -> Result<Handle, ProcessServerError> {
        self.log.ports.borrow_mut().push((port.0, correlation));
        Ok(Handle(55))
    }

    fn unregister_process_terminated_notification(
        &self,
        _sender_id: u64,
        _registration_handle: Handle,
    ) -> Result<(), ProcessServerError> {
        Ok(())
    }
}

fn reply_err<R>(res: Result<(R, KHandles), ProcessServerError>) -> Result<(R, KHandles), ProcessServerCallError> {
    res.map_err(CallError::ReplyError)
}

#[test]
fn process_server_name_roundtrip_through_client() {
    let server = Server::new(Recorder { name: "shell".to_string(), ..Default::default() });
    let client = Client::new();
    let name = client
        .get_process_name(Handle(4), |_c: &ipc::Client, t: Type, q, h| {
            assert_eq!(t, Type::GetProcessName);
            let (lent, res) = server.get_process_name_handler(q, h, 1);
            (lent, reply_err(res))
        })
        .unwrap();
    assert_eq!(name, "shell");
}

#[test]
fn process_server_long_name_needs_a_larger_buffer() {
    let long = "n".repeat(150);
    let server = Server::new(Recorder { name: long.clone(), ..Default::default() });
    let client = Client::new();
    let sizes = RefCell::new(Vec::new());
    let name = client
        .get_process_name(Handle(4), |_c: &ipc::Client, _t: Type, q: GetProcessNameQueryParameters, h| {
            sizes.borrow_mut().push(q.buffer.len);
            let (lent, res) = server.get_process_name_handler(q, h, 1);
            (lent, reply_err(res))
        })
        .unwrap();
    assert_eq!(name, long);
    assert_eq!(*sizes.borrow(), vec![64, 128, 256]);
}

#[test]
fn process_server_name_errors() {
    let server = Server::new(Recorder { name: "init".to_string(), ..Default::default() });
    // The implementation refuses the handle.
    let q = GetProcessNameQueryParameters { handle: Handle(0), buffer: Buffer { offset: 0, len: 16 } };
    let mut h = KHandles::new();
    h.set(GetProcessNameQueryParameters::HANDLE_BUFFER_MOBJ, KHandle::MemoryObject(MemoryObject::create(16)));
    let (_, res) = server.get_process_name_handler(q, h, 1);
    assert!(matches!(res, Err(ProcessServerError::InvalidArgument)));
    // No buffer was lent.
    let q = GetProcessNameQueryParameters { handle: Handle(3), buffer: Buffer { offset: 0, len: 16 } };
    let (_, res) = server.get_process_name_handler(q, KHandles::new(), 1);
    assert!(matches!(res, Err(ProcessServerError::InvalidArgument)));
    // The buffer is too small for the name.
    let q = GetProcessNameQueryParameters { handle: Handle(3), buffer: Buffer { offset: 0, len: 2 } };
    let mut h = KHandles::new();
    h.set(GetProcessNameQueryParameters::HANDLE_BUFFER_MOBJ, KHandle::MemoryObject(MemoryObject::create(2)));
    let (_, res) = server.get_process_name_handler(q, h, 1);
    assert!(matches!(res, Err(ProcessServerError::BufferTooSmall)));
    // The name is written where the buffer starts in the object.
    let q = GetProcessNameQueryParameters { handle: Handle(3), buffer: Buffer { offset: 4, len: 8 } };
    let mut h = KHandles::new();
    h.set(GetProcessNameQueryParameters::HANDLE_BUFFER_MOBJ, KHandle::MemoryObject(MemoryObject::create(12)));
    let (mut lent, res) = server.get_process_name_handler(q, h, 1);
    assert_eq!(res.unwrap().0.buffer_used_len, 4);
    match lent.take(GetProcessNameQueryParameters::HANDLE_BUFFER_MOBJ) {
        KHandle::MemoryObject(m) => assert_eq!(m.as_slice(), &[0, 0, 0, 0, b'i', b'n', b'i', b't', 0, 0, 0, 0]),
        _ => panic!("the buffer should come back"),
    }
}

#[test]
fn process_server_update_name_reads_the_lent_text() {
    let log = Rc::new(Log::default());
    let server = Server::new(Recorder { log: log.clone(), ..Default::default() });
    let client = Client::new();
    client
        .update_name("worker-1", |_c: &ipc::Client, _t: Type, q, h| {
            let (lent, res) = server.update_name_handler(q, h, 5);
            (lent, reply_err(res))
        })
        .unwrap();
    // Invalid UTF-8 and a buffer outside the object are invalid arguments.
    let q = UpdateNameQueryParameters { name: Buffer { offset: 0, len: 2 } };
    let mut h = KHandles::new();
    h.set(UpdateNameQueryParameters::HANDLE_NAME_MOBJ, KHandle::MemoryObject(MemoryObject::from_bytes(vec![0xff, 0xfe])));
    let (_, res) = server.update_name_handler(q, h, 5);
    assert!(matches!(res, Err(ProcessServerError::InvalidArgument)));
    let q = UpdateNameQueryParameters { name: Buffer { offset: 1, len: 2 } };
    let mut h = KHandles::new();
    h.set(UpdateNameQueryParameters::HANDLE_NAME_MOBJ, KHandle::MemoryObject(MemoryObject::from_bytes(b"ab".to_vec())));
    let (_, res) = server.update_name_handler(q, h, 5);
    assert!(matches!(res, Err(ProcessServerError::InvalidArgument)));
    assert_eq!(*log.names.borrow(), vec!["worker-1".to_string()]);
}

#[test]
fn process_server_create_process_roundtrip() {
    let log = Rc::new(Log::default());
    let server = Server::new(Recorder { log: log.clone(), ..Default::default() });
    let client = Client::new();
    let (handle, pid) = client
        .create_process("app", b"\x7fELF", &[("A", "1")], &[("0", "app"), ("1", "x")], |_c: &ipc::Client, _t: Type, q, h| {
            let (lent, res) = server.create_process_handler(q, h, 2);
            (lent, reply_err(res))
        })
        .unwrap();
    assert_eq!(handle, Handle(9));
    assert_eq!(pid, 77);
    assert_eq!(
        *log.created.borrow(),
        vec![("app".to_string(), b"\x7fELF".to_vec(), 1, 2)]
    );
    // The implementation's error comes back as is.
    let res = client.create_process("app", b"", &[], &[], |_c: &ipc::Client, _t: Type, q, h| {
        let (lent, res) = server.create_process_handler(q, h, 2);
        (lent, reply_err(res))
    });
    assert_eq!(res, Err(CallError::ReplyError(ProcessServerError::InvalidBinaryFormat)));
}

#[test]
fn process_server_create_process_refuses_a_bad_environment() {
    let log = Rc::new(Log::default());
    let server = Server::new(Recorder { log: log.clone(), ..Default::default() });
    let q = CreateProcessQueryParameters { name: Buffer { offset: 0, len: 1 }, binary: Buffer { offset: 0, len: 1 } };
    let mut h = KHandles::new();
    h.set(CreateProcessQueryParameters::HANDLE_NAME_MOBJ, KHandle::MemoryObject(MemoryObject::from_bytes(b"a".to_vec())));
    h.set(CreateProcessQueryParameters::HANDLE_BINARY_MOBJ, KHandle::MemoryObject(MemoryObject::from_bytes(b"b".to_vec())));
    h.set(CreateProcessQueryParameters::HANDLE_ENV_MOBJ, KHandle::MemoryObject(MemoryObject::create(4096)));
    h.set(CreateProcessQueryParameters::HANDLE_ARGS_MOBJ, KHandle::MemoryObject(KVBlock::build(&[])));
    let (_, res) = server.create_process_handler(q, h, 2);
    assert!(matches!(res, Err(ProcessServerError::InvalidArgument)));
    assert!(log.created.borrow().is_empty());
}

#[test]
fn process_server_update_env_and_exit_code() {
    let log = Rc::new(Log::default());
    let server = Server::new(Recorder { log: log.clone(), ..Default::default() });
    let client = Client::new();
    client
        .update_env(KVBlock::build(&[("K", "V")]), |_c: &ipc::Client, _t: Type, q, h| {
            let (lent, res) = server.update_env_handler(q, h, 3);
            (lent, reply_err(res))
        })
        .unwrap();
    assert_eq!(*log.envs.borrow(), vec![vec![("K".to_string(), "V".to_string())]]);
    let (_, res) = server.update_env_handler(UpdateEnvQueryParameters {}, KHandles::new(), 3);
    assert!(matches!(res, Err(ProcessServerError::InvalidArgument)));
    client
        .set_exit_code(-7, |_c: &ipc::Client, _t: Type, q, h| {
            let (lent, res) = server.set_exit_code_handler(q, h, 3);
            (lent, reply_err(res))
        })
        .unwrap();
    assert_eq!(*log.exit_codes.borrow(), vec![-7]);
}

#[test]
fn process_server_list_processes_roundtrip() {
    let mut processes = Vec::new();
    for i in 0..10u64 {
        processes.push(ProcessInfo {
            pid: i,
            ppid: 0,
            name: format!("process-number-{}", i),
            status: if i % 2 == 0 { ProcessStatus::Running } else { ProcessStatus::Exited(i as i32) },
        });
    }
    let server = Server::new(Recorder { processes: processes.clone(), ..Default::default() });
    let client = Client::new();
    let sizes = RefCell::new(Vec::new());
    let listed = client
        .list_processes(|_c: &ipc::Client, _t: Type, q: ListProcessesQueryParameters, h| {
            sizes.borrow_mut().push(q.buffer.len);
            let (lent, res) = server.list_processes_handler(q, h, 1);
            (lent, reply_err(res))
        })
        .unwrap();
    assert_eq!(listed.len(), 10);
    for (a, b) in listed.iter().zip(processes.iter()) {
        assert_eq!(a.pid, b.pid);
        assert_eq!(a.name, b.name);
        assert_eq!(a.status, b.status);
    }
    // The first buffers were too small.
    assert!(sizes.borrow().len() > 1);
}

#[test]
fn process_server_list_processes_errors() {
    let server = Server::new(Recorder {
        processes: vec![ProcessInfo { pid: 1, ppid: 0, name: "init".to_string(), status: ProcessStatus::Running }],
        ..Default::default()
    });
    let q = ListProcessesQueryParameters { buffer: Buffer { offset: 0, len: 16 } };
    let mut h = KHandles::new();
    h.set(ListProcessesQueryParameters::HANDLE_BUFFER_MOBJ, KHandle::MemoryObject(MemoryObject::create(16)));
    let (_, res) = server.list_processes_handler(q, h, 1);
    assert!(matches!(res, Err(ProcessServerError::BufferTooSmall)));
    let (_, res) = server.list_processes_handler(q, KHandles::new(), 1);
    assert!(matches!(res, Err(ProcessServerError::InvalidArgument)));
}

#[test]
fn process_server_startup_info_roundtrip() {
    let server = Server::new(Recorder { name: "daemon".to_string(), ..Default::default() });
    let client = Client::new();
    let info = client
        .get_startup_info(|_c: &ipc::Client, _t: Type, q, h| {
            let (lent, res) = server.get_startup_info_handler(q, h, 1);
            (lent, reply_err(res))
        })
        .unwrap();
    assert_eq!(info.name, "daemon");
    assert_eq!(entries(&info.env), vec![("HOME".to_string(), "/root".to_string())]);
    assert_eq!(info.args.len(), 2);
    assert_eq!(info.symbols.lookup(0x180), Some((0x100, "entry")));
}

#[test]
fn process_server_simple_messages() {
    let log = Rc::new(Log::default());
    let server = Server::new(Recorder { log: log.clone(), ..Default::default() });
    let client = Client::new();
    let opened = client.open_process(12, |_c: &ipc::Client, _t: Type, q, h| {
        let (lent, res) = server.open_process_handler(q, h, 1);
        (lent, reply_err(res))
    });
    assert_eq!(opened, Ok((Handle(112), 12)));
    let status = client.get_process_status(Handle(1), |_c: &ipc::Client, _t: Type, q, h| {
        let (lent, res) = server.get_process_status_handler(q, h, 1);
        (lent, reply_err(res))
    });
    assert_eq!(status, Ok(ProcessStatus::Running));
    let status = client.get_process_status(Handle(2), |_c: &ipc::Client, _t: Type, q, h| {
        let (lent, res) = server.get_process_status_handler(q, h, 1);
        (lent, reply_err(res))
    });
    assert_eq!(status, Ok(ProcessStatus::Exited(3)));
    let killed = client.terminate_process(Handle(1), |_c: &ipc::Client, _t: Type, q, h| {
        let (lent, res) = server.terminate_process_handler(q, h, 1);
        (lent, reply_err(res))
    });
    assert_eq!(killed, Err(CallError::ReplyError(ProcessServerError::ProcessNotRunning)));
    let closed = client.close_process(Handle(1), |_c: &ipc::Client, _t: Type, q, h| {
        let (lent, res) = server.close_process_handler(q, h, 1);
        (lent, reply_err(res))
    });
    assert_eq!(closed, Ok(()));
    let env = client
        .get_process_env(Handle(1), |_c: &ipc::Client, _t: Type, q, h| {
            let (lent, res) = server.get_process_env_handler(q, h, 1);
            (lent, reply_err(res))
        })
        .unwrap();
    assert_eq!(entries(&env), vec![("LANG".to_string(), "C".to_string())]);
    let args = client
        .get_process_args(Handle(1), |_c: &ipc::Client, _t: Type, q, h| {
            let (lent, res) = server.get_process_args_handler(q, h, 1);
            (lent, reply_err(res))
        })
        .unwrap();
    assert_eq!(args.len(), 0);
    server.process_terminated_handler(12);
    assert_eq!(*log.terminated.borrow(), vec![12]);
}

#[test]
fn process_server_notification_registration() {
    let log = Rc::new(Log::default());
    let server = Server::new(Recorder { log: log.clone(), ..Default::default() });
    let client = Client::new();
    let reg = client.register_process_terminated_notification(Handle(1), 99, PortSender(8), |_c: &ipc::Client, _t: Type, q, h| {
        let (lent, res) = server.register_process_terminated_notification_handler(q, h, 1);
        (lent, reply_err(res))
    });
    assert_eq!(reg, Ok(Handle(55)));
    assert_eq!(*log.ports.borrow(), vec![(8, 99)]);
    let q = RegisterProcessTerminatedNotificationQueryParameters { handle: Handle(1), correlation: 1 };
    let (_, res) = server.register_process_terminated_notification_handler(q, KHandles::new(), 1);
    assert!(matches!(res, Err(ProcessServerError::InvalidArgument)));
    let unreg = client.unregister_process_terminated_notification(Handle(55), |_c: &ipc::Client, _t: Type, q, h| {
        let (lent, res) = server.unregister_process_terminated_notification_handler(q, h, 1);
        (lent, reply_err(res))
    });
    assert_eq!(unreg, Ok(()));
}
