//! High level process management: the processes of the system, the waiters
//! of their termination, and the current process.
use vstd::prelude::*;
use vstd::string::StringSliceAdditionalSpecFns;
use crate::ipc::{self, CallError, KHandle, KHandles, HandleView, Handle, no_handles};
use crate::kobject::{MemoryObject, PortReceiver, PortSender};
use crate::text::str_eq;
use super::client::{Client, ProcessServerCallError};
use super::messages::{
    Type, ProcessStatus, ProcessServerError, ProcessTerminatedNotification, CreateProcessQueryParameters,
    CreateProcessReply, OpenProcessQueryParameters, OpenProcessReply, TerminateProcessQueryParameters,
    TerminateProcessReply, CloseProcessQueryParameters, CloseProcessReply, GetProcessStatusQueryParameters,
    GetProcessStatusReply, GetProcessEnvQueryParameters, GetProcessEnvReply, GetProcessArgsQueryParameters,
    GetProcessArgsReply, RegisterProcessTerminatedNotificationQueryParameters,
    RegisterProcessTerminatedNotificationReply, UnregisterProcessTerminatedNotificationQueryParameters,
    UnregisterProcessTerminatedNotificationReply, UpdateNameQueryParameters, UpdateNameReply,
    UpdateEnvQueryParameters, UpdateEnvReply, SetExitCodeQueryParameters, SetExitCodeReply,
    GetProcessNameQueryParameters, GetProcessNameReply, ListProcessesQueryParameters, ListProcessesReply,
};
use super::plblock::{self, ProcessInfo, infos_view, processes_of};
use vstd::utf8::{valid_utf8, decode_utf8};
use super::kvblock::{KVBlock, kv_object_size, kv_image, kv_entries_fit, entries_view, lemma_kv_build_then_load, kv_bytes_wf, kv_entries_of, lemma_wf_bytes};
use super::symblock::SymBlock;
use super::env::{Entry, lookup, with_entry, has_key, replace_values, entries_fit, image_of_entries, lemma_image_of_view};
use super::client::holds_kv_block;
use super::StartupInfo;
use crate::record_block::lemma_parse_len;
use crate::record_block::{pair_layout, HEADER_SIZE};

verus! {

/// The entries of a list of string pairs.
pub open spec fn pairs_view(v: Seq<(String, String)>) -> Seq<Entry> {
    v.map_values(|p: (String, String)| (p.0@, p.1@))
}

/// The entries of a well formed block, as strings.
pub fn block_to_vec(block: &KVBlock) -> (r: Vec<(String, String)>)
    requires
        block.wf(),
    ensures
        pairs_view(r@) == block.entries(),
{
    proof {
        lemma_parse_len(pair_layout(), block@, HEADER_SIZE as int, block.count() as nat);
    }
    let n = block.len();
    let mut entries: Vec<(String, String)> = Vec::new();
    let mut it = block.iter();
    let mut i: usize = 0;
    while i < n
        invariant
            block.wf(),
            n == block.count(),
            n == block.entries().len(),
            it.owner() == block,
            it.index() == i,
            i <= n,
            pairs_view(entries@) == block.entries().take(i as int),
        decreases n - i,
    {
        match it.next() {
            Some((k, v)) => {
                let ghost prev = entries@;
                entries.push((k.to_owned(), v.to_owned()));
                proof {
                    assert(pairs_view(entries@) =~= pairs_view(prev).push((k@, v@)));
                    assert(block.entries().take(i + 1) =~= block.entries().take(i as int).push(block.entries()[i as int]));
                }
            },
            None => {
                proof {
                    assert(false);
                }
            },
        }
        i = i + 1;
    }
    proof {
        assert(block.entries().take(n as int) =~= block.entries());
    }
    entries
}

/// The value of the first entry of a well formed block with key `key`.
pub fn block_lookup(block: &KVBlock, key: &str) -> (r: Option<String>)
    requires
        block.wf(),
    ensures
        match r {
            Some(v) => lookup(block.entries(), key@) == Some(v@),
            None => lookup(block.entries(), key@) is None,
        },
{
    proof {
        lemma_parse_len(pair_layout(), block@, HEADER_SIZE as int, block.count() as nat);
        assert(block.entries().skip(0) =~= block.entries());
    }
    let n = block.len();
    let mut it = block.iter();
    let mut i: usize = 0;
    while i < n
        invariant
            block.wf(),
            n == block.count(),
            n == block.entries().len(),
            it.owner() == block,
            it.index() == i,
            i <= n,
            lookup(block.entries(), key@) == lookup(block.entries().skip(i as int), key@),
        decreases n - i,
    {
        let ghost rest = block.entries().skip(i as int);
        match it.next() {
            Some((k, v)) => {
                proof {
                    assert(rest[0] == (k@, v@));
                }
                if str_eq(k, key) {
                    return Some(v.to_owned());
                }
                proof {
                    assert(rest.drop_first() =~= block.entries().skip(i + 1));
                }
            },
            None => {
                proof {
                    assert(false);
                }
            },
        }
        i = i + 1;
    }
    proof {
        assert(block.entries().skip(n as int).len() == 0);
    }
    None
}

/// High level process management API.
pub struct Process {
    handle: Handle,
    pid: u64,
}

impl Process {
    /// Spawn a new process with the given name, binary, environment variables and arguments.
    pub fn spawn<F>(client: &Client, name: &str, binary: &[u8], env: &[(&str, &str)], args: &[(&str, &str)], call: F) -> (r: Result<Process, ProcessServerCallError>)
        where
            F: FnOnce(&ipc::Client, Type, CreateProcessQueryParameters, KHandles) -> (KHandles, Result<(CreateProcessReply, KHandles), ProcessServerCallError>),
        requires
            kv_object_size(env@) + 16 <= usize::MAX,
            kv_object_size(args@) + 16 <= usize::MAX,
            forall|h: KHandles| #![trigger h@] h@ == no_handles().update(CreateProcessQueryParameters::HANDLE_NAME_MOBJ as int, HandleView::Memory(name.spec_bytes())).update(CreateProcessQueryParameters::HANDLE_BINARY_MOBJ as int, HandleView::Memory(binary@)).update(CreateProcessQueryParameters::HANDLE_ENV_MOBJ as int, HandleView::Memory(kv_image(env@))).update(CreateProcessQueryParameters::HANDLE_ARGS_MOBJ as int, HandleView::Memory(kv_image(args@))) ==> call.requires((&client.ipc(), Type::CreateProcess, CreateProcessQueryParameters { name: (ipc::Buffer { offset: 0, len: (name.spec_bytes()).len() as usize }), binary: (ipc::Buffer { offset: 0, len: (binary@).len() as usize }) }, h)),
        ensures
            exists|h: KHandles, out: (KHandles, Result<(CreateProcessReply, KHandles), ProcessServerCallError>)| {
                &&& h@ == no_handles().update(CreateProcessQueryParameters::HANDLE_NAME_MOBJ as int, HandleView::Memory(name.spec_bytes())).update(CreateProcessQueryParameters::HANDLE_BINARY_MOBJ as int, HandleView::Memory(binary@)).update(CreateProcessQueryParameters::HANDLE_ENV_MOBJ as int, HandleView::Memory(kv_image(env@))).update(CreateProcessQueryParameters::HANDLE_ARGS_MOBJ as int, HandleView::Memory(kv_image(args@)))
                &&& #[trigger] call.ensures((&client.ipc(), Type::CreateProcess, CreateProcessQueryParameters { name: (ipc::Buffer { offset: 0, len: (name.spec_bytes()).len() as usize }), binary: (ipc::Buffer { offset: 0, len: (binary@).len() as usize }) }, h), out)
                &&& r == match out.1 {
                    Ok(rep) => Ok::<Process, ProcessServerCallError>(Process::spec_new(rep.0.handle, rep.0.pid)),
                    Err(e) => Err::<Process, ProcessServerCallError>(e),
                }
            },
    {
        match client.create_process(name, binary, env, args, call) {
            Ok((handle, pid)) => Ok(Process { handle, pid }),
            Err(e) => Err(e),
        }
    }

    /// Open an existing process by its PID.
    pub fn open<F>(client: &Client, pid: u64, call: F) -> (r: Result<Process, ProcessServerCallError>)
        where
            F: FnOnce(&ipc::Client, Type, OpenProcessQueryParameters, KHandles) -> (KHandles, Result<(OpenProcessReply, KHandles), ProcessServerCallError>),
        requires
            forall|h: KHandles| #![trigger h@] h@ == no_handles() ==> call.requires((&client.ipc(), Type::OpenProcess, OpenProcessQueryParameters { pid: pid }, h)),
        ensures
            exists|h: KHandles, out: (KHandles, Result<(OpenProcessReply, KHandles), ProcessServerCallError>)| {
                &&& h@ == no_handles()
                &&& #[trigger] call.ensures((&client.ipc(), Type::OpenProcess, OpenProcessQueryParameters { pid: pid }, h), out)
                &&& r == match out.1 {
                    Ok(rep) => Ok::<Process, ProcessServerCallError>(Process::spec_new(rep.0.handle, rep.0.pid)),
                    Err(e) => Err::<Process, ProcessServerCallError>(e),
                }
            },
    {
        match client.open_process(pid, call) {
            Ok((handle, pid)) => Ok(Process { handle, pid }),
            Err(e) => Err(e),
        }
    }

    /// Kill the process
    pub fn kill<F>(&self, client: &Client, call: F) -> (r: Result<(), ProcessServerCallError>)
        where
            F: FnOnce(&ipc::Client, Type, TerminateProcessQueryParameters, KHandles) -> (KHandles, Result<(TerminateProcessReply, KHandles), ProcessServerCallError>),
        requires
            forall|h: KHandles| #![trigger h@] h@ == no_handles() ==> call.requires((&client.ipc(), Type::TerminateProcess, TerminateProcessQueryParameters { handle: self.spec_handle() }, h)),
        ensures
            exists|h: KHandles, out: (KHandles, Result<(TerminateProcessReply, KHandles), ProcessServerCallError>)| {
                &&& h@ == no_handles()
                &&& #[trigger] call.ensures((&client.ipc(), Type::TerminateProcess, TerminateProcessQueryParameters { handle: self.spec_handle() }, h), out)
                &&& r == match out.1 {
                    Ok(rep) => Ok::<(), ProcessServerCallError>(()),
                    Err(e) => Err::<(), ProcessServerCallError>(e),
                }
            },
    {
        client.terminate_process(self.handle, call)
    }

    /// Close the handle of the process held by the server.
    pub fn close<F>(self, client: &Client, call: F) -> (r: Result<(), ProcessServerCallError>)
        where
            F: FnOnce(&ipc::Client, Type, CloseProcessQueryParameters, KHandles) -> (KHandles, Result<(CloseProcessReply, KHandles), ProcessServerCallError>),
        requires
            forall|h: KHandles| #![trigger h@] h@ == no_handles() ==> call.requires((&client.ipc(), Type::CloseProcess, CloseProcessQueryParameters { handle: self.spec_handle() }, h)),
        ensures
            exists|h: KHandles, out: (KHandles, Result<(CloseProcessReply, KHandles), ProcessServerCallError>)| {
                &&& h@ == no_handles()
                &&& #[trigger] call.ensures((&client.ipc(), Type::CloseProcess, CloseProcessQueryParameters { handle: self.spec_handle() }, h), out)
                &&& r == match out.1 {
                    Ok(rep) => Ok::<(), ProcessServerCallError>(()),
                    Err(e) => Err::<(), ProcessServerCallError>(e),
                }
            },
    {
        client.close_process(self.handle, call)
    }

    /// The process with server handle `handle` and PID `pid`.
    pub closed spec fn spec_new(handle: Handle, pid: u64) -> Process {
        Process { handle, pid }
    }

    /// The server handle of the process.
    pub closed spec fn spec_handle(&self) -> Handle {
        self.handle
    }

    /// The PID of the process.
    pub closed spec fn spec_pid(&self) -> u64 {
        self.pid
    }

    /// Get the PID of the process.
    pub fn pid(&self) -> (r: u64)
        ensures
            r == self.spec_pid(),
    {
        self.pid
    }

    /// Get the status of the process. The server is expected to answer.
    pub fn status<F>(&self, client: &Client, call: F) -> (r: ProcessStatus)
        where
            F: FnOnce(&ipc::Client, Type, GetProcessStatusQueryParameters, KHandles) -> (KHandles, Result<(GetProcessStatusReply, KHandles), ProcessServerCallError>),
        requires
            forall|h: KHandles| #![trigger h@] h@ == no_handles() ==> call.requires((&client.ipc(), Type::GetProcessStatus, GetProcessStatusQueryParameters { handle: self.spec_handle() }, h)),
            forall|a: (&ipc::Client, Type, GetProcessStatusQueryParameters, KHandles), out: (KHandles, Result<(GetProcessStatusReply, KHandles), ProcessServerCallError>)|
                #[trigger] call.ensures(a, out) ==> out.1 is Ok,
        ensures
            exists|h: KHandles, out: (KHandles, Result<(GetProcessStatusReply, KHandles), ProcessServerCallError>)| {
                &&& h@ == no_handles()
                &&& #[trigger] call.ensures((&client.ipc(), Type::GetProcessStatus, GetProcessStatusQueryParameters { handle: self.spec_handle() }, h), out)
                &&& out.1 matches Ok(rep) && r == rep.0.status
            },
    {
        match client.get_process_status(self.handle, call) {
            Ok(status) => status,
            Err(_) => {
                proof {
                    assert(false);
                }
                ProcessStatus::Running
            },
        }
    }

    /// Get the environment variables of the process. The server is expected
    /// to answer with a well formed block.
    pub fn env<F>(&self, client: &Client, call: F) -> (r: Vec<(String, String)>)
        where
            F: FnOnce(&ipc::Client, Type, GetProcessEnvQueryParameters, KHandles) -> (KHandles, Result<(GetProcessEnvReply, KHandles), ProcessServerCallError>),
        requires
            forall|h: KHandles| #![trigger h@] h@ == no_handles() ==> call.requires((&client.ipc(), Type::GetProcessEnv, GetProcessEnvQueryParameters { handle: self.spec_handle() }, h)),
            forall|a: (&ipc::Client, Type, GetProcessEnvQueryParameters, KHandles), out: (KHandles, Result<(GetProcessEnvReply, KHandles), ProcessServerCallError>)|
                #[trigger] call.ensures(a, out) ==> out.1 is Ok && holds_kv_block(out.1->Ok_0.1@, GetProcessEnvReply::HANDLE_ENV_MOBJ as int)
                    && kv_bytes_wf(ipc::slot_bytes(out.1->Ok_0.1@, GetProcessEnvReply::HANDLE_ENV_MOBJ as int)),
        ensures
            exists|h: KHandles, out: (KHandles, Result<(GetProcessEnvReply, KHandles), ProcessServerCallError>)| {
                &&& h@ == no_handles()
                &&& #[trigger] call.ensures((&client.ipc(), Type::GetProcessEnv, GetProcessEnvQueryParameters { handle: self.spec_handle() }, h), out)
                &&& out.1 matches Ok(rep) && pairs_view(r@) == kv_entries_of(ipc::slot_bytes(rep.1@, GetProcessEnvReply::HANDLE_ENV_MOBJ as int))
            },
    {
        match client.get_process_env(self.handle, call) {
            Ok(block) => {
                proof {
                    lemma_wf_bytes(block);
                }
                block_to_vec(&block)
            },
            Err(_) => {
                proof {
                    assert(false);
                }
                Vec::new()
            },
        }
    }

    /// Get the arguments of the process. The server is expected to answer
    /// with a well formed block.
    pub fn args<F>(&self, client: &Client, call: F) -> (r: Vec<(String, String)>)
        where
            F: FnOnce(&ipc::Client, Type, GetProcessArgsQueryParameters, KHandles) -> (KHandles, Result<(GetProcessArgsReply, KHandles), ProcessServerCallError>),
        requires
            forall|h: KHandles| #![trigger h@] h@ == no_handles() ==> call.requires((&client.ipc(), Type::GetProcessArgs, GetProcessArgsQueryParameters { handle: self.spec_handle() }, h)),
            forall|a: (&ipc::Client, Type, GetProcessArgsQueryParameters, KHandles), out: (KHandles, Result<(GetProcessArgsReply, KHandles), ProcessServerCallError>)|
                #[trigger] call.ensures(a, out) ==> out.1 is Ok && holds_kv_block(out.1->Ok_0.1@, GetProcessArgsReply::HANDLE_ARGS_MOBJ as int)
                    && kv_bytes_wf(ipc::slot_bytes(out.1->Ok_0.1@, GetProcessArgsReply::HANDLE_ARGS_MOBJ as int)),
        ensures
            exists|h: KHandles, out: (KHandles, Result<(GetProcessArgsReply, KHandles), ProcessServerCallError>)| {
                &&& h@ == no_handles()
                &&& #[trigger] call.ensures((&client.ipc(), Type::GetProcessArgs, GetProcessArgsQueryParameters { handle: self.spec_handle() }, h), out)
                &&& out.1 matches Ok(rep) && pairs_view(r@) == kv_entries_of(ipc::slot_bytes(rep.1@, GetProcessArgsReply::HANDLE_ARGS_MOBJ as int))
            },
    {
        match client.get_process_args(self.handle, call) {
            Ok(block) => {
                proof {
                    lemma_wf_bytes(block);
                }
                block_to_vec(&block)
            },
            Err(_) => {
                proof {
                    assert(false);
                }
                Vec::new()
            },
        }
    }

    /// Get the name of the process. The server is expected to answer, with a
    /// buffer of more than half the address space at the latest.
    pub fn name<F>(&self, client: &Client, call: F) -> (r: String)
        where
            F: Fn(&ipc::Client, Type, GetProcessNameQueryParameters, KHandles) -> (KHandles, Result<(GetProcessNameReply, KHandles), ProcessServerCallError>),
        requires
            forall|size: usize, h: KHandles| #![trigger h@, ipc::zeroed_handle(GetProcessNameQueryParameters::HANDLE_BUFFER_MOBJ as int, size)]
                h@ == ipc::zeroed_handle(GetProcessNameQueryParameters::HANDLE_BUFFER_MOBJ as int, size) ==> call.requires((&client.ipc(), Type::GetProcessName, GetProcessNameQueryParameters { handle: self.spec_handle(), buffer: ipc::Buffer { offset: 0, len: size } }, h)),
            forall|a: (&ipc::Client, Type, GetProcessNameQueryParameters, KHandles), out: (KHandles, Result<(GetProcessNameReply, KHandles), ProcessServerCallError>)| #[trigger] call.ensures(a, out) && out.1 is Ok ==> {
                &&& ipc::keeps_lent_size(a.3@, out.0@, GetProcessNameQueryParameters::HANDLE_BUFFER_MOBJ as int)
                &&& out.1->Ok_0.0.buffer_used_len <= ipc::slot_bytes(out.0@, GetProcessNameQueryParameters::HANDLE_BUFFER_MOBJ as int).len()
                &&& valid_utf8(ipc::used_bytes(out.0@, GetProcessNameQueryParameters::HANDLE_BUFFER_MOBJ as int, out.1->Ok_0.0.buffer_used_len))
            },
            forall|a: (&ipc::Client, Type, GetProcessNameQueryParameters, KHandles), out: (KHandles, Result<(GetProcessNameReply, KHandles), ProcessServerCallError>)| #[trigger] call.ensures(a, out) ==>
                out.1 is Ok || (out.1 == Err::<(GetProcessNameReply, KHandles), ProcessServerCallError>(CallError::ReplyError(ProcessServerError::BufferTooSmall)) && a.2.buffer.len <= usize::MAX / 2),
        ensures
            exists|size: usize, h: KHandles, out: (KHandles, Result<(GetProcessNameReply, KHandles), ProcessServerCallError>)| {
                &&& h@ == ipc::zeroed_handle(GetProcessNameQueryParameters::HANDLE_BUFFER_MOBJ as int, size)
                &&& #[trigger] call.ensures((&client.ipc(), Type::GetProcessName, GetProcessNameQueryParameters { handle: self.spec_handle(), buffer: ipc::Buffer { offset: 0, len: size } }, h), out)
                &&& out.1 matches Ok(rep) && r@ == decode_utf8(ipc::used_bytes(out.0@, GetProcessNameQueryParameters::HANDLE_BUFFER_MOBJ as int, rep.0.buffer_used_len))
            },
    {
        match client.get_process_name(self.handle, call) {
            Ok(name) => name,
            Err(_) => {
                proof {
                    assert(false);
                }
                String::new()
            },
        }
    }

    /// Create a waiter for this process, allowing to wait for its termination.
    pub fn create_waiter<F>(&self, reader: PortReceiver, sender: PortSender, client: &Client, call: F) -> (r: Result<ProcessWaiter, ProcessServerCallError>)
        where
            F: FnOnce(&ipc::Client, Type, RegisterProcessTerminatedNotificationQueryParameters, KHandles) -> (KHandles, Result<(RegisterProcessTerminatedNotificationReply, KHandles), ProcessServerCallError>),
        requires
            forall|h: KHandles| #![trigger h@]
                h@ == no_handles().update(RegisterProcessTerminatedNotificationQueryParameters::HANDLE_PORT as int, HandleView::Port(sender.0))
                ==> call.requires((&client.ipc(), Type::RegisterProcessTerminatedNotification, RegisterProcessTerminatedNotificationQueryParameters { handle: self.spec_handle(), correlation: 0 }, h)),
        ensures
            exists|h: KHandles, out: (KHandles, Result<(RegisterProcessTerminatedNotificationReply, KHandles), ProcessServerCallError>)| {
                &&& h@ == no_handles().update(RegisterProcessTerminatedNotificationQueryParameters::HANDLE_PORT as int, HandleView::Port(sender.0))
                &&& #[trigger] call.ensures((&client.ipc(), Type::RegisterProcessTerminatedNotification, RegisterProcessTerminatedNotificationQueryParameters { handle: self.spec_handle(), correlation: 0 }, h), out)
                &&& match out.1 {
                    Ok(rep) => r matches Ok(w) && w.spec_status() == ProcessStatus::Running
                        && w.spec_registration() == rep.0.registration_handle && w.spec_reader() == reader,
                    Err(e) => r is Err && r->Err_0 == e,
                }
            },
    {
        ProcessWaiter::new(self, reader, sender, client, call)
    }

    /// List all processes in the system.
    ///
    /// The server writes into a buffer lent for the call; while it answers that
    /// the buffer is too small, the call is made again with one twice as large.
    pub fn list<F>(client: &Client, call: F) -> (r: Result<Vec<ProcessInfo>, ProcessServerCallError>)
        where
            F: Fn(&ipc::Client, Type, ListProcessesQueryParameters, KHandles) -> (KHandles, Result<(ListProcessesReply, KHandles), ProcessServerCallError>),
        requires
            forall|size: usize, h: KHandles| #![trigger h@, ipc::zeroed_handle(ListProcessesQueryParameters::HANDLE_BUFFER_MOBJ as int, size)]
                h@ == ipc::zeroed_handle(ListProcessesQueryParameters::HANDLE_BUFFER_MOBJ as int, size) ==> call.requires((&client.ipc(), Type::ListProcesses, ListProcessesQueryParameters { buffer: ipc::Buffer { offset: 0, len: size } }, h)),
            forall|a: (&ipc::Client, Type, ListProcessesQueryParameters, KHandles), out: (KHandles, Result<(ListProcessesReply, KHandles), ProcessServerCallError>)| #[trigger] call.ensures(a, out) && out.1 is Ok ==> {
                &&& ipc::keeps_lent_size(a.3@, out.0@, ListProcessesQueryParameters::HANDLE_BUFFER_MOBJ as int)
                &&& out.1->Ok_0.0.buffer_used_len <= ipc::slot_bytes(out.0@, ListProcessesQueryParameters::HANDLE_BUFFER_MOBJ as int).len()
                &&& plblock::list_reply_ok(ipc::used_bytes(out.0@, ListProcessesQueryParameters::HANDLE_BUFFER_MOBJ as int, out.1->Ok_0.0.buffer_used_len))
            },
        ensures
            r is Ok ==> exists|size: usize, h: KHandles, out: (KHandles, Result<(ListProcessesReply, KHandles), ProcessServerCallError>)| {
                &&& h@ == ipc::zeroed_handle(ListProcessesQueryParameters::HANDLE_BUFFER_MOBJ as int, size)
                &&& #[trigger] call.ensures((&client.ipc(), Type::ListProcesses, ListProcessesQueryParameters { buffer: ipc::Buffer { offset: 0, len: size } }, h), out)
                &&& out.1 matches Ok(rep) && infos_view(r->Ok_0@) == processes_of(ipc::used_bytes(out.0@, ListProcessesQueryParameters::HANDLE_BUFFER_MOBJ as int, rep.0.buffer_used_len))
            },
            r matches Err(e) ==> exists|size: usize, h: KHandles, out: (KHandles, Result<(ListProcessesReply, KHandles), ProcessServerCallError>)| {
                &&& h@ == ipc::zeroed_handle(ListProcessesQueryParameters::HANDLE_BUFFER_MOBJ as int, size)
                &&& #[trigger] call.ensures((&client.ipc(), Type::ListProcesses, ListProcessesQueryParameters { buffer: ipc::Buffer { offset: 0, len: size } }, h), out)
                &&& out.1 == Err::<(ListProcessesReply, KHandles), ProcessServerCallError>(e)
                &&& (e == CallError::<ProcessServerError>::ReplyError(ProcessServerError::BufferTooSmall) ==> size > usize::MAX / 2)
            },
    {
        client.list_processes(call)
    }
}

/// Represents a waiter for a process, allowing to wait for its termination.
///
/// The port it reads is created by the caller; the notifications that arrive
/// on it are handed to `status` and `wait_status`.
pub struct ProcessWaiter {
    reader: PortReceiver,
    registration_handle: Handle,
    status: ProcessStatus,
}

impl ProcessWaiter {
    pub closed spec fn spec_status(&self) -> ProcessStatus {
        self.status
    }

    pub closed spec fn spec_registration(&self) -> Handle {
        self.registration_handle
    }

    pub closed spec fn spec_reader(&self) -> PortReceiver {
        self.reader
    }

    /// Create a new ProcessWaiter for the given process, registering the
    /// sending side of the port `reader` reads for its termination.
    pub fn new<F>(process: &Process, reader: PortReceiver, sender: PortSender, client: &Client, call: F) -> (r: Result<Self, ProcessServerCallError>)
        where
            F: FnOnce(&ipc::Client, Type, RegisterProcessTerminatedNotificationQueryParameters, KHandles) -> (KHandles, Result<(RegisterProcessTerminatedNotificationReply, KHandles), ProcessServerCallError>),
        requires
            forall|h: KHandles| #![trigger h@]
                h@ == no_handles().update(RegisterProcessTerminatedNotificationQueryParameters::HANDLE_PORT as int, HandleView::Port(sender.0))
                ==> call.requires((&client.ipc(), Type::RegisterProcessTerminatedNotification, RegisterProcessTerminatedNotificationQueryParameters { handle: process.spec_handle(), correlation: 0 }, h)),
        ensures
            exists|h: KHandles, out: (KHandles, Result<(RegisterProcessTerminatedNotificationReply, KHandles), ProcessServerCallError>)| {
                &&& h@ == no_handles().update(RegisterProcessTerminatedNotificationQueryParameters::HANDLE_PORT as int, HandleView::Port(sender.0))
                &&& #[trigger] call.ensures((&client.ipc(), Type::RegisterProcessTerminatedNotification, RegisterProcessTerminatedNotificationQueryParameters { handle: process.spec_handle(), correlation: 0 }, h), out)
                &&& match out.1 {
                    Ok(rep) => r matches Ok(w) && w.spec_status() == ProcessStatus::Running
                        && w.spec_registration() == rep.0.registration_handle && w.spec_reader() == reader,
                    Err(e) => r is Err && r->Err_0 == e,
                }
            },
    {
        let correlation: u64 = 0;
        match client.register_process_terminated_notification(process.handle, correlation, sender, call) {
            Ok(registration_handle) => Ok(ProcessWaiter { reader, registration_handle, status: ProcessStatus::Running }),
            Err(e) => Err(e),
        }
    }

    /// Check if this object is waitable.
    pub fn is_waitable(&self) -> (r: bool)
        ensures
            r == (self.spec_status() == ProcessStatus::Running),
    {
        match self.status {
            ProcessStatus::Running => true,
            ProcessStatus::Exited(_) => false,
        }
    }

    /// Get the current status of the process, given what the port held:
    /// nothing yet, or the termination notification.
    ///
    /// Note that this will also update the status if the process has already terminated.
    pub fn status(&mut self, received: Option<ProcessTerminatedNotification>) -> (r: ProcessStatus)
        ensures
            received is None ==> r == old(self).spec_status() && *final(self) == *old(self),
            received matches Some(n) ==> r == ProcessStatus::Exited(n.exit_code)
                && final(self).spec_status() == ProcessStatus::Exited(n.exit_code)
                && final(self).spec_registration() == Handle(0)
                && final(self).spec_reader() == old(self).spec_reader(),
    {
        match received {
            None => self.status,
            Some(msg) => {
                self.process_message(msg);
                self.status
            },
        }
    }

    /// Wait for the process to terminate and return its exit code: `receive`
    /// blocks until the notification arrives, and is called only while the
    /// process is still running.
    pub fn wait_status<F: FnOnce() -> ProcessTerminatedNotification>(&mut self, receive: F) -> (r: i32)
        requires
            receive.requires(()),
        ensures
            old(self).spec_status() matches ProcessStatus::Exited(code) ==> r == code && *final(self) == *old(self),
            old(self).spec_status() is Running ==> exists|n: ProcessTerminatedNotification| {
                &&& #[trigger] receive.ensures((), n)
                &&& r == n.exit_code
                &&& final(self).spec_status() == ProcessStatus::Exited(n.exit_code)
                &&& final(self).spec_registration() == Handle(0)
            },
    {
        if let ProcessStatus::Exited(exit_code) = self.status {
            return exit_code;
        }
        let msg = receive();
        self.process_message(msg);
        msg.exit_code
    }

    fn process_message(&mut self, msg: ProcessTerminatedNotification)
        ensures
            final(self).spec_status() == ProcessStatus::Exited(msg.exit_code),
            final(self).spec_registration() == Handle(0),
            final(self).spec_reader() == old(self).spec_reader(),
    {
        self.status = ProcessStatus::Exited(msg.exit_code);
        // The handle is invalid after receiving the notification.
        self.registration_handle = Handle::invalid();
    }

    /// The registration to cancel when the waiter goes away, if it is still
    /// valid (the process did not terminate).
    pub fn pending_registration(&self) -> (r: Option<Handle>)
        ensures
            self.spec_registration() == Handle(0) ==> r is None,
            self.spec_registration() != Handle(0) ==> r == Some(self.spec_registration()),
    {
        if self.registration_handle.0 == 0 {
            None
        } else {
            Some(self.registration_handle)
        }
    }
}

/// Represents the current process.
pub struct SelfProcess {
    name: String,
    env: KVBlock,
    args: KVBlock,
    symbols: SymBlock,
}

impl SelfProcess {
    pub closed spec fn spec_name(&self) -> Seq<char> {
        self.name@
    }

    pub closed spec fn env_entries(&self) -> Seq<Entry> {
        self.env.entries()
    }

    pub closed spec fn args_entries(&self) -> Seq<Entry> {
        self.args.entries()
    }

    pub closed spec fn spec_symbols(&self) -> Seq<u8> {
        self.symbols@
    }

    /// The blocks can be read.
    pub closed spec fn wf(&self) -> bool {
        self.env.wf() && self.args.wf()
    }

    /// The current process, from the startup information the process server gave.
    pub fn new(startup_info: StartupInfo) -> (r: Self)
        requires
            startup_info.env.wf(),
            startup_info.args.wf(),
        ensures
            r.wf(),
            r.spec_name() == startup_info.name@,
            r.env_entries() == startup_info.env.entries(),
            r.args_entries() == startup_info.args.entries(),
            r.spec_symbols() == startup_info.symbols@,
    {
        SelfProcess {
            name: startup_info.name,
            env: startup_info.env,
            args: startup_info.args,
            symbols: startup_info.symbols,
        }
    }

    /// Get the process name
    pub fn name(&self) -> (r: String)
        ensures
            r@ == self.spec_name(),
    {
        self.name.clone()
    }

    /// Set the process name, and tell the process server. The server is expected to accept it.
    pub fn set_name<F>(&mut self, name: &str, client: &Client, call: F)
        where
            F: FnOnce(&ipc::Client, Type, UpdateNameQueryParameters, KHandles) -> (KHandles, Result<(UpdateNameReply, KHandles), ProcessServerCallError>),
        requires
            forall|h: KHandles| #![trigger h@]
                h@ == no_handles().update(UpdateNameQueryParameters::HANDLE_NAME_MOBJ as int, HandleView::Memory(name.spec_bytes()))
                ==> call.requires((&client.ipc(), Type::UpdateName, UpdateNameQueryParameters { name: ipc::Buffer { offset: 0, len: name.spec_bytes().len() as usize } }, h)),
            forall|a: (&ipc::Client, Type, UpdateNameQueryParameters, KHandles), out: (KHandles, Result<(UpdateNameReply, KHandles), ProcessServerCallError>)|
                #[trigger] call.ensures(a, out) ==> out.1 is Ok,
        ensures
            exists|h: KHandles, out: (KHandles, Result<(UpdateNameReply, KHandles), ProcessServerCallError>)| {
                &&& h@ == no_handles().update(UpdateNameQueryParameters::HANDLE_NAME_MOBJ as int, HandleView::Memory(name.spec_bytes()))
                &&& #[trigger] call.ensures((&client.ipc(), Type::UpdateName, UpdateNameQueryParameters { name: ipc::Buffer { offset: 0, len: name.spec_bytes().len() as usize } }, h), out)
            },
            final(self).spec_name() == name@,
            final(self).env_entries() == old(self).env_entries(),
            final(self).args_entries() == old(self).args_entries(),
            final(self).spec_symbols() == old(self).spec_symbols(),
            final(self).wf() == old(self).wf(),
    {
        self.name = name.to_owned();
        let _ = client.update_name(name, call);
    }

    /// Get the process environment variable
    pub fn env(&self, key: &str) -> (r: Option<String>)
        requires
            self.wf(),
        ensures
            match r {
                Some(v) => lookup(self.env_entries(), key@) == Some(v@),
                None => lookup(self.env_entries(), key@) is None,
            },
    {
        block_lookup(&self.env, key)
    }

    /// Set the process environment variable: every entry with this key takes
    /// the value, or the entry is appended. The new environment is sent to
    /// the process server.
    pub fn set_env<F>(&mut self, key: &str, value: &str, client: &Client, call: F)
        where
            F: FnOnce(&ipc::Client, Type, UpdateEnvQueryParameters, KHandles) -> (KHandles, Result<(UpdateEnvReply, KHandles), ProcessServerCallError>),
        requires
            old(self).wf(),
            entries_fit(with_entry(old(self).env_entries(), key@, value@)),
            forall|h: KHandles| #![trigger h@]
                h@ == no_handles().update(UpdateEnvQueryParameters::HANDLE_ENV_MOBJ as int, HandleView::Memory(image_of_entries(with_entry(old(self).env_entries(), key@, value@))))
                ==> call.requires((&client.ipc(), Type::UpdateEnv, UpdateEnvQueryParameters {}, h)),
            forall|a: (&ipc::Client, Type, UpdateEnvQueryParameters, KHandles), out: (KHandles, Result<(UpdateEnvReply, KHandles), ProcessServerCallError>)|
                #[trigger] call.ensures(a, out) ==> out.1 is Ok,
        ensures
            exists|h: KHandles, out: (KHandles, Result<(UpdateEnvReply, KHandles), ProcessServerCallError>)| {
                &&& h@ == no_handles().update(UpdateEnvQueryParameters::HANDLE_ENV_MOBJ as int, HandleView::Memory(image_of_entries(with_entry(old(self).env_entries(), key@, value@))))
                &&& #[trigger] call.ensures((&client.ipc(), Type::UpdateEnv, UpdateEnvQueryParameters {}, h), out)
            },
            final(self).wf(),
            final(self).env_entries() == with_entry(old(self).env_entries(), key@, value@),
            final(self).spec_name() == old(self).spec_name(),
            final(self).args_entries() == old(self).args_entries(),
            final(self).spec_symbols() == old(self).spec_symbols(),
    {
        let current = block_to_vec(&self.env);
        let ghost cur = pairs_view(current@);
        let mut new_entries: Vec<(&str, &str)> = Vec::new();
        let mut found = false;
        let mut i: usize = 0;
        while i < current.len()
            invariant
                cur == pairs_view(current@),
                i <= current@.len(),
                entries_view(new_entries@) == replace_values(cur.take(i as int), key@, value@),
                found == has_key(cur.take(i as int), key@),
            decreases current@.len() - i,
        {
            let entry_key = current[i].0.as_str();
            let entry_value = current[i].1.as_str();
            let ghost prev = new_entries@;
            proof {
                assert(cur[i as int] == (entry_key@, entry_value@));
                assert(cur.take(i + 1) =~= cur.take(i as int).push(cur[i as int]));
                assert(replace_values(cur.take(i + 1), key@, value@) =~= replace_values(cur.take(i as int), key@, value@).push(
                    if cur[i as int].0 == key@ { (key@, value@) } else { cur[i as int] }));
            }
            if str_eq(entry_key, key) {
                new_entries.push((key, value));
                found = true;
                proof {
                    assert(cur.take(i + 1)[i as int].0 == key@);
                }
            } else {
                new_entries.push((entry_key, entry_value));
                proof {
                    if has_key(cur.take(i + 1), key@) {
                        let j = choose|j: int| 0 <= j < cur.take(i + 1).len() && #[trigger] cur.take(i + 1)[j].0 == key@;
                        assert(cur.take(i as int)[j].0 == key@);
                    }
                    if has_key(cur.take(i as int), key@) {
                        let j = choose|j: int| 0 <= j < cur.take(i as int).len() && #[trigger] cur.take(i as int)[j].0 == key@;
                        assert(cur.take(i + 1)[j].0 == key@);
                    }
                }
            }
            proof {
                assert(entries_view(new_entries@) =~= entries_view(prev).push((new_entries@[i as int].0@, new_entries@[i as int].1@)));
                assert(entries_view(new_entries@) =~= replace_values(cur.take(i + 1), key@, value@));
            }
            i = i + 1;
        }
        proof {
            assert(cur.take(current@.len() as int) =~= cur);
        }
        if !found {
            let ghost prev = new_entries@;
            new_entries.push((key, value));
            proof {
                assert(entries_view(new_entries@) =~= entries_view(prev).push((key@, value@)));
                assert(replace_values(cur, key@, value@) =~= cur) by {
                    assert forall|j: int| 0 <= j < cur.len() implies replace_values(cur, key@, value@)[j] == cur[j] by {
                        if cur[j].0 == key@ {
                            assert(has_key(cur, key@));
                        }
                    }
                }
            }
        }
        proof {
            assert(entries_view(new_entries@) == with_entry(cur, key@, value@));
            lemma_image_of_view(new_entries@);
        }
        let mobj = KVBlock::build(new_entries.as_slice());
        proof {
            crate::process::kvblock::lemma_kv_image_header(new_entries@);
        }
        match KVBlock::from_memory_object(mobj.clone_object()) {
            Ok(env) => {
                proof {
                    lemma_kv_build_then_load(new_entries@, env);
                }
                self.env = env;
            },
            Err(_) => {
                proof {
                    assert(false);
                }
            },
        }
        let _ = client.update_env(mobj, call);
    }

    /// Get all environment variables
    pub fn env_all(&self) -> (r: Vec<(String, String)>)
        requires
            self.wf(),
        ensures
            pairs_view(r@) == self.env_entries(),
    {
        block_to_vec(&self.env)
    }

    /// Replace all environment variables, and send the new environment to the process server.
    pub fn replace_env<F>(&mut self, new_env: &[(&str, &str)], client: &Client, call: F)
        where
            F: FnOnce(&ipc::Client, Type, UpdateEnvQueryParameters, KHandles) -> (KHandles, Result<(UpdateEnvReply, KHandles), ProcessServerCallError>),
        requires
            old(self).wf(),
            kv_entries_fit(new_env@),
            forall|h: KHandles| #![trigger h@]
                h@ == no_handles().update(UpdateEnvQueryParameters::HANDLE_ENV_MOBJ as int, HandleView::Memory(kv_image(new_env@)))
                ==> call.requires((&client.ipc(), Type::UpdateEnv, UpdateEnvQueryParameters {}, h)),
            forall|a: (&ipc::Client, Type, UpdateEnvQueryParameters, KHandles), out: (KHandles, Result<(UpdateEnvReply, KHandles), ProcessServerCallError>)|
                #[trigger] call.ensures(a, out) ==> out.1 is Ok,
        ensures
            exists|h: KHandles, out: (KHandles, Result<(UpdateEnvReply, KHandles), ProcessServerCallError>)| {
                &&& h@ == no_handles().update(UpdateEnvQueryParameters::HANDLE_ENV_MOBJ as int, HandleView::Memory(kv_image(new_env@)))
                &&& #[trigger] call.ensures((&client.ipc(), Type::UpdateEnv, UpdateEnvQueryParameters {}, h), out)
            },
            final(self).wf(),
            final(self).env_entries() == entries_view(new_env@),
            final(self).spec_name() == old(self).spec_name(),
            final(self).args_entries() == old(self).args_entries(),
            final(self).spec_symbols() == old(self).spec_symbols(),
    {
        let mobj = KVBlock::build(new_env);
        proof {
            crate::process::kvblock::lemma_kv_image_header(new_env@);
        }
        match KVBlock::from_memory_object(mobj.clone_object()) {
            Ok(env) => {
                proof {
                    lemma_kv_build_then_load(new_env@, env);
                }
                self.env = env;
            },
            Err(_) => {
                proof {
                    assert(false);
                }
            },
        }
        let _ = client.update_env(mobj, call);
    }

    /// Get the process argument
    pub fn arg(&self, key: &str) -> (r: Option<String>)
        requires
            self.wf(),
        ensures
            match r {
                Some(v) => lookup(self.args_entries(), key@) == Some(v@),
                None => lookup(self.args_entries(), key@) is None,
            },
    {
        block_lookup(&self.args, key)
    }

    /// Get all arguments
    pub fn args_all(&self) -> (r: Vec<(String, String)>)
        requires
            self.wf(),
        ensures
            pairs_view(r@) == self.args_entries(),
    {
        block_to_vec(&self.args)
    }

    /// Get the process symbols
    pub fn symbols(&self) -> (r: &SymBlock)
        ensures
            r@ == self.spec_symbols(),
    {
        &self.symbols
    }

    /// Set the exit code of the process
    pub fn set_exit_code<F>(&self, code: i32, client: &Client, call: F)
        where
            F: FnOnce(&ipc::Client, Type, SetExitCodeQueryParameters, KHandles) -> (KHandles, Result<(SetExitCodeReply, KHandles), ProcessServerCallError>),
        requires
            forall|h: KHandles| #![trigger h@]
                h@ == no_handles() ==> call.requires((&client.ipc(), Type::SetExitCode, SetExitCodeQueryParameters { exit_code: code }, h)),
            forall|a: (&ipc::Client, Type, SetExitCodeQueryParameters, KHandles), out: (KHandles, Result<(SetExitCodeReply, KHandles), ProcessServerCallError>)|
                #[trigger] call.ensures(a, out) ==> out.1 is Ok,
        ensures
            exists|h: KHandles, out: (KHandles, Result<(SetExitCodeReply, KHandles), ProcessServerCallError>)| {
                &&& h@ == no_handles()
                &&& #[trigger] call.ensures((&client.ipc(), Type::SetExitCode, SetExitCodeQueryParameters { exit_code: code }, h), out)
            },
    {
        let _ = client.set_exit_code(code, call);
    }
}

} // verus!
