//! Low level client of the process server.
use vstd::prelude::*;
use vstd::string::StringSliceAdditionalSpecFns;
use crate::ipc::{self, CallError, KHandle, KHandles, HandleView, Handle, no_handles};
use crate::kobject::{MemoryObject, PortSender};
use super::messages::{
    Type, ProcessServerError, ProcessStatus, UpdateNameQueryParameters, UpdateNameReply, UpdateEnvQueryParameters,
    UpdateEnvReply, SetExitCodeQueryParameters, SetExitCodeReply, CreateProcessQueryParameters, CreateProcessReply,
    OpenProcessQueryParameters, OpenProcessReply, CloseProcessQueryParameters, CloseProcessReply,
    GetProcessStatusQueryParameters, GetProcessStatusReply, TerminateProcessQueryParameters, TerminateProcessReply,
    RegisterProcessTerminatedNotificationQueryParameters, RegisterProcessTerminatedNotificationReply,
    UnregisterProcessTerminatedNotificationQueryParameters, UnregisterProcessTerminatedNotificationReply,
    GetProcessEnvQueryParameters, GetProcessEnvReply, GetProcessArgsQueryParameters, GetProcessArgsReply,
    GetStartupInfoQueryParameters, GetStartupInfoReply, GetProcessNameQueryParameters, GetProcessNameReply,
    ListProcessesQueryParameters, ListProcessesReply, PORT_NAME, VERSION,
};
use super::plblock::{self, ProcessInfo, ProcessListBlock, infos_view, processes_of};
use crate::text::string_from_utf8;
use super::kvblock::{KVBlock, kv_object_size, kv_image, VERSION as KV_VERSION};
use super::symblock::{SymBlock, VERSION as SYM_VERSION, HEADER_SIZE as SYM_HEADER_SIZE};
use super::StartupInfo;
use crate::record_block::HEADER_SIZE;
use crate::layout::read_u32;
use vstd::utf8::{valid_utf8, decode_utf8};

verus! {

pub type ProcessServerCallError = CallError<ProcessServerError>;

/// Low level process client implementation.
pub struct Client {
    ipc_client: ipc::Client,
}

impl Client {
    /// The port and version this client talks to.
    pub closed spec fn ipc(&self) -> ipc::Client {
        self.ipc_client
    }

    /// The client of the server port.
    pub fn ipc_client(&self) -> (r: &ipc::Client)
        ensures
            *r == self.ipc(),
    {
        &self.ipc_client
    }

    /// Creates a new process client.
    pub fn new() -> (r: Self)
        ensures
            r.ipc().spec_port_name() == PORT_NAME@,
            r.ipc().spec_version() == VERSION,
    {
        Self { ipc_client: ipc::Client::new(PORT_NAME, VERSION) }
    }

    /// call ipc UpdateName
    pub fn update_name<F>(&self, name: &str, call: F) -> (r: Result<(), ProcessServerCallError>)
        where
            F: FnOnce(&ipc::Client, Type, UpdateNameQueryParameters, KHandles) -> (KHandles, Result<(UpdateNameReply, KHandles), ProcessServerCallError>),
        requires
            forall|h: KHandles| #![trigger h@] h@ == no_handles().update(UpdateNameQueryParameters::HANDLE_NAME_MOBJ as int, HandleView::Memory(name.spec_bytes())) ==> call.requires((&self.ipc(), Type::UpdateName, UpdateNameQueryParameters { name: (ipc::Buffer { offset: 0, len: (name.spec_bytes()).len() as usize }) }, h)),
        ensures
            exists|h: KHandles, out: (KHandles, Result<(UpdateNameReply, KHandles), ProcessServerCallError>)| {
                &&& h@ == no_handles().update(UpdateNameQueryParameters::HANDLE_NAME_MOBJ as int, HandleView::Memory(name.spec_bytes()))
                &&& #[trigger] call.ensures((&self.ipc(), Type::UpdateName, UpdateNameQueryParameters { name: (ipc::Buffer { offset: 0, len: (name.spec_bytes()).len() as usize }) }, h), out)
                &&& r == match out.1 {
                    Ok(rep) => Ok::<(), ProcessServerCallError>(()),
                    Err(e) => Err::<(), ProcessServerCallError>(e),
                }
            },
    {
        let (m0, b0) = ipc::share_bytes(name.as_bytes());
        let query = UpdateNameQueryParameters { name: b0 };
        let mut query_handles = KHandles::new();
        query_handles.set(UpdateNameQueryParameters::HANDLE_NAME_MOBJ, KHandle::MemoryObject(m0));
        let (_lent, res) = call(&self.ipc_client, Type::UpdateName, query, query_handles);
        match res {
            Ok((reply, _reply_handles)) => Ok(()),
            Err(e) => Err(e),
        }
    }

    /// call ipc UpdateEnv
    pub fn update_env<F>(&self, env_memobj: MemoryObject, call: F) -> (r: Result<(), ProcessServerCallError>)
        where
            F: FnOnce(&ipc::Client, Type, UpdateEnvQueryParameters, KHandles) -> (KHandles, Result<(UpdateEnvReply, KHandles), ProcessServerCallError>),
        requires
            forall|h: KHandles| #![trigger h@] h@ == no_handles().update(UpdateEnvQueryParameters::HANDLE_ENV_MOBJ as int, HandleView::Memory(env_memobj@)) ==> call.requires((&self.ipc(), Type::UpdateEnv, UpdateEnvQueryParameters {}, h)),
        ensures
            exists|h: KHandles, out: (KHandles, Result<(UpdateEnvReply, KHandles), ProcessServerCallError>)| {
                &&& h@ == no_handles().update(UpdateEnvQueryParameters::HANDLE_ENV_MOBJ as int, HandleView::Memory(env_memobj@))
                &&& #[trigger] call.ensures((&self.ipc(), Type::UpdateEnv, UpdateEnvQueryParameters {}, h), out)
                &&& r == match out.1 {
                    Ok(rep) => Ok::<(), ProcessServerCallError>(()),
                    Err(e) => Err::<(), ProcessServerCallError>(e),
                }
            },
    {
        let o0 = env_memobj;
        let query = UpdateEnvQueryParameters {};
        let mut query_handles = KHandles::new();
        query_handles.set(UpdateEnvQueryParameters::HANDLE_ENV_MOBJ, KHandle::MemoryObject(o0));
        let (_lent, res) = call(&self.ipc_client, Type::UpdateEnv, query, query_handles);
        match res {
            Ok((reply, _reply_handles)) => Ok(()),
            Err(e) => Err(e),
        }
    }

    /// call ipc SetExitCode
    pub fn set_exit_code<F>(&self, code: i32, call: F) -> (r: Result<(), ProcessServerCallError>)
        where
            F: FnOnce(&ipc::Client, Type, SetExitCodeQueryParameters, KHandles) -> (KHandles, Result<(SetExitCodeReply, KHandles), ProcessServerCallError>),
        requires
            forall|h: KHandles| #![trigger h@] h@ == no_handles() ==> call.requires((&self.ipc(), Type::SetExitCode, SetExitCodeQueryParameters { exit_code: code }, h)),
        ensures
            exists|h: KHandles, out: (KHandles, Result<(SetExitCodeReply, KHandles), ProcessServerCallError>)| {
                &&& h@ == no_handles()
                &&& #[trigger] call.ensures((&self.ipc(), Type::SetExitCode, SetExitCodeQueryParameters { exit_code: code }, h), out)
                &&& r == match out.1 {
                    Ok(rep) => Ok::<(), ProcessServerCallError>(()),
                    Err(e) => Err::<(), ProcessServerCallError>(e),
                }
            },
    {
        let query = SetExitCodeQueryParameters { exit_code: code };
        let mut query_handles = KHandles::new();
        let (_lent, res) = call(&self.ipc_client, Type::SetExitCode, query, query_handles);
        match res {
            Ok((reply, _reply_handles)) => Ok(()),
            Err(e) => Err(e),
        }
    }

    /// call ipc CreateProcess
    pub fn create_process<F>(&self, name: &str, binary: &[u8], env: &[(&str, &str)], args: &[(&str, &str)], call: F) -> (r: Result<(Handle, u64), ProcessServerCallError>)
        where
            F: FnOnce(&ipc::Client, Type, CreateProcessQueryParameters, KHandles) -> (KHandles, Result<(CreateProcessReply, KHandles), ProcessServerCallError>),
        requires
            kv_object_size(env@) + 16 <= usize::MAX,
            kv_object_size(args@) + 16 <= usize::MAX,
            forall|h: KHandles| #![trigger h@] h@ == no_handles().update(CreateProcessQueryParameters::HANDLE_NAME_MOBJ as int, HandleView::Memory(name.spec_bytes())).update(CreateProcessQueryParameters::HANDLE_BINARY_MOBJ as int, HandleView::Memory(binary@)).update(CreateProcessQueryParameters::HANDLE_ENV_MOBJ as int, HandleView::Memory(kv_image(env@))).update(CreateProcessQueryParameters::HANDLE_ARGS_MOBJ as int, HandleView::Memory(kv_image(args@))) ==> call.requires((&self.ipc(), Type::CreateProcess, CreateProcessQueryParameters { name: (ipc::Buffer { offset: 0, len: (name.spec_bytes()).len() as usize }), binary: (ipc::Buffer { offset: 0, len: (binary@).len() as usize }) }, h)),
        ensures
            exists|h: KHandles, out: (KHandles, Result<(CreateProcessReply, KHandles), ProcessServerCallError>)| {
                &&& h@ == no_handles().update(CreateProcessQueryParameters::HANDLE_NAME_MOBJ as int, HandleView::Memory(name.spec_bytes())).update(CreateProcessQueryParameters::HANDLE_BINARY_MOBJ as int, HandleView::Memory(binary@)).update(CreateProcessQueryParameters::HANDLE_ENV_MOBJ as int, HandleView::Memory(kv_image(env@))).update(CreateProcessQueryParameters::HANDLE_ARGS_MOBJ as int, HandleView::Memory(kv_image(args@)))
                &&& #[trigger] call.ensures((&self.ipc(), Type::CreateProcess, CreateProcessQueryParameters { name: (ipc::Buffer { offset: 0, len: (name.spec_bytes()).len() as usize }), binary: (ipc::Buffer { offset: 0, len: (binary@).len() as usize }) }, h), out)
                &&& r == match out.1 {
                    Ok(rep) => Ok::<(Handle, u64), ProcessServerCallError>((rep.0.handle, rep.0.pid)),
                    Err(e) => Err::<(Handle, u64), ProcessServerCallError>(e),
                }
            },
    {
        let (m0, b0) = ipc::share_bytes(name.as_bytes());
        let (m1, b1) = ipc::share_bytes(binary);
        let o0 = KVBlock::build(env);
        let o1 = KVBlock::build(args);
        let query = CreateProcessQueryParameters { name: b0, binary: b1 };
        let mut query_handles = KHandles::new();
        query_handles.set(CreateProcessQueryParameters::HANDLE_NAME_MOBJ, KHandle::MemoryObject(m0));
        query_handles.set(CreateProcessQueryParameters::HANDLE_BINARY_MOBJ, KHandle::MemoryObject(m1));
        query_handles.set(CreateProcessQueryParameters::HANDLE_ENV_MOBJ, KHandle::MemoryObject(o0));
        query_handles.set(CreateProcessQueryParameters::HANDLE_ARGS_MOBJ, KHandle::MemoryObject(o1));
        let (_lent, res) = call(&self.ipc_client, Type::CreateProcess, query, query_handles);
        match res {
            Ok((reply, _reply_handles)) => Ok((reply.handle, reply.pid)),
            Err(e) => Err(e),
        }
    }

    /// call ipc OpenProcess
    pub fn open_process<F>(&self, pid: u64, call: F) -> (r: Result<(Handle, u64), ProcessServerCallError>)
        where
            F: FnOnce(&ipc::Client, Type, OpenProcessQueryParameters, KHandles) -> (KHandles, Result<(OpenProcessReply, KHandles), ProcessServerCallError>),
        requires
            forall|h: KHandles| #![trigger h@] h@ == no_handles() ==> call.requires((&self.ipc(), Type::OpenProcess, OpenProcessQueryParameters { pid: pid }, h)),
        ensures
            exists|h: KHandles, out: (KHandles, Result<(OpenProcessReply, KHandles), ProcessServerCallError>)| {
                &&& h@ == no_handles()
                &&& #[trigger] call.ensures((&self.ipc(), Type::OpenProcess, OpenProcessQueryParameters { pid: pid }, h), out)
                &&& r == match out.1 {
                    Ok(rep) => Ok::<(Handle, u64), ProcessServerCallError>((rep.0.handle, rep.0.pid)),
                    Err(e) => Err::<(Handle, u64), ProcessServerCallError>(e),
                }
            },
    {
        let query = OpenProcessQueryParameters { pid: pid };
        let mut query_handles = KHandles::new();
        let (_lent, res) = call(&self.ipc_client, Type::OpenProcess, query, query_handles);
        match res {
            Ok((reply, _reply_handles)) => Ok((reply.handle, reply.pid)),
            Err(e) => Err(e),
        }
    }

    /// call ipc CloseProcess
    pub fn close_process<F>(&self, handle: Handle, call: F) -> (r: Result<(), ProcessServerCallError>)
        where
            F: FnOnce(&ipc::Client, Type, CloseProcessQueryParameters, KHandles) -> (KHandles, Result<(CloseProcessReply, KHandles), ProcessServerCallError>),
        requires
            forall|h: KHandles| #![trigger h@] h@ == no_handles() ==> call.requires((&self.ipc(), Type::CloseProcess, CloseProcessQueryParameters { handle: handle }, h)),
        ensures
            exists|h: KHandles, out: (KHandles, Result<(CloseProcessReply, KHandles), ProcessServerCallError>)| {
                &&& h@ == no_handles()
                &&& #[trigger] call.ensures((&self.ipc(), Type::CloseProcess, CloseProcessQueryParameters { handle: handle }, h), out)
                &&& r == match out.1 {
                    Ok(rep) => Ok::<(), ProcessServerCallError>(()),
                    Err(e) => Err::<(), ProcessServerCallError>(e),
                }
            },
    {
        let query = CloseProcessQueryParameters { handle: handle };
        let mut query_handles = KHandles::new();
        let (_lent, res) = call(&self.ipc_client, Type::CloseProcess, query, query_handles);
        match res {
            Ok((reply, _reply_handles)) => Ok(()),
            Err(e) => Err(e),
        }
    }

    /// call ipc GetProcessStatus
    pub fn get_process_status<F>(&self, handle: Handle, call: F) -> (r: Result<ProcessStatus, ProcessServerCallError>)
        where
            F: FnOnce(&ipc::Client, Type, GetProcessStatusQueryParameters, KHandles) -> (KHandles, Result<(GetProcessStatusReply, KHandles), ProcessServerCallError>),
        requires
            forall|h: KHandles| #![trigger h@] h@ == no_handles() ==> call.requires((&self.ipc(), Type::GetProcessStatus, GetProcessStatusQueryParameters { handle: handle }, h)),
        ensures
            exists|h: KHandles, out: (KHandles, Result<(GetProcessStatusReply, KHandles), ProcessServerCallError>)| {
                &&& h@ == no_handles()
                &&& #[trigger] call.ensures((&self.ipc(), Type::GetProcessStatus, GetProcessStatusQueryParameters { handle: handle }, h), out)
                &&& r == match out.1 {
                    Ok(rep) => Ok::<ProcessStatus, ProcessServerCallError>(rep.0.status),
                    Err(e) => Err::<ProcessStatus, ProcessServerCallError>(e),
                }
            },
    {
        let query = GetProcessStatusQueryParameters { handle: handle };
        let mut query_handles = KHandles::new();
        let (_lent, res) = call(&self.ipc_client, Type::GetProcessStatus, query, query_handles);
        match res {
            Ok((reply, _reply_handles)) => Ok(reply.status),
            Err(e) => Err(e),
        }
    }

    /// call ipc TerminateProcess
    pub fn terminate_process<F>(&self, handle: Handle, call: F) -> (r: Result<(), ProcessServerCallError>)
        where
            F: FnOnce(&ipc::Client, Type, TerminateProcessQueryParameters, KHandles) -> (KHandles, Result<(TerminateProcessReply, KHandles), ProcessServerCallError>),
        requires
            forall|h: KHandles| #![trigger h@] h@ == no_handles() ==> call.requires((&self.ipc(), Type::TerminateProcess, TerminateProcessQueryParameters { handle: handle }, h)),
        ensures
            exists|h: KHandles, out: (KHandles, Result<(TerminateProcessReply, KHandles), ProcessServerCallError>)| {
                &&& h@ == no_handles()
                &&& #[trigger] call.ensures((&self.ipc(), Type::TerminateProcess, TerminateProcessQueryParameters { handle: handle }, h), out)
                &&& r == match out.1 {
                    Ok(rep) => Ok::<(), ProcessServerCallError>(()),
                    Err(e) => Err::<(), ProcessServerCallError>(e),
                }
            },
    {
        let query = TerminateProcessQueryParameters { handle: handle };
        let mut query_handles = KHandles::new();
        let (_lent, res) = call(&self.ipc_client, Type::TerminateProcess, query, query_handles);
        match res {
            Ok((reply, _reply_handles)) => Ok(()),
            Err(e) => Err(e),
        }
    }

    /// call ipc RegisterProcessTerminatedNotification
    pub fn register_process_terminated_notification<F>(&self, handle: Handle, correlation: u64, port_sender: PortSender, call: F) -> (r: Result<Handle, ProcessServerCallError>)
        where
            F: FnOnce(&ipc::Client, Type, RegisterProcessTerminatedNotificationQueryParameters, KHandles) -> (KHandles, Result<(RegisterProcessTerminatedNotificationReply, KHandles), ProcessServerCallError>),
        requires
            forall|h: KHandles| #![trigger h@] h@ == (match Some(port_sender) { Some(p) => no_handles().update(RegisterProcessTerminatedNotificationQueryParameters::HANDLE_PORT as int, HandleView::Port(p.0)), None => no_handles() }) ==> call.requires((&self.ipc(), Type::RegisterProcessTerminatedNotification, RegisterProcessTerminatedNotificationQueryParameters { handle: handle, correlation: correlation }, h)),
        ensures
            exists|h: KHandles, out: (KHandles, Result<(RegisterProcessTerminatedNotificationReply, KHandles), ProcessServerCallError>)| {
                &&& h@ == (match Some(port_sender) { Some(p) => no_handles().update(RegisterProcessTerminatedNotificationQueryParameters::HANDLE_PORT as int, HandleView::Port(p.0)), None => no_handles() })
                &&& #[trigger] call.ensures((&self.ipc(), Type::RegisterProcessTerminatedNotification, RegisterProcessTerminatedNotificationQueryParameters { handle: handle, correlation: correlation }, h), out)
                &&& r == match out.1 {
                    Ok(rep) => Ok::<Handle, ProcessServerCallError>(rep.0.registration_handle),
                    Err(e) => Err::<Handle, ProcessServerCallError>(e),
                }
            },
    {
        let query = RegisterProcessTerminatedNotificationQueryParameters { handle: handle, correlation: correlation };
        let mut query_handles = KHandles::new();
        if let Some(p) = Some(port_sender) {
            query_handles.set(RegisterProcessTerminatedNotificationQueryParameters::HANDLE_PORT, KHandle::Port(p));
        }
        let (_lent, res) = call(&self.ipc_client, Type::RegisterProcessTerminatedNotification, query, query_handles);
        match res {
            Ok((reply, _reply_handles)) => Ok(reply.registration_handle),
            Err(e) => Err(e),
        }
    }

    /// call ipc UnregisterProcessTerminatedNotification
    pub fn unregister_process_terminated_notification<F>(&self, registration_handle: Handle, call: F) -> (r: Result<(), ProcessServerCallError>)
        where
            F: FnOnce(&ipc::Client, Type, UnregisterProcessTerminatedNotificationQueryParameters, KHandles) -> (KHandles, Result<(UnregisterProcessTerminatedNotificationReply, KHandles), ProcessServerCallError>),
        requires
            forall|h: KHandles| #![trigger h@] h@ == no_handles() ==> call.requires((&self.ipc(), Type::UnregisterProcessTerminatedNotification, UnregisterProcessTerminatedNotificationQueryParameters { registration_handle: registration_handle }, h)),
        ensures
            exists|h: KHandles, out: (KHandles, Result<(UnregisterProcessTerminatedNotificationReply, KHandles), ProcessServerCallError>)| {
                &&& h@ == no_handles()
                &&& #[trigger] call.ensures((&self.ipc(), Type::UnregisterProcessTerminatedNotification, UnregisterProcessTerminatedNotificationQueryParameters { registration_handle: registration_handle }, h), out)
                &&& r == match out.1 {
                    Ok(rep) => Ok::<(), ProcessServerCallError>(()),
                    Err(e) => Err::<(), ProcessServerCallError>(e),
                }
            },
    {
        let query = UnregisterProcessTerminatedNotificationQueryParameters { registration_handle: registration_handle };
        let mut query_handles = KHandles::new();
        let (_lent, res) = call(&self.ipc_client, Type::UnregisterProcessTerminatedNotification, query, query_handles);
        match res {
            Ok((reply, _reply_handles)) => Ok(()),
            Err(e) => Err(e),
        }
    }

    /// call ipc GetProcessEnv
    pub fn get_process_env<F>(&self, handle: Handle, call: F) -> (r: Result<KVBlock, ProcessServerCallError>)
        where
            F: FnOnce(&ipc::Client, Type, GetProcessEnvQueryParameters, KHandles) -> (KHandles, Result<(GetProcessEnvReply, KHandles), ProcessServerCallError>),
        requires
            forall|h: KHandles| h@ == no_handles() ==> call.requires((&self.ipc(), Type::GetProcessEnv, GetProcessEnvQueryParameters { handle: handle }, h)),
            forall|a: (&ipc::Client, Type, GetProcessEnvQueryParameters, KHandles), out: (KHandles, Result<(GetProcessEnvReply, KHandles), ProcessServerCallError>)|
                call.ensures(a, out) && out.1 is Ok ==> holds_kv_block(out.1->Ok_0.1@, GetProcessEnvReply::HANDLE_ENV_MOBJ as int),
        ensures
            exists|h: KHandles, out: (KHandles, Result<(GetProcessEnvReply, KHandles), ProcessServerCallError>)| {
                &&& h@ == no_handles()
                &&& call.ensures((&self.ipc(), Type::GetProcessEnv, GetProcessEnvQueryParameters { handle: handle }, h), out)
                &&& match out.1 {
                    Ok(rep) => r matches Ok(b) && rep.1@[GetProcessEnvReply::HANDLE_ENV_MOBJ as int] == HandleView::Memory(b@),
                    Err(e) => r == Err::<KVBlock, ProcessServerCallError>(e),
                }
            },
    {
        let query = GetProcessEnvQueryParameters { handle };
        let query_handles = KHandles::new();
        let (_lent, res) = call(&self.ipc_client, Type::GetProcessEnv, query, query_handles);
        match res {
            Ok((_reply, mut reply_handles)) => kv_block_from(reply_handles.take(GetProcessEnvReply::HANDLE_ENV_MOBJ)),
            Err(e) => Err(e),
        }
    }

    /// call ipc GetProcessArgs
    pub fn get_process_args<F>(&self, handle: Handle, call: F) -> (r: Result<KVBlock, ProcessServerCallError>)
        where
            F: FnOnce(&ipc::Client, Type, GetProcessArgsQueryParameters, KHandles) -> (KHandles, Result<(GetProcessArgsReply, KHandles), ProcessServerCallError>),
        requires
            forall|h: KHandles| h@ == no_handles() ==> call.requires((&self.ipc(), Type::GetProcessArgs, GetProcessArgsQueryParameters { handle: handle }, h)),
            forall|a: (&ipc::Client, Type, GetProcessArgsQueryParameters, KHandles), out: (KHandles, Result<(GetProcessArgsReply, KHandles), ProcessServerCallError>)|
                call.ensures(a, out) && out.1 is Ok ==> holds_kv_block(out.1->Ok_0.1@, GetProcessArgsReply::HANDLE_ARGS_MOBJ as int),
        ensures
            exists|h: KHandles, out: (KHandles, Result<(GetProcessArgsReply, KHandles), ProcessServerCallError>)| {
                &&& h@ == no_handles()
                &&& call.ensures((&self.ipc(), Type::GetProcessArgs, GetProcessArgsQueryParameters { handle: handle }, h), out)
                &&& match out.1 {
                    Ok(rep) => r matches Ok(b) && rep.1@[GetProcessArgsReply::HANDLE_ARGS_MOBJ as int] == HandleView::Memory(b@),
                    Err(e) => r == Err::<KVBlock, ProcessServerCallError>(e),
                }
            },
    {
        let query = GetProcessArgsQueryParameters { handle };
        let query_handles = KHandles::new();
        let (_lent, res) = call(&self.ipc_client, Type::GetProcessArgs, query, query_handles);
        match res {
            Ok((_reply, mut reply_handles)) => kv_block_from(reply_handles.take(GetProcessArgsReply::HANDLE_ARGS_MOBJ)),
            Err(e) => Err(e),
        }
    }

    /// call ipc GetStartupInfo
    pub fn get_startup_info<F>(&self, call: F) -> (r: Result<StartupInfo, ProcessServerCallError>)
        where
            F: FnOnce(&ipc::Client, Type, GetStartupInfoQueryParameters, KHandles) -> (KHandles, Result<(GetStartupInfoReply, KHandles), ProcessServerCallError>),
        requires
            forall|h: KHandles| h@ == no_handles() ==> call.requires((&self.ipc(), Type::GetStartupInfo, GetStartupInfoQueryParameters {}, h)),
            forall|a: (&ipc::Client, Type, GetStartupInfoQueryParameters, KHandles), out: (KHandles, Result<(GetStartupInfoReply, KHandles), ProcessServerCallError>)|
                call.ensures(a, out) && out.1 is Ok ==> startup_reply_ok(out.1->Ok_0.0, out.1->Ok_0.1@),
        ensures
            exists|h: KHandles, out: (KHandles, Result<(GetStartupInfoReply, KHandles), ProcessServerCallError>)| {
                &&& h@ == no_handles()
                &&& call.ensures((&self.ipc(), Type::GetStartupInfo, GetStartupInfoQueryParameters {}, h), out)
                &&& match out.1 {
                    Ok(rep) => r matches Ok(info) && startup_info_of(rep.0, rep.1@, info),
                    Err(e) => r is Err && r->Err_0 == e,
                }
            },
    {
        let query = GetStartupInfoQueryParameters {};
        let query_handles = KHandles::new();
        let (_lent, res) = call(&self.ipc_client, Type::GetStartupInfo, query, query_handles);
        match res {
            Ok((reply, mut reply_handles)) => {
                let ghost rh = reply_handles@;
                let name_h = reply_handles.take(GetStartupInfoReply::HANDLE_NAME_MOBJ);
                let env_h = reply_handles.take(GetStartupInfoReply::HANDLE_ENV_MOBJ);
                let args_h = reply_handles.take(GetStartupInfoReply::HANDLE_ARGS_MOBJ);
                let symbols_h = reply_handles.take(GetStartupInfoReply::HANDLE_SYMBOLS_MOBJ);
                proof {
                    assert(startup_reply_ok(reply, rh));
                    assert(env_h.view() == rh[GetStartupInfoReply::HANDLE_ENV_MOBJ as int]);
                    assert(args_h.view() == rh[GetStartupInfoReply::HANDLE_ARGS_MOBJ as int]);
                    assert(holds_kv_block(rh, GetStartupInfoReply::HANDLE_ENV_MOBJ as int));
                }
                let name = match name_h {
                    KHandle::MemoryObject(m) => ipc::buffer_string(&m, reply.name),
                    _ => {
                        proof {
                            assert(false);
                        }
                        String::new()
                    },
                };
                let env = match kv_block_from(env_h) {
                    Ok(b) => b,
                    Err(e) => {
                        return Err(e);
                    },
                };
                let args = match kv_block_from(args_h) {
                    Ok(b) => b,
                    Err(e) => {
                        return Err(e);
                    },
                };
                let symbols = match symbols_h {
                    KHandle::MemoryObject(m) => match SymBlock::from_memory_object(m) {
                        Ok(b) => b,
                        Err(_) => {
                            proof {
                                assert(false);
                            }
                            return Err(CallError::KernelError(0));
                        },
                    },
                    _ => {
                        proof {
                            assert(false);
                        }
                        return Err(CallError::KernelError(0));
                    },
                };
                Ok(StartupInfo { name, env, args, symbols })
            },
            Err(e) => Err(e),
        }
    }

    /// call ipc GetProcessName
    ///
    /// The server writes into a buffer lent for the call; while it answers that
    /// the buffer is too small, the call is made again with one twice as large.
    pub fn get_process_name<F>(&self, handle: Handle, call: F) -> (r: Result<String, ProcessServerCallError>)
        where
            F: Fn(&ipc::Client, Type, GetProcessNameQueryParameters, KHandles) -> (KHandles, Result<(GetProcessNameReply, KHandles), ProcessServerCallError>),
        requires
            forall|size: usize, h: KHandles| #![trigger h@, ipc::zeroed_handle(GetProcessNameQueryParameters::HANDLE_BUFFER_MOBJ as int, size)]
                h@ == ipc::zeroed_handle(GetProcessNameQueryParameters::HANDLE_BUFFER_MOBJ as int, size) ==> call.requires((&self.ipc(), Type::GetProcessName, GetProcessNameQueryParameters { handle: handle, buffer: ipc::Buffer { offset: 0, len: size } }, h)),
            forall|a: (&ipc::Client, Type, GetProcessNameQueryParameters, KHandles), out: (KHandles, Result<(GetProcessNameReply, KHandles), ProcessServerCallError>)| #[trigger] call.ensures(a, out) && out.1 is Ok ==> {
                &&& ipc::keeps_lent_size(a.3@, out.0@, GetProcessNameQueryParameters::HANDLE_BUFFER_MOBJ as int)
                &&& out.1->Ok_0.0.buffer_used_len <= ipc::slot_bytes(out.0@, GetProcessNameQueryParameters::HANDLE_BUFFER_MOBJ as int).len()
                &&& valid_utf8(ipc::used_bytes(out.0@, GetProcessNameQueryParameters::HANDLE_BUFFER_MOBJ as int, out.1->Ok_0.0.buffer_used_len))
            },
        ensures
            r is Ok ==> exists|size: usize, h: KHandles, out: (KHandles, Result<(GetProcessNameReply, KHandles), ProcessServerCallError>)| {
                &&& h@ == ipc::zeroed_handle(GetProcessNameQueryParameters::HANDLE_BUFFER_MOBJ as int, size)
                &&& #[trigger] call.ensures((&self.ipc(), Type::GetProcessName, GetProcessNameQueryParameters { handle: handle, buffer: ipc::Buffer { offset: 0, len: size } }, h), out)
                &&& exists|tried: Seq<usize>| #[trigger] ipc::grow_schedule(tried, 64) && tried.last() == size
                    && forall|i: int| 0 <= i < tried.len() - 1 ==> #[trigger] ipc::answered_with(call, &self.ipc(), Type::GetProcessName, GetProcessNameQueryParameters { handle: handle, buffer: ipc::Buffer { offset: 0, len: tried[i] } }, GetProcessNameQueryParameters::HANDLE_BUFFER_MOBJ as int, tried[i], CallError::ReplyError(ProcessServerError::BufferTooSmall))
                &&& out.1 matches Ok(rep) && r->Ok_0@ == decode_utf8(ipc::used_bytes(out.0@, GetProcessNameQueryParameters::HANDLE_BUFFER_MOBJ as int, rep.0.buffer_used_len))
            },
            r matches Err(e) ==> exists|size: usize, h: KHandles, out: (KHandles, Result<(GetProcessNameReply, KHandles), ProcessServerCallError>)| {
                &&& h@ == ipc::zeroed_handle(GetProcessNameQueryParameters::HANDLE_BUFFER_MOBJ as int, size)
                &&& #[trigger] call.ensures((&self.ipc(), Type::GetProcessName, GetProcessNameQueryParameters { handle: handle, buffer: ipc::Buffer { offset: 0, len: size } }, h), out)
                &&& exists|tried: Seq<usize>| #[trigger] ipc::grow_schedule(tried, 64) && tried.last() == size
                    && forall|i: int| 0 <= i < tried.len() - 1 ==> #[trigger] ipc::answered_with(call, &self.ipc(), Type::GetProcessName, GetProcessNameQueryParameters { handle: handle, buffer: ipc::Buffer { offset: 0, len: tried[i] } }, GetProcessNameQueryParameters::HANDLE_BUFFER_MOBJ as int, tried[i], CallError::ReplyError(ProcessServerError::BufferTooSmall))
                &&& out.1 == Err::<(GetProcessNameReply, KHandles), ProcessServerCallError>(e)
                &&& (e == CallError::<ProcessServerError>::ReplyError(ProcessServerError::BufferTooSmall) ==> size > usize::MAX / 2)
            },
    {
        let mut size: usize = 64;
        let ghost mut tried: Seq<usize> = seq![size];
        loop
            invariant
                size > 0,
                ipc::grow_schedule(tried, 64),
                tried.last() == size,
                forall|i: int| 0 <= i < tried.len() - 1 ==> #[trigger] ipc::answered_with(call, &self.ipc(), Type::GetProcessName, GetProcessNameQueryParameters { handle: handle, buffer: ipc::Buffer { offset: 0, len: tried[i] } }, GetProcessNameQueryParameters::HANDLE_BUFFER_MOBJ as int, tried[i], CallError::ReplyError(ProcessServerError::BufferTooSmall)),
                forall|size: usize, h: KHandles| #![trigger h@, ipc::zeroed_handle(GetProcessNameQueryParameters::HANDLE_BUFFER_MOBJ as int, size)]
                    h@ == ipc::zeroed_handle(GetProcessNameQueryParameters::HANDLE_BUFFER_MOBJ as int, size) ==> call.requires((&self.ipc(), Type::GetProcessName, GetProcessNameQueryParameters { handle: handle, buffer: ipc::Buffer { offset: 0, len: size } }, h)),
                forall|a: (&ipc::Client, Type, GetProcessNameQueryParameters, KHandles), out: (KHandles, Result<(GetProcessNameReply, KHandles), ProcessServerCallError>)| #[trigger] call.ensures(a, out) && out.1 is Ok ==> {
                    &&& ipc::keeps_lent_size(a.3@, out.0@, GetProcessNameQueryParameters::HANDLE_BUFFER_MOBJ as int)
                    &&& out.1->Ok_0.0.buffer_used_len <= ipc::slot_bytes(out.0@, GetProcessNameQueryParameters::HANDLE_BUFFER_MOBJ as int).len()
                    &&& valid_utf8(ipc::used_bytes(out.0@, GetProcessNameQueryParameters::HANDLE_BUFFER_MOBJ as int, out.1->Ok_0.0.buffer_used_len))
                },
            decreases usize::MAX - size,
        {
            let (m, b) = ipc::share_zeroed(size);
            let query = GetProcessNameQueryParameters { handle: handle, buffer: b };
            let mut query_handles = KHandles::new();
            query_handles.set(GetProcessNameQueryParameters::HANDLE_BUFFER_MOBJ, KHandle::MemoryObject(m));
            proof {
                assert(query_handles@ == ipc::zeroed_handle(GetProcessNameQueryParameters::HANDLE_BUFFER_MOBJ as int, size));
            }
            let ghost sent = query_handles@;
            let ghost sent_h = query_handles;
            let (mut lent, res) = call(&self.ipc_client, Type::GetProcessName, query, query_handles);
            let ghost outv = (lent, res);
            let ghost q = GetProcessNameQueryParameters { handle: handle, buffer: ipc::Buffer { offset: 0, len: size } };
            proof {
                assert(call.ensures((&self.ipc(), Type::GetProcessName, q, sent_h), outv));
            }
            match res {
                Err(CallError::ReplyError(ProcessServerError::BufferTooSmall)) => match ipc::grown_size(size) {
                    Some(n) => {
                        proof {
                            let ghost prev = tried;
                            tried = tried.push(n);
                            assert(ipc::answered_with(call, &self.ipc(), Type::GetProcessName, GetProcessNameQueryParameters { handle: handle, buffer: ipc::Buffer { offset: 0, len: size } }, GetProcessNameQueryParameters::HANDLE_BUFFER_MOBJ as int, size, CallError::ReplyError(ProcessServerError::BufferTooSmall)));
                            assert forall|i: int| 0 <= i < tried.len() - 1 implies #[trigger] ipc::answered_with(call, &self.ipc(), Type::GetProcessName, GetProcessNameQueryParameters { handle: handle, buffer: ipc::Buffer { offset: 0, len: tried[i] } }, GetProcessNameQueryParameters::HANDLE_BUFFER_MOBJ as int, tried[i], CallError::ReplyError(ProcessServerError::BufferTooSmall)) by {
                                if i < prev.len() - 1 {
                                    assert(tried[i] == prev[i]);
                                }
                            }
                            assert forall|i: int| 0 < i < tried.len() implies #[trigger] tried[i] == 2 * tried[i - 1] by {
                                if i < prev.len() {
                                    assert(tried[i] == prev[i]);
                                }
                            }
                        }
                        size = n;
                    },
                    None => {
                        return Err(CallError::ReplyError(ProcessServerError::BufferTooSmall));
                    },
                },
                Err(e) => {
                    return Err(e);
                },
                Ok((reply, _reply_handles)) => {
                    let ghost back = lent@;
                    proof {
                        assert(ipc::keeps_lent_size(sent, back, GetProcessNameQueryParameters::HANDLE_BUFFER_MOBJ as int));
                    }
                    let bytes = ipc::take_used(lent.take(GetProcessNameQueryParameters::HANDLE_BUFFER_MOBJ), reply.buffer_used_len);
                    return Ok(string_from_utf8(bytes.as_slice()));
                },
            }
        }
    }

    /// call ipc ListProcesses
    ///
    /// The server writes into a buffer lent for the call; while it answers that
    /// the buffer is too small, the call is made again with one twice as large.
    pub fn list_processes<F>(&self, call: F) -> (r: Result<Vec<ProcessInfo>, ProcessServerCallError>)
        where
            F: Fn(&ipc::Client, Type, ListProcessesQueryParameters, KHandles) -> (KHandles, Result<(ListProcessesReply, KHandles), ProcessServerCallError>),
        requires
            forall|size: usize, h: KHandles| #![trigger h@, ipc::zeroed_handle(ListProcessesQueryParameters::HANDLE_BUFFER_MOBJ as int, size)]
                h@ == ipc::zeroed_handle(ListProcessesQueryParameters::HANDLE_BUFFER_MOBJ as int, size) ==> call.requires((&self.ipc(), Type::ListProcesses, ListProcessesQueryParameters { buffer: ipc::Buffer { offset: 0, len: size } }, h)),
            forall|a: (&ipc::Client, Type, ListProcessesQueryParameters, KHandles), out: (KHandles, Result<(ListProcessesReply, KHandles), ProcessServerCallError>)| #[trigger] call.ensures(a, out) && out.1 is Ok ==> {
                &&& ipc::keeps_lent_size(a.3@, out.0@, ListProcessesQueryParameters::HANDLE_BUFFER_MOBJ as int)
                &&& out.1->Ok_0.0.buffer_used_len <= ipc::slot_bytes(out.0@, ListProcessesQueryParameters::HANDLE_BUFFER_MOBJ as int).len()
                &&& plblock::list_reply_ok(ipc::used_bytes(out.0@, ListProcessesQueryParameters::HANDLE_BUFFER_MOBJ as int, out.1->Ok_0.0.buffer_used_len))
            },
        ensures
            r is Ok ==> exists|size: usize, h: KHandles, out: (KHandles, Result<(ListProcessesReply, KHandles), ProcessServerCallError>)| {
                &&& h@ == ipc::zeroed_handle(ListProcessesQueryParameters::HANDLE_BUFFER_MOBJ as int, size)
                &&& #[trigger] call.ensures((&self.ipc(), Type::ListProcesses, ListProcessesQueryParameters { buffer: ipc::Buffer { offset: 0, len: size } }, h), out)
                &&& exists|tried: Seq<usize>| #[trigger] ipc::grow_schedule(tried, 256) && tried.last() == size
                    && forall|i: int| 0 <= i < tried.len() - 1 ==> #[trigger] ipc::answered_with(call, &self.ipc(), Type::ListProcesses, ListProcessesQueryParameters { buffer: ipc::Buffer { offset: 0, len: tried[i] } }, ListProcessesQueryParameters::HANDLE_BUFFER_MOBJ as int, tried[i], CallError::ReplyError(ProcessServerError::BufferTooSmall))
                &&& out.1 matches Ok(rep) && infos_view(r->Ok_0@) == processes_of(ipc::used_bytes(out.0@, ListProcessesQueryParameters::HANDLE_BUFFER_MOBJ as int, rep.0.buffer_used_len))
            },
            r matches Err(e) ==> exists|size: usize, h: KHandles, out: (KHandles, Result<(ListProcessesReply, KHandles), ProcessServerCallError>)| {
                &&& h@ == ipc::zeroed_handle(ListProcessesQueryParameters::HANDLE_BUFFER_MOBJ as int, size)
                &&& #[trigger] call.ensures((&self.ipc(), Type::ListProcesses, ListProcessesQueryParameters { buffer: ipc::Buffer { offset: 0, len: size } }, h), out)
                &&& exists|tried: Seq<usize>| #[trigger] ipc::grow_schedule(tried, 256) && tried.last() == size
                    && forall|i: int| 0 <= i < tried.len() - 1 ==> #[trigger] ipc::answered_with(call, &self.ipc(), Type::ListProcesses, ListProcessesQueryParameters { buffer: ipc::Buffer { offset: 0, len: tried[i] } }, ListProcessesQueryParameters::HANDLE_BUFFER_MOBJ as int, tried[i], CallError::ReplyError(ProcessServerError::BufferTooSmall))
                &&& out.1 == Err::<(ListProcessesReply, KHandles), ProcessServerCallError>(e)
                &&& (e == CallError::<ProcessServerError>::ReplyError(ProcessServerError::BufferTooSmall) ==> size > usize::MAX / 2)
            },
    {
        let mut size: usize = 256;
        let ghost mut tried: Seq<usize> = seq![size];
        loop
            invariant
                size > 0,
                ipc::grow_schedule(tried, 256),
                tried.last() == size,
                forall|i: int| 0 <= i < tried.len() - 1 ==> #[trigger] ipc::answered_with(call, &self.ipc(), Type::ListProcesses, ListProcessesQueryParameters { buffer: ipc::Buffer { offset: 0, len: tried[i] } }, ListProcessesQueryParameters::HANDLE_BUFFER_MOBJ as int, tried[i], CallError::ReplyError(ProcessServerError::BufferTooSmall)),
                forall|size: usize, h: KHandles| #![trigger h@, ipc::zeroed_handle(ListProcessesQueryParameters::HANDLE_BUFFER_MOBJ as int, size)]
                    h@ == ipc::zeroed_handle(ListProcessesQueryParameters::HANDLE_BUFFER_MOBJ as int, size) ==> call.requires((&self.ipc(), Type::ListProcesses, ListProcessesQueryParameters { buffer: ipc::Buffer { offset: 0, len: size } }, h)),
                forall|a: (&ipc::Client, Type, ListProcessesQueryParameters, KHandles), out: (KHandles, Result<(ListProcessesReply, KHandles), ProcessServerCallError>)| #[trigger] call.ensures(a, out) && out.1 is Ok ==> {
                    &&& ipc::keeps_lent_size(a.3@, out.0@, ListProcessesQueryParameters::HANDLE_BUFFER_MOBJ as int)
                    &&& out.1->Ok_0.0.buffer_used_len <= ipc::slot_bytes(out.0@, ListProcessesQueryParameters::HANDLE_BUFFER_MOBJ as int).len()
                    &&& plblock::list_reply_ok(ipc::used_bytes(out.0@, ListProcessesQueryParameters::HANDLE_BUFFER_MOBJ as int, out.1->Ok_0.0.buffer_used_len))
                },
            decreases usize::MAX - size,
        {
            let (m, b) = ipc::share_zeroed(size);
            let query = ListProcessesQueryParameters { buffer: b };
            let mut query_handles = KHandles::new();
            query_handles.set(ListProcessesQueryParameters::HANDLE_BUFFER_MOBJ, KHandle::MemoryObject(m));
            proof {
                assert(query_handles@ == ipc::zeroed_handle(ListProcessesQueryParameters::HANDLE_BUFFER_MOBJ as int, size));
            }
            let ghost sent = query_handles@;
            let ghost sent_h = query_handles;
            let (mut lent, res) = call(&self.ipc_client, Type::ListProcesses, query, query_handles);
            let ghost outv = (lent, res);
            let ghost q = ListProcessesQueryParameters { buffer: ipc::Buffer { offset: 0, len: size } };
            proof {
                assert(call.ensures((&self.ipc(), Type::ListProcesses, q, sent_h), outv));
            }
            match res {
                Err(CallError::ReplyError(ProcessServerError::BufferTooSmall)) => match ipc::grown_size(size) {
                    Some(n) => {
                        proof {
                            let ghost prev = tried;
                            tried = tried.push(n);
                            assert(ipc::answered_with(call, &self.ipc(), Type::ListProcesses, ListProcessesQueryParameters { buffer: ipc::Buffer { offset: 0, len: size } }, ListProcessesQueryParameters::HANDLE_BUFFER_MOBJ as int, size, CallError::ReplyError(ProcessServerError::BufferTooSmall)));
                            assert forall|i: int| 0 <= i < tried.len() - 1 implies #[trigger] ipc::answered_with(call, &self.ipc(), Type::ListProcesses, ListProcessesQueryParameters { buffer: ipc::Buffer { offset: 0, len: tried[i] } }, ListProcessesQueryParameters::HANDLE_BUFFER_MOBJ as int, tried[i], CallError::ReplyError(ProcessServerError::BufferTooSmall)) by {
                                if i < prev.len() - 1 {
                                    assert(tried[i] == prev[i]);
                                }
                            }
                            assert forall|i: int| 0 < i < tried.len() implies #[trigger] tried[i] == 2 * tried[i - 1] by {
                                if i < prev.len() {
                                    assert(tried[i] == prev[i]);
                                }
                            }
                        }
                        size = n;
                    },
                    None => {
                        return Err(CallError::ReplyError(ProcessServerError::BufferTooSmall));
                    },
                },
                Err(e) => {
                    return Err(e);
                },
                Ok((reply, _reply_handles)) => {
                    let ghost back = lent@;
                    proof {
                        assert(ipc::keeps_lent_size(sent, back, ListProcessesQueryParameters::HANDLE_BUFFER_MOBJ as int));
                    }
                    let bytes = ipc::take_used(lent.take(ListProcessesQueryParameters::HANDLE_BUFFER_MOBJ), reply.buffer_used_len);
                    match ProcessListBlock::read(bytes.as_slice()) {
                        Ok(v) => {
                            return Ok(v);
                        },
                        Err(_) => {
                            proof {
                                assert(false);
                            }
                            return Err(CallError::KernelError(0));
                        },
                    }
                },
            }
        }
    }
}

/// Slot `i` of a reply holds a memory object in the KVBlock format.
pub open spec fn holds_kv_block(h: Seq<HandleView>, i: int) -> bool {
    &&& h[i] is Memory
    &&& h[i]->Memory_0.len() >= HEADER_SIZE
    &&& read_u32(h[i]->Memory_0, 0) == KV_VERSION
}

/// Slot `i` of a reply holds a memory object in the SymBlock format.
pub open spec fn holds_sym_block(h: Seq<HandleView>, i: int) -> bool {
    &&& h[i] is Memory
    &&& h[i]->Memory_0.len() >= SYM_HEADER_SIZE
    &&& read_u32(h[i]->Memory_0, 0) == SYM_VERSION
}

/// The reply to GetStartupInfo carries the name, in valid UTF-8, and the three blocks.
pub open spec fn startup_reply_ok(reply: GetStartupInfoReply, h: Seq<HandleView>) -> bool {
    &&& h[GetStartupInfoReply::HANDLE_NAME_MOBJ as int] is Memory
    &&& ipc::buffer_bytes(h[GetStartupInfoReply::HANDLE_NAME_MOBJ as int]->Memory_0, reply.name) is Some
    &&& valid_utf8(ipc::buffer_bytes(h[GetStartupInfoReply::HANDLE_NAME_MOBJ as int]->Memory_0, reply.name).unwrap())
    &&& holds_kv_block(h, GetStartupInfoReply::HANDLE_ENV_MOBJ as int)
    &&& holds_kv_block(h, GetStartupInfoReply::HANDLE_ARGS_MOBJ as int)
    &&& holds_sym_block(h, GetStartupInfoReply::HANDLE_SYMBOLS_MOBJ as int)
}

/// `info` is what the reply carries.
pub open spec fn startup_info_of(reply: GetStartupInfoReply, h: Seq<HandleView>, info: StartupInfo) -> bool {
    &&& info.name@ == decode_utf8(ipc::buffer_bytes(h[GetStartupInfoReply::HANDLE_NAME_MOBJ as int]->Memory_0, reply.name).unwrap())
    &&& h[GetStartupInfoReply::HANDLE_ENV_MOBJ as int] == HandleView::Memory(info.env@)
    &&& h[GetStartupInfoReply::HANDLE_ARGS_MOBJ as int] == HandleView::Memory(info.args@)
    &&& h[GetStartupInfoReply::HANDLE_SYMBOLS_MOBJ as int] == HandleView::Memory(info.symbols@)
}

/// The KVBlock held in a reply slot.
fn kv_block_from(h: KHandle) -> (r: Result<KVBlock, ProcessServerCallError>)
    requires
        h.view() is Memory,
        h.view()->Memory_0.len() >= HEADER_SIZE,
        read_u32(h.view()->Memory_0, 0) == KV_VERSION,
    ensures
        r matches Ok(b) && h.view() == HandleView::Memory(b@),
{
    match h {
        KHandle::MemoryObject(m) => match KVBlock::from_memory_object(m) {
            Ok(b) => Ok(b),
            Err(_) => {
                proof {
                    assert(false);
                }
                Err(CallError::KernelError(0))
            },
        },
        _ => {
            proof {
                assert(false);
            }
            Err(CallError::KernelError(0))
        },
    }
}

} // verus!
