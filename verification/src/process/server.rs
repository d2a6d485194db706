//! The process server side of the messages: each handler reads what the
//! query and its handles carry, asks the server implementation, and frames
//! the reply.
use vstd::prelude::*;
use vstd::string::StringSliceAdditionalSpecFns;
use vstd::utf8::encode_utf8;
use std::sync::Arc;
use crate::ipc::{
    self, Buffer, Handle, KHandle, KHandles, HandleView, no_handles, view_bytes, view_text, written, converted,
    view_valid, view_string, view, take_object, take_port, write_view, HANDLE_SLOTS,
};
use crate::kobject::{MemoryObject, PortSender};
use crate::layout::read_u32;
use crate::record_block::{block_image, required_size, lemma_required_size, lemma_block_prefix, HEADER_SIZE};
use crate::layout::splice;
use crate::ipc::{zeroed_handle, keeps_lent_size, slot_bytes, used_bytes};
use super::plblock::{processes_fit, list_reply_ok, processes_of, infos_view, parsed, lemma_processes_build_then_read};
use super::kvblock::{self, KVBlock};
use super::plblock::{self, ProcessInfo, ProcessListBlock, process_layout, process_records};
use super::StartupInfo;
use super::messages::{
    ProcessStatus, ProcessServerError, GetStartupInfoQueryParameters, GetStartupInfoReply,
    UpdateNameQueryParameters, UpdateNameReply, UpdateEnvQueryParameters, UpdateEnvReply,
    SetExitCodeQueryParameters, SetExitCodeReply, CreateProcessQueryParameters, CreateProcessReply,
    OpenProcessQueryParameters, OpenProcessReply, CloseProcessQueryParameters, CloseProcessReply,
    GetProcessNameQueryParameters, GetProcessNameReply, GetProcessEnvQueryParameters, GetProcessEnvReply,
    GetProcessArgsQueryParameters, GetProcessArgsReply, GetProcessStatusQueryParameters,
    GetProcessStatusReply, TerminateProcessQueryParameters, TerminateProcessReply,
    ListProcessesQueryParameters, ListProcessesReply, RegisterProcessTerminatedNotificationQueryParameters,
    RegisterProcessTerminatedNotificationReply, UnregisterProcessTerminatedNotificationQueryParameters,
    UnregisterProcessTerminatedNotificationReply,
};

verus! {

/// What a process server does; the server framework calls it with the
/// decoded arguments of each message and the id of the sending process.
pub trait ProcessServer {
    type Error: Into<ProcessServerError>;

    fn process_terminated(&self, pid: u64) {
    }

    fn get_startup_info(&self, sender_id: u64) -> Result<StartupInfo, Self::Error>;

    fn update_name(&self, sender_id: u64, new_name: &str) -> Result<(), Self::Error>;

    fn update_env(&self, sender_id: u64, new_env: KVBlock) -> Result<(), Self::Error>;

    fn set_exit_code(&self, sender_id: u64, exit_code: i32) -> Result<(), Self::Error>;

    fn create_process(
        &self,
        sender_id: u64,
        name: &str,
        binary: &[u8],
        environment: KVBlock,
        arguments: KVBlock,
    ) -> Result<(Handle, u64), Self::Error>;

    fn open_process(&self, sender_id: u64, pid: u64) -> Result<(Handle, u64), Self::Error>;

    fn close_process(&self, sender_id: u64, handle: Handle) -> Result<(), Self::Error>;

    fn get_process_name(&self, sender_id: u64, handle: Handle) -> Result<String, Self::Error>;

    fn get_process_env(&self, sender_id: u64, handle: Handle) -> Result<KVBlock, Self::Error>;

    fn get_process_args(&self, sender_id: u64, handle: Handle) -> Result<KVBlock, Self::Error>;

    fn get_process_status(&self, sender_id: u64, handle: Handle) -> Result<ProcessStatus, Self::Error>;

    fn terminate_process(&self, sender_id: u64, handle: Handle) -> Result<(), Self::Error>;

    fn list_processes(&self, sender_id: u64) -> Result<Vec<ProcessInfo>, Self::Error>;

    fn register_process_terminated_notification(
        &self,
        sender_id: u64,
        handle: Handle,
        port: PortSender,
        correlation: u64,
    ) -> Result<Handle, Self::Error>;

    fn unregister_process_terminated_notification(
        &self,
        sender_id: u64,
        registration_handle: Handle,
    ) -> Result<(), Self::Error>;
}

/// The bytes of a memory object that loads as a KVBlock: it holds a header
/// with the version of the format.
pub open spec fn kv_loadable(h: HandleView) -> bool {
    &&& h is Memory
    &&& h->Memory_0.len() >= HEADER_SIZE
    &&& read_u32(h->Memory_0, 0) == kvblock::VERSION
}

/// Takes the KVBlock lent in slot `i`, when it holds one.
pub fn take_kvblock(handles: &mut KHandles, i: usize) -> (r: Option<KVBlock>)
    requires
        i < HANDLE_SLOTS,
    ensures
        old(handles)@.len() == HANDLE_SLOTS,
        final(handles)@ == old(handles)@.update(i as int, HandleView::Invalid),
        kv_loadable(old(handles)@[i as int]) ==> (r matches Some(b) && b@ == old(handles)@[i as int]->Memory_0),
        !kv_loadable(old(handles)@[i as int]) ==> r is None,
{
    match take_object(handles, i) {
        Some(mobj) => {
            if mobj.size() < HEADER_SIZE {
                return None;
            }
            match KVBlock::from_memory_object(mobj) {
                Ok(b) => Some(b),
                Err(_) => None,
            }
        },
        None => None,
    }
}

/// The slots of a reply that carries the startup information `info`.
pub open spec fn startup_handles(info: StartupInfo) -> Seq<HandleView> {
    no_handles()
        .update(GetStartupInfoReply::HANDLE_NAME_MOBJ as int, HandleView::Memory(encode_utf8(info.name@)))
        .update(GetStartupInfoReply::HANDLE_ENV_MOBJ as int, HandleView::Memory(info.env@))
        .update(GetStartupInfoReply::HANDLE_ARGS_MOBJ as int, HandleView::Memory(info.args@))
        .update(GetStartupInfoReply::HANDLE_SYMBOLS_MOBJ as int, HandleView::Memory(info.symbols@))
}

/// Slots that hold nothing but the memory object of `block` in slot `i`.
fn block_handles(i: usize, block: KVBlock) -> (r: KHandles)
    requires
        i < HANDLE_SLOTS,
    ensures
        r@ == no_handles().update(i as int, HandleView::Memory(block@)),
{
    let mut h = KHandles::new();
    h.set(i, KHandle::MemoryObject(block.into_memory_object()));
    h
}

/// The process list block written over `bytes` for `processes`.
pub open spec fn process_list_image(bytes: Seq<u8>, processes: Seq<ProcessInfo>) -> Seq<u8> {
    block_image(process_layout(), bytes, plblock::VERSION, process_records(processes))
}

/// The process server: an implementation behind the handlers of the messages.
pub struct Server<Impl: ProcessServer> {
    inner: Impl,
}

impl<Impl: ProcessServer> Server<Impl> {
    /// The implementation the handlers call.
    pub closed spec fn implementation(&self) -> Impl {
        self.inner
    }

    /// A server over the implementation `inner`.
    pub fn new(inner: Impl) -> (r: Arc<Self>)
        ensures
            (*r).implementation() == inner,
    {
        Arc::new(Server { inner })
    }

    /// Tells the implementation that the process `pid` terminated.
    pub fn process_terminated_handler(&self, pid: u64)
        ensures
            exists|out: ()| #[trigger] call_ensures(Impl::process_terminated, (&self.implementation(), pid), out),
    {
        self.inner.process_terminated(pid);
    }

    /// GetStartupInfo: the name, environment, arguments and symbols of the
    /// sender, each in a memory object of the reply.
    pub fn get_startup_info_handler(&self, query: GetStartupInfoQueryParameters, query_handles: KHandles, sender_id: u64)
        -> (r: (KHandles, Result<(GetStartupInfoReply, KHandles), ProcessServerError>))
        ensures
            r.0@ == query_handles@,
            exists|out: Result<StartupInfo, Impl::Error>| {
                &&& #[trigger] call_ensures(Impl::get_startup_info, (&self.implementation(), sender_id), out)
                &&& match out {
                    Ok(info) => r.1 matches Ok((rep, h)) && h@ == startup_handles(info)
                        && rep.name == (Buffer { offset: 0, len: encode_utf8(info.name@).len() as usize }),
                    Err(e) => r.1 matches Err(f) && converted(e, f),
                }
            },
    {
        match self.inner.get_startup_info(sender_id) {
            Err(e) => (query_handles, Err(e.into())),
            Ok(info) => {
                let StartupInfo { name, env, args, symbols } = info;
                let (name_mobj, name_buffer) = ipc::share_bytes(name.as_str().as_bytes());
                let mut reply_handles = KHandles::new();
                reply_handles.set(GetStartupInfoReply::HANDLE_NAME_MOBJ, KHandle::MemoryObject(name_mobj));
                reply_handles.set(GetStartupInfoReply::HANDLE_ENV_MOBJ, KHandle::MemoryObject(env.into_memory_object()));
                reply_handles.set(GetStartupInfoReply::HANDLE_ARGS_MOBJ, KHandle::MemoryObject(args.into_memory_object()));
                reply_handles.set(GetStartupInfoReply::HANDLE_SYMBOLS_MOBJ, KHandle::MemoryObject(symbols.into_memory_object()));
                (query_handles, Ok((GetStartupInfoReply { name: name_buffer }, reply_handles)))
            },
        }
    }

    /// UpdateName: the new name of the sender, read from the buffer it lent.
    pub fn update_name_handler(&self, query: UpdateNameQueryParameters, query_handles: KHandles, sender_id: u64)
        -> (r: (KHandles, Result<(UpdateNameReply, KHandles), ProcessServerError>))
        ensures
            r.0@ == query_handles@,
            match view_text(query_handles@, UpdateNameQueryParameters::HANDLE_NAME_MOBJ as int, query.name) {
                None => r.1 == Err::<(UpdateNameReply, KHandles), ProcessServerError>(ProcessServerError::InvalidArgument),
                Some(name) => exists|s: &str, out: Result<(), Impl::Error>| {
                    &&& s@ == name
                    &&& #[trigger] call_ensures(Impl::update_name, (&self.implementation(), sender_id, s), out)
                    &&& match out {
                        Ok(_) => r.1 matches Ok((_, h)) && h@ == no_handles(),
                        Err(e) => r.1 matches Err(f) && converted(e, f),
                    }
                },
            },
    {
        let name = match view_string(&query_handles, UpdateNameQueryParameters::HANDLE_NAME_MOBJ, query.name) {
            Some(s) => s,
            None => {
                return (query_handles, Err(ProcessServerError::InvalidArgument));
            },
        };
        let nm = name.as_str();
        let res = self.inner.update_name(sender_id, nm);
        assert(call_ensures(Impl::update_name, (&self.implementation(), sender_id, nm), res));
        match res {
            Ok(()) => (query_handles, Ok((UpdateNameReply {}, KHandles::new()))),
            Err(e) => (query_handles, Err(e.into())),
        }
    }

    /// UpdateEnv: the new environment of the sender, the KVBlock it handed over.
    pub fn update_env_handler(&self, query: UpdateEnvQueryParameters, query_handles: KHandles, sender_id: u64)
        -> (r: (KHandles, Result<(UpdateEnvReply, KHandles), ProcessServerError>))
        ensures
            ({
                let slot = UpdateEnvQueryParameters::HANDLE_ENV_MOBJ as int;
                &&& r.0@ == query_handles@.update(slot, HandleView::Invalid)
                &&& !kv_loadable(query_handles@[slot]) ==> r.1 == Err::<(UpdateEnvReply, KHandles), ProcessServerError>(ProcessServerError::InvalidArgument)
                &&& kv_loadable(query_handles@[slot]) ==> exists|env: KVBlock, out: Result<(), Impl::Error>| {
                    &&& env@ == query_handles@[slot]->Memory_0
                    &&& #[trigger] call_ensures(Impl::update_env, (&self.implementation(), sender_id, env), out)
                    &&& match out {
                        Ok(_) => r.1 matches Ok((_, h)) && h@ == no_handles(),
                        Err(e) => r.1 matches Err(f) && converted(e, f),
                    }
                }
            }),
    {
        let mut query_handles = query_handles;
        let env = match take_kvblock(&mut query_handles, UpdateEnvQueryParameters::HANDLE_ENV_MOBJ) {
            Some(b) => b,
            None => {
                return (query_handles, Err(ProcessServerError::InvalidArgument));
            },
        };
        let ghost g_env = env;
        let res = self.inner.update_env(sender_id, env);
        assert(call_ensures(Impl::update_env, (&self.implementation(), sender_id, g_env), res));
        match res {
            Ok(()) => (query_handles, Ok((UpdateEnvReply {}, KHandles::new()))),
            Err(e) => (query_handles, Err(e.into())),
        }
    }

    /// SetExitCode: the exit code the sender reports.
    pub fn set_exit_code_handler(&self, query: SetExitCodeQueryParameters, query_handles: KHandles, sender_id: u64)
        -> (r: (KHandles, Result<(SetExitCodeReply, KHandles), ProcessServerError>))
        ensures
            r.0@ == query_handles@,
            exists|out: Result<(), Impl::Error>| {
                &&& #[trigger] call_ensures(Impl::set_exit_code, (&self.implementation(), sender_id, query.exit_code), out)
                &&& match out {
                    Ok(_) => r.1 matches Ok((_, h)) && h@ == no_handles(),
                    Err(e) => r.1 matches Err(f) && converted(e, f),
                }
            },
    {
        match self.inner.set_exit_code(sender_id, query.exit_code) {
            Ok(()) => (query_handles, Ok((SetExitCodeReply {}, KHandles::new()))),
            Err(e) => (query_handles, Err(e.into())),
        }
    }

    /// CreateProcess: the name and the binary read from the buffers the
    /// sender lent, and the environment and arguments it handed over.
    pub fn create_process_handler(&self, query: CreateProcessQueryParameters, query_handles: KHandles, sender_id: u64)
        -> (r: (KHandles, Result<(CreateProcessReply, KHandles), ProcessServerError>))
        ensures
            ({
                let h = query_handles@;
                let name = view_text(h, CreateProcessQueryParameters::HANDLE_NAME_MOBJ as int, query.name);
                let binary = view_bytes(h, CreateProcessQueryParameters::HANDLE_BINARY_MOBJ as int, query.binary);
                let env_slot = CreateProcessQueryParameters::HANDLE_ENV_MOBJ as int;
                let args_slot = CreateProcessQueryParameters::HANDLE_ARGS_MOBJ as int;
                let valid = name is Some && binary is Some && kv_loadable(h[env_slot]) && kv_loadable(h[args_slot]);
                &&& !valid ==> r.1 == Err::<(CreateProcessReply, KHandles), ProcessServerError>(ProcessServerError::InvalidArgument)
                &&& valid ==> r.0@ == h.update(env_slot, HandleView::Invalid).update(args_slot, HandleView::Invalid)
                &&& valid ==> exists|nm: &str, bin: &[u8], env: KVBlock, args: KVBlock, out: Result<(Handle, u64), Impl::Error>| {
                    &&& nm@ == name.unwrap()
                    &&& bin@ == binary.unwrap()
                    &&& env@ == h[env_slot]->Memory_0
                    &&& args@ == h[args_slot]->Memory_0
                    &&& #[trigger] call_ensures(Impl::create_process, (&self.implementation(), sender_id, nm, bin, env, args), out)
                    &&& match out {
                        Ok((handle, pid)) => r.1 matches Ok((rep, rh)) && rep.handle == handle && rep.pid == pid && rh@ == no_handles(),
                        Err(e) => r.1 matches Err(f) && converted(e, f),
                    }
                }
            }),
    {
        let mut query_handles = query_handles;
        let name = view_string(&query_handles, CreateProcessQueryParameters::HANDLE_NAME_MOBJ, query.name);
        let binary = view(&query_handles, CreateProcessQueryParameters::HANDLE_BINARY_MOBJ, query.binary);
        let (name, binary) = match (name, binary) {
            (Some(n), Some(b)) => (n, b),
            _ => {
                return (query_handles, Err(ProcessServerError::InvalidArgument));
            },
        };
        let environment = match take_kvblock(&mut query_handles, CreateProcessQueryParameters::HANDLE_ENV_MOBJ) {
            Some(b) => b,
            None => {
                return (query_handles, Err(ProcessServerError::InvalidArgument));
            },
        };
        let arguments = match take_kvblock(&mut query_handles, CreateProcessQueryParameters::HANDLE_ARGS_MOBJ) {
            Some(b) => b,
            None => {
                return (query_handles, Err(ProcessServerError::InvalidArgument));
            },
        };
        let nm = name.as_str();
        let bin = binary.as_slice();
        let ghost (g_env, g_args) = (environment, arguments);
        let res = self.inner.create_process(sender_id, nm, bin, environment, arguments);
        assert(call_ensures(Impl::create_process, (&self.implementation(), sender_id, nm, bin, g_env, g_args), res));
        match res {
            Ok((handle, pid)) => (query_handles, Ok((CreateProcessReply { handle, pid }, KHandles::new()))),
            Err(e) => (query_handles, Err(e.into())),
        }
    }

    /// OpenProcess: a handle to the process `pid`.
    pub fn open_process_handler(&self, query: OpenProcessQueryParameters, query_handles: KHandles, sender_id: u64)
        -> (r: (KHandles, Result<(OpenProcessReply, KHandles), ProcessServerError>))
        ensures
            r.0@ == query_handles@,
            exists|out: Result<(Handle, u64), Impl::Error>| {
                &&& #[trigger] call_ensures(Impl::open_process, (&self.implementation(), sender_id, query.pid), out)
                &&& match out {
                    Ok((handle, pid)) => r.1 matches Ok((rep, h)) && rep.handle == handle && rep.pid == pid && h@ == no_handles(),
                    Err(e) => r.1 matches Err(f) && converted(e, f),
                }
            },
    {
        let res = self.inner.open_process(sender_id, query.pid);
        assert(call_ensures(Impl::open_process, (&self.implementation(), sender_id, query.pid), res));
        match res {
            Ok((handle, pid)) => (query_handles, Ok((OpenProcessReply { handle, pid }, KHandles::new()))),
            Err(e) => (query_handles, Err(e.into())),
        }
    }

    /// CloseProcess: drops the handle.
    pub fn close_process_handler(&self, query: CloseProcessQueryParameters, query_handles: KHandles, sender_id: u64)
        -> (r: (KHandles, Result<(CloseProcessReply, KHandles), ProcessServerError>))
        ensures
            r.0@ == query_handles@,
            exists|out: Result<(), Impl::Error>| {
                &&& #[trigger] call_ensures(Impl::close_process, (&self.implementation(), sender_id, query.handle), out)
                &&& match out {
                    Ok(()) => r.1 matches Ok((_, h)) && h@ == no_handles(),
                    Err(e) => r.1 matches Err(f) && converted(e, f),
                }
            },
    {
        let res = self.inner.close_process(sender_id, query.handle);
        assert(call_ensures(Impl::close_process, (&self.implementation(), sender_id, query.handle), res));
        match res {
            Ok(()) => (query_handles, Ok((CloseProcessReply {}, KHandles::new()))),
            Err(e) => (query_handles, Err(e.into())),
        }
    }

    /// GetProcessStatus: whether the process runs, or its exit code.
    pub fn get_process_status_handler(&self, query: GetProcessStatusQueryParameters, query_handles: KHandles, sender_id: u64)
        -> (r: (KHandles, Result<(GetProcessStatusReply, KHandles), ProcessServerError>))
        ensures
            r.0@ == query_handles@,
            exists|out: Result<ProcessStatus, Impl::Error>| {
                &&& #[trigger] call_ensures(Impl::get_process_status, (&self.implementation(), sender_id, query.handle), out)
                &&& match out {
                    Ok(status) => r.1 matches Ok((rep, h)) && rep.status == status && h@ == no_handles(),
                    Err(e) => r.1 matches Err(f) && converted(e, f),
                }
            },
    {
        let res = self.inner.get_process_status(sender_id, query.handle);
        assert(call_ensures(Impl::get_process_status, (&self.implementation(), sender_id, query.handle), res));
        match res {
            Ok(status) => (query_handles, Ok((GetProcessStatusReply { status }, KHandles::new()))),
            Err(e) => (query_handles, Err(e.into())),
        }
    }

    /// TerminateProcess: ends the process.
    pub fn terminate_process_handler(&self, query: TerminateProcessQueryParameters, query_handles: KHandles, sender_id: u64)
        -> (r: (KHandles, Result<(TerminateProcessReply, KHandles), ProcessServerError>))
        ensures
            r.0@ == query_handles@,
            exists|out: Result<(), Impl::Error>| {
                &&& #[trigger] call_ensures(Impl::terminate_process, (&self.implementation(), sender_id, query.handle), out)
                &&& match out {
                    Ok(()) => r.1 matches Ok((_, h)) && h@ == no_handles(),
                    Err(e) => r.1 matches Err(f) && converted(e, f),
                }
            },
    {
        let res = self.inner.terminate_process(sender_id, query.handle);
        assert(call_ensures(Impl::terminate_process, (&self.implementation(), sender_id, query.handle), res));
        match res {
            Ok(()) => (query_handles, Ok((TerminateProcessReply {}, KHandles::new()))),
            Err(e) => (query_handles, Err(e.into())),
        }
    }

    /// UnregisterProcessTerminatedNotification: drops the registration.
    pub fn unregister_process_terminated_notification_handler(&self, query: UnregisterProcessTerminatedNotificationQueryParameters, query_handles: KHandles, sender_id: u64)
        -> (r: (KHandles, Result<(UnregisterProcessTerminatedNotificationReply, KHandles), ProcessServerError>))
        ensures
            r.0@ == query_handles@,
            exists|out: Result<(), Impl::Error>| {
                &&& #[trigger] call_ensures(Impl::unregister_process_terminated_notification, (&self.implementation(), sender_id, query.registration_handle), out)
                &&& match out {
                    Ok(()) => r.1 matches Ok((_, h)) && h@ == no_handles(),
                    Err(e) => r.1 matches Err(f) && converted(e, f),
                }
            },
    {
        let res = self.inner.unregister_process_terminated_notification(sender_id, query.registration_handle);
        assert(call_ensures(Impl::unregister_process_terminated_notification, (&self.implementation(), sender_id, query.registration_handle), res));
        match res {
            Ok(()) => (query_handles, Ok((UnregisterProcessTerminatedNotificationReply {}, KHandles::new()))),
            Err(e) => (query_handles, Err(e.into())),
        }
    }

    /// GetProcessEnv: the environment of the process, in a memory object of the reply.
    pub fn get_process_env_handler(&self, query: GetProcessEnvQueryParameters, query_handles: KHandles, sender_id: u64)
        -> (r: (KHandles, Result<(GetProcessEnvReply, KHandles), ProcessServerError>))
        ensures
            r.0@ == query_handles@,
            exists|out: Result<KVBlock, Impl::Error>| {
                &&& #[trigger] call_ensures(Impl::get_process_env, (&self.implementation(), sender_id, query.handle), out)
                &&& match out {
                    Ok(env) => r.1 matches Ok((_, h)) && h@ == no_handles().update(GetProcessEnvReply::HANDLE_ENV_MOBJ as int, HandleView::Memory(env@)),
                    Err(e) => r.1 matches Err(f) && converted(e, f),
                }
            },
    {
        let res = self.inner.get_process_env(sender_id, query.handle);
        assert(call_ensures(Impl::get_process_env, (&self.implementation(), sender_id, query.handle), res));
        match res {
            Ok(env) => (query_handles, Ok((GetProcessEnvReply {}, block_handles(GetProcessEnvReply::HANDLE_ENV_MOBJ, env)))),
            Err(e) => (query_handles, Err(e.into())),
        }
    }

    /// GetProcessArgs: the arguments of the process, in a memory object of the reply.
    pub fn get_process_args_handler(&self, query: GetProcessArgsQueryParameters, query_handles: KHandles, sender_id: u64)
        -> (r: (KHandles, Result<(GetProcessArgsReply, KHandles), ProcessServerError>))
        ensures
            r.0@ == query_handles@,
            exists|out: Result<KVBlock, Impl::Error>| {
                &&& #[trigger] call_ensures(Impl::get_process_args, (&self.implementation(), sender_id, query.handle), out)
                &&& match out {
                    Ok(args) => r.1 matches Ok((_, h)) && h@ == no_handles().update(GetProcessArgsReply::HANDLE_ARGS_MOBJ as int, HandleView::Memory(args@)),
                    Err(e) => r.1 matches Err(f) && converted(e, f),
                }
            },
    {
        let res = self.inner.get_process_args(sender_id, query.handle);
        assert(call_ensures(Impl::get_process_args, (&self.implementation(), sender_id, query.handle), res));
        match res {
            Ok(args) => (query_handles, Ok((GetProcessArgsReply {}, block_handles(GetProcessArgsReply::HANDLE_ARGS_MOBJ, args)))),
            Err(e) => (query_handles, Err(e.into())),
        }
    }

    /// GetProcessName: the name of the process, written at the start of the
    /// buffer the sender lent; refused when the buffer is too small for it.
    pub fn get_process_name_handler(&self, query: GetProcessNameQueryParameters, query_handles: KHandles, sender_id: u64)
        -> (r: (KHandles, Result<(GetProcessNameReply, KHandles), ProcessServerError>))
        ensures
            exists|out: Result<String, Impl::Error>| {
                &&& #[trigger] call_ensures(Impl::get_process_name, (&self.implementation(), sender_id, query.handle), out)
                &&& match out {
                    Err(e) => r.1 matches Err(f) && converted(e, f) && r.0@ == query_handles@,
                    Ok(name) => {
                        let slot = GetProcessNameQueryParameters::HANDLE_BUFFER_MOBJ as int;
                        let bytes = encode_utf8(name@);
                        if view_bytes(query_handles@, slot, query.buffer) is None {
                            r.1 == Err::<(GetProcessNameReply, KHandles), ProcessServerError>(ProcessServerError::InvalidArgument)
                                && r.0@ == query_handles@
                        } else if bytes.len() > query.buffer.len {
                            r.1 == Err::<(GetProcessNameReply, KHandles), ProcessServerError>(ProcessServerError::BufferTooSmall)
                                && r.0@ == query_handles@
                        } else {
                            &&& r.1 matches Ok((rep, h)) && rep.buffer_used_len == bytes.len() && h@ == no_handles()
                            &&& r.0@ == written(query_handles@, slot, query.buffer, bytes)
                        }
                    },
                }
            },
    {
        let res = self.inner.get_process_name(sender_id, query.handle);
        assert(call_ensures(Impl::get_process_name, (&self.implementation(), sender_id, query.handle), res));
        let name = match res {
            Ok(name) => name,
            Err(e) => {
                return (query_handles, Err(e.into()));
            },
        };
        if !view_valid(&query_handles, GetProcessNameQueryParameters::HANDLE_BUFFER_MOBJ, query.buffer) {
            return (query_handles, Err(ProcessServerError::InvalidArgument));
        }
        let bytes = name.as_str().as_bytes();
        if bytes.len() > query.buffer.len {
            return (query_handles, Err(ProcessServerError::BufferTooSmall));
        }
        let mut query_handles = query_handles;
        write_view(&mut query_handles, GetProcessNameQueryParameters::HANDLE_BUFFER_MOBJ, query.buffer, bytes);
        (query_handles, Ok((GetProcessNameReply { buffer_used_len: bytes.len() }, KHandles::new())))
    }

    /// ListProcesses: the processes of the system, written as a process list
    /// block into the buffer the sender lent; refused when the buffer is too
    /// small for it.
    pub fn list_processes_handler(&self, query: ListProcessesQueryParameters, query_handles: KHandles, sender_id: u64)
        -> (r: (KHandles, Result<(ListProcessesReply, KHandles), ProcessServerError>))
        ensures
            ({
                let slot = ListProcessesQueryParameters::HANDLE_BUFFER_MOBJ as int;
                let view = view_bytes(query_handles@, slot, query.buffer);
                &&& (view is None || query.buffer.len + 16 > usize::MAX) ==> r.1 == Err::<(ListProcessesReply, KHandles), ProcessServerError>(ProcessServerError::InvalidArgument)
                    && r.0@ == query_handles@
                &&& (view is Some && query.buffer.len + 16 <= usize::MAX) ==> exists|out: Result<Vec<ProcessInfo>, Impl::Error>| {
                    &&& #[trigger] call_ensures(Impl::list_processes, (&self.implementation(), sender_id), out)
                    &&& match out {
                        Err(e) => r.1 matches Err(f) && converted(e, f) && r.0@ == query_handles@,
                        Ok(processes) => {
                            let size = required_size(process_layout(), process_records(processes@));
                            if size > query.buffer.len {
                                r.1 == Err::<(ListProcessesReply, KHandles), ProcessServerError>(ProcessServerError::BufferTooSmall)
                                    && r.0@ == query_handles@
                            } else {
                                &&& r.1 matches Ok((rep, h)) && rep.buffer_used_len == size && h@ == no_handles()
                                &&& r.0@ == written(query_handles@, slot, query.buffer, process_list_image(view.unwrap(), processes@))
                            }
                        },
                    }
                }
            }),
    {
        let mut buffer = match view(&query_handles, ListProcessesQueryParameters::HANDLE_BUFFER_MOBJ, query.buffer) {
            Some(b) => b,
            None => {
                return (query_handles, Err(ProcessServerError::InvalidArgument));
            },
        };
        if buffer.len() > usize::MAX - 16 {
            return (query_handles, Err(ProcessServerError::InvalidArgument));
        }
        let res = self.inner.list_processes(sender_id);
        assert(call_ensures(Impl::list_processes, (&self.implementation(), sender_id), res));
        let processes = match res {
            Ok(p) => p,
            Err(e) => {
                return (query_handles, Err(e.into()));
            },
        };
        match ProcessListBlock::build(processes.as_slice(), buffer.as_mut_slice()) {
            Ok(used) => {
                proof {
                    lemma_required_size(process_layout(), process_records(processes@));
                }
                let mut query_handles = query_handles;
                write_view(&mut query_handles, ListProcessesQueryParameters::HANDLE_BUFFER_MOBJ, query.buffer, buffer.as_slice());
                (query_handles, Ok((ListProcessesReply { buffer_used_len: used }, KHandles::new())))
            },
            Err(_) => (query_handles, Err(ProcessServerError::BufferTooSmall)),
        }
    }

    /// RegisterProcessTerminatedNotification: the port the sender handed over
    /// is told when the process terminates.
    pub fn register_process_terminated_notification_handler(
        &self,
        query: RegisterProcessTerminatedNotificationQueryParameters,
        query_handles: KHandles,
        sender_id: u64,
    ) -> (r: (KHandles, Result<(RegisterProcessTerminatedNotificationReply, KHandles), ProcessServerError>))
        ensures
            ({
                let slot = RegisterProcessTerminatedNotificationQueryParameters::HANDLE_PORT as int;
                &&& r.0@ == query_handles@.update(slot, HandleView::Invalid)
                &&& !(query_handles@[slot] is Port) ==> r.1 == Err::<(RegisterProcessTerminatedNotificationReply, KHandles), ProcessServerError>(ProcessServerError::InvalidArgument)
                &&& query_handles@[slot] is Port ==> exists|out: Result<Handle, Impl::Error>| {
                    &&& #[trigger] call_ensures(
                        Impl::register_process_terminated_notification,
                        (&self.implementation(), sender_id, query.handle, PortSender(query_handles@[slot]->Port_0), query.correlation),
                        out,
                    )
                    &&& match out {
                        Ok(registration_handle) => r.1 matches Ok((rep, h)) && rep.registration_handle == registration_handle && h@ == no_handles(),
                        Err(e) => r.1 matches Err(f) && converted(e, f),
                    }
                }
            }),
    {
        let mut query_handles = query_handles;
        let port = match take_port(&mut query_handles, RegisterProcessTerminatedNotificationQueryParameters::HANDLE_PORT) {
            Some(p) => p,
            None => {
                return (query_handles, Err(ProcessServerError::InvalidArgument));
            },
        };
        let res = self.inner.register_process_terminated_notification(sender_id, query.handle, port, query.correlation);
        assert(call_ensures(Impl::register_process_terminated_notification, (&self.implementation(), sender_id, query.handle, port, query.correlation), res));
        match res {
            Ok(registration_handle) => (query_handles, Ok((RegisterProcessTerminatedNotificationReply { registration_handle }, KHandles::new()))),
            Err(e) => (query_handles, Err(e.into())),
        }
    }
}

/// A list of processes that the server writes into the zeroed buffer a
/// client lent reads back at the client as the same list: the buffer keeps
/// its size, the used length fits in it, and the used bytes hold a readable
/// block of those processes.
pub proof fn lemma_process_list_read_back(size: usize, processes: Seq<ProcessInfo>)
    requires
        processes_fit(processes),
        required_size(process_layout(), process_records(processes)) <= size,
        size + 16 <= usize::MAX,
    ensures
        ({
            let slot = ListProcessesQueryParameters::HANDLE_BUFFER_MOBJ as int;
            let sent = zeroed_handle(slot, size);
            let zeros = Seq::new(size as nat, |i: int| 0u8);
            let back = written(sent, slot, Buffer { offset: 0, len: size }, process_list_image(zeros, processes));
            let used = required_size(process_layout(), process_records(processes)) as usize;
            &&& keeps_lent_size(sent, back, slot)
            &&& used <= slot_bytes(back, slot).len()
            &&& list_reply_ok(used_bytes(back, slot, used))
            &&& processes_of(used_bytes(back, slot, used)) == infos_view(processes)
        }),
{
    let slot = ListProcessesQueryParameters::HANDLE_BUFFER_MOBJ as int;
    let l = process_layout();
    let recs = process_records(processes);
    let zeros = Seq::new(size as nat, |i: int| 0u8);
    let img = process_list_image(zeros, processes);
    lemma_processes_build_then_read(processes, zeros);
    lemma_block_prefix(l, zeros, plblock::VERSION, recs);
    let back = written(zeroed_handle(slot, size), slot, Buffer { offset: 0, len: size }, img);
    assert(splice(zeros, 0, img) =~= img);
    assert(slot_bytes(back, slot) == img);
    assert(parsed(used_bytes(back, slot, required_size(l, recs) as usize)) == parsed(img));
}

} // verus!
