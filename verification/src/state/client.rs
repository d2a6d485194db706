//! Low level client of the state server.
use vstd::prelude::*;
use vstd::string::StringSliceAdditionalSpecFns;
use crate::ipc::{self, CallError, KHandle, KHandles, HandleView, no_handles};
use crate::kobject::MemoryObject;
use super::messages::{Type, StateServerError, GetStateQueryParameters, GetStateReply, PORT_NAME, VERSION};

verus! {

pub type StateServerCallError = CallError<StateServerError>;

/// Low level state client implementation.
pub struct Client {
    ipc_client: ipc::Client,
}

impl Client {
    /// The port and version this client talks to.
    pub closed spec fn ipc(&self) -> ipc::Client {
        self.ipc_client
    }

    /// Creates a new state client.
    pub fn new() -> (r: Self)
        ensures
            r.ipc().spec_port_name() == PORT_NAME@,
            r.ipc().spec_version() == VERSION,
    {
        Self { ipc_client: ipc::Client::new(PORT_NAME, VERSION) }
    }

    /// call ipc GetState
    ///
    /// The reply carries the memory object of the state in its value slot.
    pub fn get_state<F>(&self, name: &str, call: F) -> (r: Result<MemoryObject, StateServerCallError>)
        where
            F: FnOnce(&ipc::Client, Type, GetStateQueryParameters, KHandles) -> (KHandles, Result<(GetStateReply, KHandles), StateServerCallError>),
        requires
            forall|h: KHandles| #![trigger h@]
                h@ == no_handles().update(GetStateQueryParameters::HANDLE_NAME_MOBJ as int, HandleView::Memory(name.spec_bytes()))
                ==> call.requires((&self.ipc(), Type::GetState, GetStateQueryParameters { name: ipc::Buffer { offset: 0, len: name.spec_bytes().len() as usize } }, h)),
            forall|a: (&ipc::Client, Type, GetStateQueryParameters, KHandles), out: (KHandles, Result<(GetStateReply, KHandles), StateServerCallError>)|
                #[trigger] call.ensures(a, out) && out.1 is Ok ==> out.1->Ok_0.1@[GetStateReply::HANDLE_VALUE_MOBJ as int] is Memory,
        ensures
            exists|h: KHandles, out: (KHandles, Result<(GetStateReply, KHandles), StateServerCallError>)| {
                &&& h@ == no_handles().update(GetStateQueryParameters::HANDLE_NAME_MOBJ as int, HandleView::Memory(name.spec_bytes()))
                &&& #[trigger] call.ensures((&self.ipc(), Type::GetState, GetStateQueryParameters { name: ipc::Buffer { offset: 0, len: name.spec_bytes().len() as usize } }, h), out)
                &&& match out.1 {
                    Ok(rep) => r matches Ok(m) && rep.1@[GetStateReply::HANDLE_VALUE_MOBJ as int] == HandleView::Memory(m@),
                    Err(e) => r is Err && r->Err_0 == e,
                }
            },
    {
        let (m0, b0) = ipc::share_bytes(name.as_bytes());
        let query = GetStateQueryParameters { name: b0 };
        let mut query_handles = KHandles::new();
        query_handles.set(GetStateQueryParameters::HANDLE_NAME_MOBJ, KHandle::MemoryObject(m0));
        let (_lent, res) = call(&self.ipc_client, Type::GetState, query, query_handles);
        match res {
            Ok((_reply, mut reply_handles)) => {
                let ghost rh = reply_handles@;
                match reply_handles.take(GetStateReply::HANDLE_VALUE_MOBJ) {
                    KHandle::MemoryObject(m) => Ok(m),
                    _ => {
                        proof {
                            assert(rh[GetStateReply::HANDLE_VALUE_MOBJ as int] is Memory);
                            assert(false);
                        }
                        Err(CallError::KernelError(0))
                    },
                }
            },
            Err(e) => Err(e),
        }
    }
}

} // verus!
