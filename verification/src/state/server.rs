//! The state server side of the messages: the handler reads the name the
//! sender lent, asks the server implementation, and hands back the value.
use vstd::prelude::*;
use std::sync::Arc;
use crate::ipc::{KHandle, KHandles, HandleView, no_handles, view_text, converted, view_string};
use crate::kobject::MemoryObject;
use super::messages::{StateServerError, GetStateQueryParameters, GetStateReply};

verus! {

/// What a state server does; the server framework calls it with the decoded
/// arguments of each message and the id of the sending process.
pub trait StateServer {
    type Error: Into<StateServerError>;

    fn process_terminated(&self, pid: u64) {
    }

    fn get_state(&self, sender_id: u64, name: &str) -> Result<MemoryObject, Self::Error>;
}

/// The state server: an implementation behind the handlers of the messages.
pub struct Server<Impl: StateServer> {
    inner: Impl,
}

impl<Impl: StateServer> Server<Impl> {
    /// The implementation the handlers call.
    pub closed spec fn implementation(&self) -> Impl {
        self.inner
    }

    /// A server over the implementation `inner`.
    pub fn new(inner: Impl) -> (r: Arc<Self>)
        ensures
            (*r).implementation() == inner,
    {
        Arc::new(Server { inner })
    }

    /// Tells the implementation that the process `pid` terminated.
    pub fn process_terminated_handler(&self, pid: u64)
        ensures
            exists|out: ()| #[trigger] call_ensures(Impl::process_terminated, (&self.implementation(), pid), out),
    {
        self.inner.process_terminated(pid);
    }

    /// GetState: the value stored under the name the sender lent, in a memory
    /// object of the reply.
    pub fn get_state_handler(&self, query: GetStateQueryParameters, query_handles: KHandles, sender_id: u64)
        -> (r: (KHandles, Result<(GetStateReply, KHandles), StateServerError>))
        ensures
            r.0@ == query_handles@,
            match view_text(query_handles@, GetStateQueryParameters::HANDLE_NAME_MOBJ as int, query.name) {
                None => r.1 == Err::<(GetStateReply, KHandles), StateServerError>(StateServerError::InvalidArgument),
                Some(name) => exists|s: &str, out: Result<MemoryObject, Impl::Error>| {
                    &&& s@ == name
                    &&& #[trigger] call_ensures(Impl::get_state, (&self.implementation(), sender_id, s), out)
                    &&& match out {
                        Ok(value) => r.1 matches Ok((_, h))
                            && h@ == no_handles().update(GetStateReply::HANDLE_VALUE_MOBJ as int, HandleView::Memory(value@)),
                        Err(e) => r.1 matches Err(f) && converted(e, f),
                    }
                },
            },
    {
        let name = match view_string(&query_handles, GetStateQueryParameters::HANDLE_NAME_MOBJ, query.name) {
            Some(s) => s,
            None => {
                return (query_handles, Err(StateServerError::InvalidArgument));
            },
        };
        let nm = name.as_str();
        let res = self.inner.get_state(sender_id, nm);
        assert(call_ensures(Impl::get_state, (&self.implementation(), sender_id, nm), res));
        match res {
            Ok(value) => {
                let mut reply_handles = KHandles::new();
                reply_handles.set(GetStateReply::HANDLE_VALUE_MOBJ, KHandle::MemoryObject(value));
                (query_handles, Ok((GetStateReply {}, reply_handles)))
            },
            Err(e) => (query_handles, Err(e.into())),
        }
    }
}

} // verus!
