//! The network device server side of the messages: each handler reads what
//! the query and its handles carry, asks the server implementation, and
//! frames the reply.
use vstd::prelude::*;
use std::sync::Arc;
use crate::ipc::{Handle, KHandle, KHandles, HandleView, PciAddress, no_handles, view_text, converted, view_string, take_port, HANDLE_SLOTS};
use crate::kobject::PortSender;
use crate::net::types::MacAddress;
use super::messages::{
    NetDeviceError, CreateQueryParameters, CreateReply, DestroyQueryParameters, DestroyReply,
    GetLinkStatusQueryParameters, GetLinkStatusReply, SetLinkStatusChangePortQueryParameters,
    SetLinkStatusChangePortReply, GetMacAddressQueryParameters, GetMacAddressReply,
};

verus! {

/// What a network device server does; the server framework calls it with
/// the decoded arguments of each message and the id of the sending process.
pub trait NetDeviceServer {
    type Error: Into<NetDeviceError>;

    /// Create a new network device from a PCI address.
    fn create(&self, sender_id: u64, name: &str, pci_address: PciAddress) -> Result<Handle, Self::Error>;

    /// Destroy a network device.
    fn destroy(&self, sender_id: u64, handle: Handle) -> Result<(), Self::Error>;

    /// Get the link status of a network device.
    fn get_link_status(&self, sender_id: u64, handle: Handle) -> Result<bool, Self::Error>;

    /// Set the port for link status change notifications: `Some(port)` to
    /// register for notifications, `None` to unregister.
    fn set_link_status_change_port(
        &self,
        sender_id: u64,
        handle: Handle,
        port: Option<PortSender>,
        correlation: u64,
    ) -> Result<(), Self::Error>;

    /// Get the MAC address of a network device.
    fn get_mac_address(&self, sender_id: u64, handle: Handle) -> Result<MacAddress, Self::Error>;
}

/// The port a slot hands over: none when it is empty, the port when it holds
/// one, and nothing valid when it holds anything else.
pub open spec fn optional_port(h: HandleView) -> Option<Option<PortSender>> {
    match h {
        HandleView::Invalid => Some(None),
        HandleView::Port(p) => Some(Some(PortSender(p))),
        HandleView::Memory(_) => None,
    }
}

/// The network device server: an implementation behind the handlers of the messages.
pub struct Server<Impl: NetDeviceServer> {
    inner: Impl,
}

impl<Impl: NetDeviceServer> Server<Impl> {
    /// The implementation the handlers call.
    pub closed spec fn implementation(&self) -> Impl {
        self.inner
    }

    /// A server over the implementation `inner`.
    pub fn new(inner: Impl) -> (r: Arc<Self>)
        ensures
            (*r).implementation() == inner,
    {
        Arc::new(Server { inner })
    }

    /// Create: a device named by the text the sender lent, at the PCI address.
    pub fn create_handler(&self, query: CreateQueryParameters, query_handles: KHandles, sender_id: u64)
        -> (r: (KHandles, Result<(CreateReply, KHandles), NetDeviceError>))
        ensures
            r.0@ == query_handles@,
            match view_text(query_handles@, CreateQueryParameters::HANDLE_NAME_MOBJ as int, query.name) {
                None => r.1 == Err::<(CreateReply, KHandles), NetDeviceError>(NetDeviceError::InvalidArgument),
                Some(name) => exists|s: &str, out: Result<Handle, Impl::Error>| {
                    &&& s@ == name
                    &&& #[trigger] call_ensures(Impl::create, (&self.implementation(), sender_id, s, query.pci_address), out)
                    &&& match out {
                        Ok(handle) => r.1 matches Ok((rep, h)) && rep.handle == handle && h@ == no_handles(),
                        Err(e) => r.1 matches Err(f) && converted(e, f),
                    }
                },
            },
    {
        let name = match view_string(&query_handles, CreateQueryParameters::HANDLE_NAME_MOBJ, query.name) {
            Some(s) => s,
            None => {
                return (query_handles, Err(NetDeviceError::InvalidArgument));
            },
        };
        let nm = name.as_str();
        let res = self.inner.create(sender_id, nm, query.pci_address);
        assert(call_ensures(Impl::create, (&self.implementation(), sender_id, nm, query.pci_address), res));
        match res {
            Ok(handle) => (query_handles, Ok((CreateReply { handle }, KHandles::new()))),
            Err(e) => (query_handles, Err(e.into())),
        }
    }

    /// Destroy: removes the device.
    pub fn destroy_handler(&self, query: DestroyQueryParameters, query_handles: KHandles, sender_id: u64)
        -> (r: (KHandles, Result<(DestroyReply, KHandles), NetDeviceError>))
        ensures
            r.0@ == query_handles@,
            exists|out: Result<(), Impl::Error>| {
                &&& #[trigger] call_ensures(Impl::destroy, (&self.implementation(), sender_id, query.handle), out)
                &&& match out {
                    Ok(()) => r.1 matches Ok((_, h)) && h@ == no_handles(),
                    Err(e) => r.1 matches Err(f) && converted(e, f),
                }
            },
    {
        let res = self.inner.destroy(sender_id, query.handle);
        assert(call_ensures(Impl::destroy, (&self.implementation(), sender_id, query.handle), res));
        match res {
            Ok(()) => (query_handles, Ok((DestroyReply {}, KHandles::new()))),
            Err(e) => (query_handles, Err(e.into())),
        }
    }

    /// GetLinkStatus: whether the link of the device is up.
    pub fn get_link_status_handler(&self, query: GetLinkStatusQueryParameters, query_handles: KHandles, sender_id: u64)
        -> (r: (KHandles, Result<(GetLinkStatusReply, KHandles), NetDeviceError>))
        ensures
            r.0@ == query_handles@,
            exists|out: Result<bool, Impl::Error>| {
                &&& #[trigger] call_ensures(Impl::get_link_status, (&self.implementation(), sender_id, query.handle), out)
                &&& match out {
                    Ok(link_up) => r.1 matches Ok((rep, h)) && rep.link_up == link_up && h@ == no_handles(),
                    Err(e) => r.1 matches Err(f) && converted(e, f),
                }
            },
    {
        let res = self.inner.get_link_status(sender_id, query.handle);
        assert(call_ensures(Impl::get_link_status, (&self.implementation(), sender_id, query.handle), res));
        match res {
            Ok(link_up) => (query_handles, Ok((GetLinkStatusReply { link_up }, KHandles::new()))),
            Err(e) => (query_handles, Err(e.into())),
        }
    }

    /// GetMacAddress: the MAC address of the device.
    pub fn get_mac_address_handler(&self, query: GetMacAddressQueryParameters, query_handles: KHandles, sender_id: u64)
        -> (r: (KHandles, Result<(GetMacAddressReply, KHandles), NetDeviceError>))
        ensures
            r.0@ == query_handles@,
            exists|out: Result<MacAddress, Impl::Error>| {
                &&& #[trigger] call_ensures(Impl::get_mac_address, (&self.implementation(), sender_id, query.handle), out)
                &&& match out {
                    Ok(mac_address) => r.1 matches Ok((rep, h)) && rep.mac_address == mac_address && h@ == no_handles(),
                    Err(e) => r.1 matches Err(f) && converted(e, f),
                }
            },
    {
        let res = self.inner.get_mac_address(sender_id, query.handle);
        assert(call_ensures(Impl::get_mac_address, (&self.implementation(), sender_id, query.handle), res));
        match res {
            Ok(mac_address) => (query_handles, Ok((GetMacAddressReply { mac_address }, KHandles::new()))),
            Err(e) => (query_handles, Err(e.into())),
        }
    }

    /// SetLinkStatusChangePort: the port the sender handed over is told of
    /// the changes of the link; an empty slot unregisters.
    pub fn set_link_status_change_port_handler(&self, query: SetLinkStatusChangePortQueryParameters, query_handles: KHandles, sender_id: u64)
        -> (r: (KHandles, Result<(SetLinkStatusChangePortReply, KHandles), NetDeviceError>))
        ensures
            ({
                let slot = SetLinkStatusChangePortQueryParameters::HANDLE_PORT as int;
                &&& r.0@ == query_handles@.update(slot, HandleView::Invalid)
                &&& match optional_port(query_handles@[slot]) {
                    None => r.1 == Err::<(SetLinkStatusChangePortReply, KHandles), NetDeviceError>(NetDeviceError::InvalidArgument),
                    Some(port) => exists|out: Result<(), Impl::Error>| {
                        &&& #[trigger] call_ensures(Impl::set_link_status_change_port, (&self.implementation(), sender_id, query.handle, port, query.correlation), out)
                        &&& match out {
                            Ok(_) => r.1 matches Ok((_, h)) && h@ == no_handles(),
                            Err(e) => r.1 matches Err(f) && converted(e, f),
                        }
                    },
                }
            }),
    {
        let mut query_handles = query_handles;
        let port = match query_handles.take(SetLinkStatusChangePortQueryParameters::HANDLE_PORT) {
            KHandle::Invalid => None,
            KHandle::Port(p) => Some(p),
            KHandle::MemoryObject(_) => {
                return (query_handles, Err(NetDeviceError::InvalidArgument));
            },
        };
        let res = self.inner.set_link_status_change_port(sender_id, query.handle, port, query.correlation);
        assert(call_ensures(Impl::set_link_status_change_port, (&self.implementation(), sender_id, query.handle, port, query.correlation), res));
        match res {
            Ok(()) => (query_handles, Ok((SetLinkStatusChangePortReply {}, KHandles::new()))),
            Err(e) => (query_handles, Err(e.into())),
        }
    }
}

} // verus!
