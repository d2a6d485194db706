//! Low level client of the network server.
use vstd::prelude::*;
use vstd::string::StringSliceAdditionalSpecFns;
use crate::ipc::{self, CallError, KHandle, KHandles, HandleView, Handle, no_handles};
use crate::kobject::{MemoryObject, PortSender};
use super::messages::{
    Type, NetServerError, ListRoutesQueryParameters, ListRoutesReply, CreateInterfaceQueryParameters, CreateInterfaceReply, DestroyInterfaceQueryParameters,
    DestroyInterfaceReply, SetInterfaceConfigQueryParameters, SetInterfaceConfigReply,
    GetInterfaceConfigQueryParameters, GetInterfaceConfigReply, GetInterfaceInfoQueryParameters,
    GetInterfaceInfoReply, SetRouteQueryParameters, SetRouteReply, RemoveRouteQueryParameters, RemoveRouteReply,
    InterfaceConfig, InterfaceInfo, PORT_NAME, VERSION,
};
use crate::ipc::PciAddress;
use crate::net::types::{IpAddress, IpPrefix};
use super::routes_block::{self, Route, RoutesBlock};

verus! {

pub type NetServerCallError = CallError<NetServerError>;

/// Low level net server client implementation.
pub struct Client {
    ipc_client: ipc::Client,
}

impl Client {
    /// The port and version this client talks to.
    pub closed spec fn ipc(&self) -> ipc::Client {
        self.ipc_client
    }

    /// The client of the server port.
    pub fn ipc_client(&self) -> (r: &ipc::Client)
        ensures
            *r == self.ipc(),
    {
        &self.ipc_client
    }

    /// Creates a new net server client.
    pub fn new() -> (r: Self)
        ensures
            r.ipc().spec_port_name() == PORT_NAME@,
            r.ipc().spec_version() == VERSION,
    {
        Self { ipc_client: ipc::Client::new(PORT_NAME, VERSION) }
    }

    /// Create a new network interface.
    pub fn create_interface<F>(&self, name: &str, driver_port_name: &str, pci_address: PciAddress, call: F) -> (r: Result<(), NetServerCallError>)
        where
            F: FnOnce(&ipc::Client, Type, CreateInterfaceQueryParameters, KHandles) -> (KHandles, Result<(CreateInterfaceReply, KHandles), NetServerCallError>),
        requires
            forall|h: KHandles| #![trigger h@] h@ == no_handles().update(CreateInterfaceQueryParameters::HANDLE_NAME_MOBJ as int, HandleView::Memory(name.spec_bytes())).update(CreateInterfaceQueryParameters::HANDLE_DRIVER_PORT_NAME_MOBJ as int, HandleView::Memory(driver_port_name.spec_bytes())) ==> call.requires((&self.ipc(), Type::CreateInterface, CreateInterfaceQueryParameters { name: (ipc::Buffer { offset: 0, len: (name.spec_bytes()).len() as usize }), driver_port_name: (ipc::Buffer { offset: 0, len: (driver_port_name.spec_bytes()).len() as usize }), pci_address: pci_address }, h)),
        ensures
            exists|h: KHandles, out: (KHandles, Result<(CreateInterfaceReply, KHandles), NetServerCallError>)| {
                &&& h@ == no_handles().update(CreateInterfaceQueryParameters::HANDLE_NAME_MOBJ as int, HandleView::Memory(name.spec_bytes())).update(CreateInterfaceQueryParameters::HANDLE_DRIVER_PORT_NAME_MOBJ as int, HandleView::Memory(driver_port_name.spec_bytes()))
                &&& #[trigger] call.ensures((&self.ipc(), Type::CreateInterface, CreateInterfaceQueryParameters { name: (ipc::Buffer { offset: 0, len: (name.spec_bytes()).len() as usize }), driver_port_name: (ipc::Buffer { offset: 0, len: (driver_port_name.spec_bytes()).len() as usize }), pci_address: pci_address }, h), out)
                &&& r == match out.1 {
                    Ok(rep) => Ok::<(), NetServerCallError>(()),
                    Err(e) => Err::<(), NetServerCallError>(e),
                }
            },
    {
        let (m0, b0) = ipc::share_bytes(name.as_bytes());
        let (m1, b1) = ipc::share_bytes(driver_port_name.as_bytes());
        let query = CreateInterfaceQueryParameters { name: b0, driver_port_name: b1, pci_address: pci_address };
        let mut query_handles = KHandles::new();
        query_handles.set(CreateInterfaceQueryParameters::HANDLE_NAME_MOBJ, KHandle::MemoryObject(m0));
        query_handles.set(CreateInterfaceQueryParameters::HANDLE_DRIVER_PORT_NAME_MOBJ, KHandle::MemoryObject(m1));
        let (_lent, res) = call(&self.ipc_client, Type::CreateInterface, query, query_handles);
        match res {
            Ok((reply, _reply_handles)) => Ok(()),
            Err(e) => Err(e),
        }
    }

    /// Destroy a network interface.
    pub fn destroy_interface<F>(&self, name: &str, call: F) -> (r: Result<(), NetServerCallError>)
        where
            F: FnOnce(&ipc::Client, Type, DestroyInterfaceQueryParameters, KHandles) -> (KHandles, Result<(DestroyInterfaceReply, KHandles), NetServerCallError>),
        requires
            forall|h: KHandles| #![trigger h@] h@ == no_handles().update(DestroyInterfaceQueryParameters::HANDLE_NAME_MOBJ as int, HandleView::Memory(name.spec_bytes())) ==> call.requires((&self.ipc(), Type::DestroyInterface, DestroyInterfaceQueryParameters { name: (ipc::Buffer { offset: 0, len: (name.spec_bytes()).len() as usize }) }, h)),
        ensures
            exists|h: KHandles, out: (KHandles, Result<(DestroyInterfaceReply, KHandles), NetServerCallError>)| {
                &&& h@ == no_handles().update(DestroyInterfaceQueryParameters::HANDLE_NAME_MOBJ as int, HandleView::Memory(name.spec_bytes()))
                &&& #[trigger] call.ensures((&self.ipc(), Type::DestroyInterface, DestroyInterfaceQueryParameters { name: (ipc::Buffer { offset: 0, len: (name.spec_bytes()).len() as usize }) }, h), out)
                &&& r == match out.1 {
                    Ok(rep) => Ok::<(), NetServerCallError>(()),
                    Err(e) => Err::<(), NetServerCallError>(e),
                }
            },
    {
        let (m0, b0) = ipc::share_bytes(name.as_bytes());
        let query = DestroyInterfaceQueryParameters { name: b0 };
        let mut query_handles = KHandles::new();
        query_handles.set(DestroyInterfaceQueryParameters::HANDLE_NAME_MOBJ, KHandle::MemoryObject(m0));
        let (_lent, res) = call(&self.ipc_client, Type::DestroyInterface, query, query_handles);
        match res {
            Ok((reply, _reply_handles)) => Ok(()),
            Err(e) => Err(e),
        }
    }

    /// Set inteface configuration
    pub fn set_interface_config<F>(&self, name: &str, config: InterfaceConfig, call: F) -> (r: Result<(), NetServerCallError>)
        where
            F: FnOnce(&ipc::Client, Type, SetInterfaceConfigQueryParameters, KHandles) -> (KHandles, Result<(SetInterfaceConfigReply, KHandles), NetServerCallError>),
        requires
            forall|h: KHandles| #![trigger h@] h@ == no_handles().update(SetInterfaceConfigQueryParameters::HANDLE_NAME_MOBJ as int, HandleView::Memory(name.spec_bytes())) ==> call.requires((&self.ipc(), Type::SetInterfaceConfig, SetInterfaceConfigQueryParameters { name: (ipc::Buffer { offset: 0, len: (name.spec_bytes()).len() as usize }), config: config }, h)),
        ensures
            exists|h: KHandles, out: (KHandles, Result<(SetInterfaceConfigReply, KHandles), NetServerCallError>)| {
                &&& h@ == no_handles().update(SetInterfaceConfigQueryParameters::HANDLE_NAME_MOBJ as int, HandleView::Memory(name.spec_bytes()))
                &&& #[trigger] call.ensures((&self.ipc(), Type::SetInterfaceConfig, SetInterfaceConfigQueryParameters { name: (ipc::Buffer { offset: 0, len: (name.spec_bytes()).len() as usize }), config: config }, h), out)
                &&& r == match out.1 {
                    Ok(rep) => Ok::<(), NetServerCallError>(()),
                    Err(e) => Err::<(), NetServerCallError>(e),
                }
            },
    {
        let (m0, b0) = ipc::share_bytes(name.as_bytes());
        let query = SetInterfaceConfigQueryParameters { name: b0, config: config };
        let mut query_handles = KHandles::new();
        query_handles.set(SetInterfaceConfigQueryParameters::HANDLE_NAME_MOBJ, KHandle::MemoryObject(m0));
        let (_lent, res) = call(&self.ipc_client, Type::SetInterfaceConfig, query, query_handles);
        match res {
            Ok((reply, _reply_handles)) => Ok(()),
            Err(e) => Err(e),
        }
    }

    /// Get interface configuration
    pub fn get_interface_config<F>(&self, name: &str, call: F) -> (r: Result<InterfaceConfig, NetServerCallError>)
        where
            F: FnOnce(&ipc::Client, Type, GetInterfaceConfigQueryParameters, KHandles) -> (KHandles, Result<(GetInterfaceConfigReply, KHandles), NetServerCallError>),
        requires
            forall|h: KHandles| #![trigger h@] h@ == no_handles().update(GetInterfaceConfigQueryParameters::HANDLE_NAME_MOBJ as int, HandleView::Memory(name.spec_bytes())) ==> call.requires((&self.ipc(), Type::GetInterfaceConfig, GetInterfaceConfigQueryParameters { name: (ipc::Buffer { offset: 0, len: (name.spec_bytes()).len() as usize }) }, h)),
        ensures
            exists|h: KHandles, out: (KHandles, Result<(GetInterfaceConfigReply, KHandles), NetServerCallError>)| {
                &&& h@ == no_handles().update(GetInterfaceConfigQueryParameters::HANDLE_NAME_MOBJ as int, HandleView::Memory(name.spec_bytes()))
                &&& #[trigger] call.ensures((&self.ipc(), Type::GetInterfaceConfig, GetInterfaceConfigQueryParameters { name: (ipc::Buffer { offset: 0, len: (name.spec_bytes()).len() as usize }) }, h), out)
                &&& r == match out.1 {
                    Ok(rep) => Ok::<InterfaceConfig, NetServerCallError>(rep.0.config),
                    Err(e) => Err::<InterfaceConfig, NetServerCallError>(e),
                }
            },
    {
        let (m0, b0) = ipc::share_bytes(name.as_bytes());
        let query = GetInterfaceConfigQueryParameters { name: b0 };
        let mut query_handles = KHandles::new();
        query_handles.set(GetInterfaceConfigQueryParameters::HANDLE_NAME_MOBJ, KHandle::MemoryObject(m0));
        let (_lent, res) = call(&self.ipc_client, Type::GetInterfaceConfig, query, query_handles);
        match res {
            Ok((reply, _reply_handles)) => Ok(reply.config),
            Err(e) => Err(e),
        }
    }

    /// Get information on the interface
    pub fn get_interface_info<F>(&self, name: &str, call: F) -> (r: Result<InterfaceInfo, NetServerCallError>)
        where
            F: FnOnce(&ipc::Client, Type, GetInterfaceInfoQueryParameters, KHandles) -> (KHandles, Result<(GetInterfaceInfoReply, KHandles), NetServerCallError>),
        requires
            forall|h: KHandles| #![trigger h@] h@ == no_handles().update(GetInterfaceInfoQueryParameters::HANDLE_NAME_MOBJ as int, HandleView::Memory(name.spec_bytes())) ==> call.requires((&self.ipc(), Type::GetInterfaceInfo, GetInterfaceInfoQueryParameters { name: (ipc::Buffer { offset: 0, len: (name.spec_bytes()).len() as usize }) }, h)),
        ensures
            exists|h: KHandles, out: (KHandles, Result<(GetInterfaceInfoReply, KHandles), NetServerCallError>)| {
                &&& h@ == no_handles().update(GetInterfaceInfoQueryParameters::HANDLE_NAME_MOBJ as int, HandleView::Memory(name.spec_bytes()))
                &&& #[trigger] call.ensures((&self.ipc(), Type::GetInterfaceInfo, GetInterfaceInfoQueryParameters { name: (ipc::Buffer { offset: 0, len: (name.spec_bytes()).len() as usize }) }, h), out)
                &&& r == match out.1 {
                    Ok(rep) => Ok::<InterfaceInfo, NetServerCallError>(rep.0.info),
                    Err(e) => Err::<InterfaceInfo, NetServerCallError>(e),
                }
            },
    {
        let (m0, b0) = ipc::share_bytes(name.as_bytes());
        let query = GetInterfaceInfoQueryParameters { name: b0 };
        let mut query_handles = KHandles::new();
        query_handles.set(GetInterfaceInfoQueryParameters::HANDLE_NAME_MOBJ, KHandle::MemoryObject(m0));
        let (_lent, res) = call(&self.ipc_client, Type::GetInterfaceInfo, query, query_handles);
        match res {
            Ok((reply, _reply_handles)) => Ok(reply.info),
            Err(e) => Err(e),
        }
    }

    /// Create or overwrite (on prefix+iface) a route
    pub fn set_route<F>(&self, prefix: IpPrefix, gateway: Option<IpAddress>, iface: &str, metric: usize, call: F) -> (r: Result<(), NetServerCallError>)
        where
            F: FnOnce(&ipc::Client, Type, SetRouteQueryParameters, KHandles) -> (KHandles, Result<(SetRouteReply, KHandles), NetServerCallError>),
        requires
            forall|h: KHandles| #![trigger h@] h@ == no_handles().update(SetRouteQueryParameters::HANDLE_IFACE_MOBJ as int, HandleView::Memory(iface.spec_bytes())) ==> call.requires((&self.ipc(), Type::SetRoute, SetRouteQueryParameters { prefix: prefix, gateway: gateway, iface: (ipc::Buffer { offset: 0, len: (iface.spec_bytes()).len() as usize }), metric: metric }, h)),
        ensures
            exists|h: KHandles, out: (KHandles, Result<(SetRouteReply, KHandles), NetServerCallError>)| {
                &&& h@ == no_handles().update(SetRouteQueryParameters::HANDLE_IFACE_MOBJ as int, HandleView::Memory(iface.spec_bytes()))
                &&& #[trigger] call.ensures((&self.ipc(), Type::SetRoute, SetRouteQueryParameters { prefix: prefix, gateway: gateway, iface: (ipc::Buffer { offset: 0, len: (iface.spec_bytes()).len() as usize }), metric: metric }, h), out)
                &&& r == match out.1 {
                    Ok(rep) => Ok::<(), NetServerCallError>(()),
                    Err(e) => Err::<(), NetServerCallError>(e),
                }
            },
    {
        let (m0, b0) = ipc::share_bytes(iface.as_bytes());
        let query = SetRouteQueryParameters { prefix: prefix, gateway: gateway, iface: b0, metric: metric };
        let mut query_handles = KHandles::new();
        query_handles.set(SetRouteQueryParameters::HANDLE_IFACE_MOBJ, KHandle::MemoryObject(m0));
        let (_lent, res) = call(&self.ipc_client, Type::SetRoute, query, query_handles);
        match res {
            Ok((reply, _reply_handles)) => Ok(()),
            Err(e) => Err(e),
        }
    }

    /// Remove a route
    pub fn remove_route<F>(&self, prefix: IpPrefix, iface: &str, call: F) -> (r: Result<(), NetServerCallError>)
        where
            F: FnOnce(&ipc::Client, Type, RemoveRouteQueryParameters, KHandles) -> (KHandles, Result<(RemoveRouteReply, KHandles), NetServerCallError>),
        requires
            forall|h: KHandles| #![trigger h@] h@ == no_handles().update(RemoveRouteQueryParameters::HANDLE_IFACE_MOBJ as int, HandleView::Memory(iface.spec_bytes())) ==> call.requires((&self.ipc(), Type::RemoveRoute, RemoveRouteQueryParameters { prefix: prefix, iface: (ipc::Buffer { offset: 0, len: (iface.spec_bytes()).len() as usize }) }, h)),
        ensures
            exists|h: KHandles, out: (KHandles, Result<(RemoveRouteReply, KHandles), NetServerCallError>)| {
                &&& h@ == no_handles().update(RemoveRouteQueryParameters::HANDLE_IFACE_MOBJ as int, HandleView::Memory(iface.spec_bytes()))
                &&& #[trigger] call.ensures((&self.ipc(), Type::RemoveRoute, RemoveRouteQueryParameters { prefix: prefix, iface: (ipc::Buffer { offset: 0, len: (iface.spec_bytes()).len() as usize }) }, h), out)
                &&& r == match out.1 {
                    Ok(rep) => Ok::<(), NetServerCallError>(()),
                    Err(e) => Err::<(), NetServerCallError>(e),
                }
            },
    {
        let (m0, b0) = ipc::share_bytes(iface.as_bytes());
        let query = RemoveRouteQueryParameters { prefix: prefix, iface: b0 };
        let mut query_handles = KHandles::new();
        query_handles.set(RemoveRouteQueryParameters::HANDLE_IFACE_MOBJ, KHandle::MemoryObject(m0));
        let (_lent, res) = call(&self.ipc_client, Type::RemoveRoute, query, query_handles);
        match res {
            Ok((reply, _reply_handles)) => Ok(()),
            Err(e) => Err(e),
        }
    }

    /// call ipc ListRoutes
    ///
    /// The server writes into a buffer lent for the call; while it answers that
    /// the buffer is too small, the call is made again with one twice as large.
    pub fn list_routes<F>(&self, call: F) -> (r: Result<Vec<Route>, NetServerCallError>)
        where
            F: Fn(&ipc::Client, Type, ListRoutesQueryParameters, KHandles) -> (KHandles, Result<(ListRoutesReply, KHandles), NetServerCallError>),
        requires
            forall|size: usize, h: KHandles| #![trigger h@, ipc::zeroed_handle(ListRoutesQueryParameters::HANDLE_BUFFER_MOBJ as int, size)]
                h@ == ipc::zeroed_handle(ListRoutesQueryParameters::HANDLE_BUFFER_MOBJ as int, size) ==> call.requires((&self.ipc(), Type::ListRoutes, ListRoutesQueryParameters { buffer: ipc::Buffer { offset: 0, len: size } }, h)),
            forall|a: (&ipc::Client, Type, ListRoutesQueryParameters, KHandles), out: (KHandles, Result<(ListRoutesReply, KHandles), NetServerCallError>)| #[trigger] call.ensures(a, out) && out.1 is Ok ==> {
                &&& ipc::keeps_lent_size(a.3@, out.0@, ListRoutesQueryParameters::HANDLE_BUFFER_MOBJ as int)
                &&& out.1->Ok_0.0.buffer_used_len <= ipc::slot_bytes(out.0@, ListRoutesQueryParameters::HANDLE_BUFFER_MOBJ as int).len()
                &&& routes_block::list_reply_ok(ipc::used_bytes(out.0@, ListRoutesQueryParameters::HANDLE_BUFFER_MOBJ as int, out.1->Ok_0.0.buffer_used_len))
            },
        ensures
            r is Ok ==> exists|size: usize, h: KHandles, out: (KHandles, Result<(ListRoutesReply, KHandles), NetServerCallError>)| {
                &&& h@ == ipc::zeroed_handle(ListRoutesQueryParameters::HANDLE_BUFFER_MOBJ as int, size)
                &&& #[trigger] call.ensures((&self.ipc(), Type::ListRoutes, ListRoutesQueryParameters { buffer: ipc::Buffer { offset: 0, len: size } }, h), out)
                &&& exists|tried: Seq<usize>| #[trigger] ipc::grow_schedule(tried, 256) && tried.last() == size
                    && forall|i: int| 0 <= i < tried.len() - 1 ==> #[trigger] ipc::answered_with(call, &self.ipc(), Type::ListRoutes, ListRoutesQueryParameters { buffer: ipc::Buffer { offset: 0, len: tried[i] } }, ListRoutesQueryParameters::HANDLE_BUFFER_MOBJ as int, tried[i], CallError::ReplyError(NetServerError::BufferTooSmall))
                &&& out.1 matches Ok(rep) && routes_block::routes_view(r->Ok_0@) == routes_block::routes_of(ipc::used_bytes(out.0@, ListRoutesQueryParameters::HANDLE_BUFFER_MOBJ as int, rep.0.buffer_used_len))
            },
            r matches Err(e) ==> exists|size: usize, h: KHandles, out: (KHandles, Result<(ListRoutesReply, KHandles), NetServerCallError>)| {
                &&& h@ == ipc::zeroed_handle(ListRoutesQueryParameters::HANDLE_BUFFER_MOBJ as int, size)
                &&& #[trigger] call.ensures((&self.ipc(), Type::ListRoutes, ListRoutesQueryParameters { buffer: ipc::Buffer { offset: 0, len: size } }, h), out)
                &&& exists|tried: Seq<usize>| #[trigger] ipc::grow_schedule(tried, 256) && tried.last() == size
                    && forall|i: int| 0 <= i < tried.len() - 1 ==> #[trigger] ipc::answered_with(call, &self.ipc(), Type::ListRoutes, ListRoutesQueryParameters { buffer: ipc::Buffer { offset: 0, len: tried[i] } }, ListRoutesQueryParameters::HANDLE_BUFFER_MOBJ as int, tried[i], CallError::ReplyError(NetServerError::BufferTooSmall))
                &&& out.1 == Err::<(ListRoutesReply, KHandles), NetServerCallError>(e)
                &&& (e == CallError::<NetServerError>::ReplyError(NetServerError::BufferTooSmall) ==> size > usize::MAX / 2)
            },
    {
        let mut size: usize = 256;
        let ghost mut tried: Seq<usize> = seq![size];
        loop
            invariant
                size > 0,
                ipc::grow_schedule(tried, 256),
                tried.last() == size,
                forall|i: int| 0 <= i < tried.len() - 1 ==> #[trigger] ipc::answered_with(call, &self.ipc(), Type::ListRoutes, ListRoutesQueryParameters { buffer: ipc::Buffer { offset: 0, len: tried[i] } }, ListRoutesQueryParameters::HANDLE_BUFFER_MOBJ as int, tried[i], CallError::ReplyError(NetServerError::BufferTooSmall)),
                forall|size: usize, h: KHandles| #![trigger h@, ipc::zeroed_handle(ListRoutesQueryParameters::HANDLE_BUFFER_MOBJ as int, size)]
                    h@ == ipc::zeroed_handle(ListRoutesQueryParameters::HANDLE_BUFFER_MOBJ as int, size) ==> call.requires((&self.ipc(), Type::ListRoutes, ListRoutesQueryParameters { buffer: ipc::Buffer { offset: 0, len: size } }, h)),
                forall|a: (&ipc::Client, Type, ListRoutesQueryParameters, KHandles), out: (KHandles, Result<(ListRoutesReply, KHandles), NetServerCallError>)| #[trigger] call.ensures(a, out) && out.1 is Ok ==> {
                    &&& ipc::keeps_lent_size(a.3@, out.0@, ListRoutesQueryParameters::HANDLE_BUFFER_MOBJ as int)
                    &&& out.1->Ok_0.0.buffer_used_len <= ipc::slot_bytes(out.0@, ListRoutesQueryParameters::HANDLE_BUFFER_MOBJ as int).len()
                    &&& routes_block::list_reply_ok(ipc::used_bytes(out.0@, ListRoutesQueryParameters::HANDLE_BUFFER_MOBJ as int, out.1->Ok_0.0.buffer_used_len))
                },
            decreases usize::MAX - size,
        {
            let (m, b) = ipc::share_zeroed(size);
            let query = ListRoutesQueryParameters { buffer: b };
            let mut query_handles = KHandles::new();
            query_handles.set(ListRoutesQueryParameters::HANDLE_BUFFER_MOBJ, KHandle::MemoryObject(m));
            proof {
                assert(query_handles@ == ipc::zeroed_handle(ListRoutesQueryParameters::HANDLE_BUFFER_MOBJ as int, size));
            }
            let ghost sent = query_handles@;
            let ghost sent_h = query_handles;
            let (mut lent, res) = call(&self.ipc_client, Type::ListRoutes, query, query_handles);
            let ghost outv = (lent, res);
            let ghost q = ListRoutesQueryParameters { buffer: ipc::Buffer { offset: 0, len: size } };
            proof {
                assert(call.ensures((&self.ipc(), Type::ListRoutes, q, sent_h), outv));
            }
            match res {
                Err(CallError::ReplyError(NetServerError::BufferTooSmall)) => match ipc::grown_size(size) {
                    Some(n) => {
                        proof {
                            let ghost prev = tried;
                            tried = tried.push(n);
                            assert(ipc::answered_with(call, &self.ipc(), Type::ListRoutes, ListRoutesQueryParameters { buffer: ipc::Buffer { offset: 0, len: size } }, ListRoutesQueryParameters::HANDLE_BUFFER_MOBJ as int, size, CallError::ReplyError(NetServerError::BufferTooSmall)));
                            assert forall|i: int| 0 <= i < tried.len() - 1 implies #[trigger] ipc::answered_with(call, &self.ipc(), Type::ListRoutes, ListRoutesQueryParameters { buffer: ipc::Buffer { offset: 0, len: tried[i] } }, ListRoutesQueryParameters::HANDLE_BUFFER_MOBJ as int, tried[i], CallError::ReplyError(NetServerError::BufferTooSmall)) by {
                                if i < prev.len() - 1 {
                                    assert(tried[i] == prev[i]);
                                }
                            }
                            assert forall|i: int| 0 < i < tried.len() implies #[trigger] tried[i] == 2 * tried[i - 1] by {
                                if i < prev.len() {
                                    assert(tried[i] == prev[i]);
                                }
                            }
                        }
                        size = n;
                    },
                    None => {
                        return Err(CallError::ReplyError(NetServerError::BufferTooSmall));
                    },
                },
                Err(e) => {
                    return Err(e);
                },
                Ok((reply, _reply_handles)) => {
                    let ghost back = lent@;
                    proof {
                        assert(ipc::keeps_lent_size(sent, back, ListRoutesQueryParameters::HANDLE_BUFFER_MOBJ as int));
                    }
                    let bytes = ipc::take_used(lent.take(ListRoutesQueryParameters::HANDLE_BUFFER_MOBJ), reply.buffer_used_len);
                    match RoutesBlock::read(bytes.as_slice()) {
                        Ok(v) => {
                            return Ok(v);
                        },
                        Err(_) => {
                            proof {
                                assert(false);
                            }
                            return Err(CallError::KernelError(0));
                        },
                    }
                },
            }
        }
    }
}

} // verus!
