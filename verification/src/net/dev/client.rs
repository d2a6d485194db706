//! Low level client of a network device server.
use vstd::prelude::*;
use vstd::string::StringSliceAdditionalSpecFns;
use crate::ipc::{self, CallError, KHandle, KHandles, HandleView, Handle, no_handles};
use crate::kobject::{MemoryObject, PortSender};
use super::messages::{
    Type, NetDeviceError, CreateQueryParameters, CreateReply, DestroyQueryParameters, DestroyReply,
    GetLinkStatusQueryParameters, GetLinkStatusReply, SetLinkStatusChangePortQueryParameters,
    SetLinkStatusChangePortReply, GetMacAddressQueryParameters, GetMacAddressReply, TxQueryParameters, TxReply,
    SetTxFreePortQueryParameters, SetTxFreePortReply, AddRxBuffersQueryParameters, AddRxBuffersReply,
    SetRxPortQueryParameters, SetRxPortReply, NetBufferPoolConfig, VERSION,
};
use super::descriptors::TxBufferDescriptor;
use crate::ipc::PciAddress;
use crate::net::types::{BufferPool, MacAddress};

verus! {

pub type NetDeviceServerCallError = CallError<NetDeviceError>;

/// Low level net device client implementation.
pub struct Client {
    port_name: String,
    ipc_client: ipc::Client,
}

impl Client {
    /// The port and version this client talks to.
    pub closed spec fn ipc(&self) -> ipc::Client {
        self.ipc_client
    }

    /// The name of the server port.
    pub closed spec fn spec_port_name(&self) -> Seq<char> {
        self.port_name@
    }

    /// Creates a new net device client.
    pub fn new(port: &str) -> (r: Self)
        ensures
            r.spec_port_name() == port@,
            r.ipc().spec_port_name() == port@,
            r.ipc().spec_version() == VERSION,
    {
        Self { port_name: port.to_owned(), ipc_client: ipc::Client::new(port, VERSION) }
    }

    /// Get the name of the server port this client is connected to.
    pub fn port_name(&self) -> (r: &str)
        ensures
            r@ == self.spec_port_name(),
    {
        self.port_name.as_str()
    }

    /// Transmit data on a network device.
    /// Returns the number of descriptors that were accepted for transmission.
    ///
    /// Note: the IPC message is designed to take up to 13 descriptors at a time, so if
    /// more than 13 descriptors are passed, only the first 13 will be transmitted; the
    /// slots past the transmitted descriptors hold the descriptor of no buffer.
    pub fn tx<F>(&self, handle: Handle, descriptors: &[TxBufferDescriptor], call: F) -> (r: Result<usize, NetDeviceServerCallError>)
        where
            F: FnOnce(&ipc::Client, Type, TxQueryParameters, KHandles) -> (KHandles, Result<(TxReply, KHandles), NetDeviceServerCallError>),
        requires
            forall|h: KHandles, q: TxQueryParameters| #![trigger h@, tx_query(q, handle, sent_prefix(descriptors@, 13))]
                h@ == no_handles() && tx_query(q, handle, sent_prefix(descriptors@, 13)) ==> call.requires((&self.ipc(), Type::Tx, q, h)),
        ensures
            exists|h: KHandles, q: TxQueryParameters, out: (KHandles, Result<(TxReply, KHandles), NetDeviceServerCallError>)| {
                &&& h@ == no_handles()
                &&& tx_query(q, handle, sent_prefix(descriptors@, 13))
                &&& call.ensures((&self.ipc(), Type::Tx, q, h), out)
                &&& r == match out.1 {
                    Ok(rep) => Ok::<usize, NetDeviceServerCallError>(rep.0.sent_buffers),
                    Err(e) => Err::<usize, NetDeviceServerCallError>(e),
                }
            },
    {
        let empty = TxBufferDescriptor::default();
        let mut tx_descriptors = [empty; 13];
        let count: usize = if descriptors.len() <= 13 { descriptors.len() } else { 13 };
        let mut i: usize = 0;
        while i < count
            invariant
                count == sent_prefix(descriptors@, 13).len(),
                count <= descriptors@.len(),
                count <= 13,
                i <= count,
                forall|j: int| 0 <= j < i ==> tx_descriptors@[j] == descriptors@[j],
                forall|j: int| i <= j < 13 ==> tx_descriptors@[j] == empty,
                empty_tx(empty),
            decreases count - i,
        {
            tx_descriptors[i] = descriptors[i];
            i = i + 1;
        }
        let query = TxQueryParameters { handle, tx_descriptors };
        let query_handles = KHandles::new();
        proof {
            assert(tx_query(query, handle, sent_prefix(descriptors@, 13)));
        }
        let (_lent, res) = call(&self.ipc_client, Type::Tx, query, query_handles);
        match res {
            Ok((reply, _reply_handles)) => Ok(reply.sent_buffers),
            Err(e) => Err(e),
        }
    }

    /// Add receive buffers to a network device.
    /// Returns the number of buffers that were successfully added.
    ///
    /// Note: the IPC message is designed to take up to 26 buffers at a time, so if more
    /// than 26 buffers are passed, only the first 26 will be added; the slots past the
    /// added buffers hold the invalid index.
    pub fn add_rx_buffers<F>(&self, handle: Handle, buffer_indexes: &[u32], call: F) -> (r: Result<usize, NetDeviceServerCallError>)
        where
            F: FnOnce(&ipc::Client, Type, AddRxBuffersQueryParameters, KHandles) -> (KHandles, Result<(AddRxBuffersReply, KHandles), NetDeviceServerCallError>),
        requires
            forall|h: KHandles, q: AddRxBuffersQueryParameters| #![trigger h@, rx_buffers_query(q, handle, sent_prefix(buffer_indexes@, 26))]
                h@ == no_handles() && rx_buffers_query(q, handle, sent_prefix(buffer_indexes@, 26)) ==> call.requires((&self.ipc(), Type::AddRxBuffers, q, h)),
        ensures
            exists|h: KHandles, q: AddRxBuffersQueryParameters, out: (KHandles, Result<(AddRxBuffersReply, KHandles), NetDeviceServerCallError>)| {
                &&& h@ == no_handles()
                &&& rx_buffers_query(q, handle, sent_prefix(buffer_indexes@, 26))
                &&& call.ensures((&self.ipc(), Type::AddRxBuffers, q, h), out)
                &&& r == match out.1 {
                    Ok(rep) => Ok::<usize, NetDeviceServerCallError>(rep.0.added_buffers),
                    Err(e) => Err::<usize, NetDeviceServerCallError>(e),
                }
            },
    {
        let mut buffers = [0xffff_ffffu32; 26];
        let count: usize = if buffer_indexes.len() <= 26 { buffer_indexes.len() } else { 26 };
        let mut i: usize = 0;
        while i < count
            invariant
                count == sent_prefix(buffer_indexes@, 26).len(),
                count <= buffer_indexes@.len(),
                count <= 26,
                i <= count,
                forall|j: int| 0 <= j < i ==> buffers@[j] == buffer_indexes@[j],
                forall|j: int| i <= j < 26 ==> buffers@[j] == 0xffff_ffffu32,
            decreases count - i,
        {
            buffers[i] = buffer_indexes[i];
            i = i + 1;
        }
        let query = AddRxBuffersQueryParameters { handle, buffers };
        let query_handles = KHandles::new();
        proof {
            assert(rx_buffers_query(query, handle, sent_prefix(buffer_indexes@, 26)));
        }
        let (_lent, res) = call(&self.ipc_client, Type::AddRxBuffers, query, query_handles);
        match res {
            Ok((reply, _reply_handles)) => Ok(reply.added_buffers),
            Err(e) => Err(e),
        }
    }

    /// Create a new network device.
    pub fn create<F>(&self, name: &str, pci_address: PciAddress, buffer_pool: &BufferPool, call: F) -> (r: Result<Handle, NetDeviceServerCallError>)
        where
            F: FnOnce(&ipc::Client, Type, CreateQueryParameters, KHandles) -> (KHandles, Result<(CreateReply, KHandles), NetDeviceServerCallError>),
        requires
            forall|h: KHandles| #![trigger h@] h@ == no_handles().update(CreateQueryParameters::HANDLE_NAME_MOBJ as int, HandleView::Memory(name.spec_bytes())).update(CreateQueryParameters::HANDLE_NET_BUFFER_POOL_MOBJ as int, HandleView::Memory(buffer_pool.mobj@)) ==> call.requires((&self.ipc(), Type::Create, CreateQueryParameters { name: (ipc::Buffer { offset: 0, len: (name.spec_bytes()).len() as usize }), pci_address: pci_address, net_buffer_pool: NetBufferPoolConfig { buffer_count: buffer_pool.buffer_count, buffer_size: buffer_pool.buffer_size } }, h)),
        ensures
            exists|h: KHandles, out: (KHandles, Result<(CreateReply, KHandles), NetDeviceServerCallError>)| {
                &&& h@ == no_handles().update(CreateQueryParameters::HANDLE_NAME_MOBJ as int, HandleView::Memory(name.spec_bytes())).update(CreateQueryParameters::HANDLE_NET_BUFFER_POOL_MOBJ as int, HandleView::Memory(buffer_pool.mobj@))
                &&& #[trigger] call.ensures((&self.ipc(), Type::Create, CreateQueryParameters { name: (ipc::Buffer { offset: 0, len: (name.spec_bytes()).len() as usize }), pci_address: pci_address, net_buffer_pool: NetBufferPoolConfig { buffer_count: buffer_pool.buffer_count, buffer_size: buffer_pool.buffer_size } }, h), out)
                &&& r == match out.1 {
                    Ok(rep) => Ok::<Handle, NetDeviceServerCallError>(rep.0.handle),
                    Err(e) => Err::<Handle, NetDeviceServerCallError>(e),
                }
            },
    {
        let (m0, b0) = ipc::share_bytes(name.as_bytes());
        let o0 = buffer_pool.mobj.clone_object();
        let query = CreateQueryParameters { name: b0, pci_address: pci_address, net_buffer_pool: NetBufferPoolConfig { buffer_count: buffer_pool.buffer_count, buffer_size: buffer_pool.buffer_size } };
        let mut query_handles = KHandles::new();
        query_handles.set(CreateQueryParameters::HANDLE_NAME_MOBJ, KHandle::MemoryObject(m0));
        query_handles.set(CreateQueryParameters::HANDLE_NET_BUFFER_POOL_MOBJ, KHandle::MemoryObject(o0));
        let (_lent, res) = call(&self.ipc_client, Type::Create, query, query_handles);
        match res {
            Ok((reply, _reply_handles)) => Ok(reply.handle),
            Err(e) => Err(e),
        }
    }

    /// Destroy a network device.
    pub fn destroy<F>(&self, handle: Handle, call: F) -> (r: Result<(), NetDeviceServerCallError>)
        where
            F: FnOnce(&ipc::Client, Type, DestroyQueryParameters, KHandles) -> (KHandles, Result<(DestroyReply, KHandles), NetDeviceServerCallError>),
        requires
            forall|h: KHandles| #![trigger h@] h@ == no_handles() ==> call.requires((&self.ipc(), Type::Destroy, DestroyQueryParameters { handle: handle }, h)),
        ensures
            exists|h: KHandles, out: (KHandles, Result<(DestroyReply, KHandles), NetDeviceServerCallError>)| {
                &&& h@ == no_handles()
                &&& #[trigger] call.ensures((&self.ipc(), Type::Destroy, DestroyQueryParameters { handle: handle }, h), out)
                &&& r == match out.1 {
                    Ok(rep) => Ok::<(), NetDeviceServerCallError>(()),
                    Err(e) => Err::<(), NetDeviceServerCallError>(e),
                }
            },
    {
        let query = DestroyQueryParameters { handle: handle };
        let mut query_handles = KHandles::new();
        let (_lent, res) = call(&self.ipc_client, Type::Destroy, query, query_handles);
        match res {
            Ok((reply, _reply_handles)) => Ok(()),
            Err(e) => Err(e),
        }
    }

    /// Get the link status of a network device.
    pub fn get_link_status<F>(&self, handle: Handle, call: F) -> (r: Result<bool, NetDeviceServerCallError>)
        where
            F: FnOnce(&ipc::Client, Type, GetLinkStatusQueryParameters, KHandles) -> (KHandles, Result<(GetLinkStatusReply, KHandles), NetDeviceServerCallError>),
        requires
            forall|h: KHandles| #![trigger h@] h@ == no_handles() ==> call.requires((&self.ipc(), Type::GetLinkStatus, GetLinkStatusQueryParameters { handle: handle }, h)),
        ensures
            exists|h: KHandles, out: (KHandles, Result<(GetLinkStatusReply, KHandles), NetDeviceServerCallError>)| {
                &&& h@ == no_handles()
                &&& #[trigger] call.ensures((&self.ipc(), Type::GetLinkStatus, GetLinkStatusQueryParameters { handle: handle }, h), out)
                &&& r == match out.1 {
                    Ok(rep) => Ok::<bool, NetDeviceServerCallError>(rep.0.link_up),
                    Err(e) => Err::<bool, NetDeviceServerCallError>(e),
                }
            },
    {
        let query = GetLinkStatusQueryParameters { handle: handle };
        let mut query_handles = KHandles::new();
        let (_lent, res) = call(&self.ipc_client, Type::GetLinkStatus, query, query_handles);
        match res {
            Ok((reply, _reply_handles)) => Ok(reply.link_up),
            Err(e) => Err(e),
        }
    }

    /// Set the port for link status change notifications.
    /// Pass Some(port) to register for notifications, or None to unregister.
    pub fn set_link_status_change_port<F>(&self, handle: Handle, port: Option<PortSender>, correlation: u64, call: F) -> (r: Result<(), NetDeviceServerCallError>)
        where
            F: FnOnce(&ipc::Client, Type, SetLinkStatusChangePortQueryParameters, KHandles) -> (KHandles, Result<(SetLinkStatusChangePortReply, KHandles), NetDeviceServerCallError>),
        requires
            forall|h: KHandles| #![trigger h@] h@ == (match port { Some(p) => no_handles().update(SetLinkStatusChangePortQueryParameters::HANDLE_PORT as int, HandleView::Port(p.0)), None => no_handles() }) ==> call.requires((&self.ipc(), Type::SetLinkStatusChangePort, SetLinkStatusChangePortQueryParameters { handle: handle, correlation: correlation }, h)),
        ensures
            exists|h: KHandles, out: (KHandles, Result<(SetLinkStatusChangePortReply, KHandles), NetDeviceServerCallError>)| {
                &&& h@ == (match port { Some(p) => no_handles().update(SetLinkStatusChangePortQueryParameters::HANDLE_PORT as int, HandleView::Port(p.0)), None => no_handles() })
                &&& #[trigger] call.ensures((&self.ipc(), Type::SetLinkStatusChangePort, SetLinkStatusChangePortQueryParameters { handle: handle, correlation: correlation }, h), out)
                &&& r == match out.1 {
                    Ok(rep) => Ok::<(), NetDeviceServerCallError>(()),
                    Err(e) => Err::<(), NetDeviceServerCallError>(e),
                }
            },
    {
        let query = SetLinkStatusChangePortQueryParameters { handle: handle, correlation: correlation };
        let mut query_handles = KHandles::new();
        if let Some(p) = port {
            query_handles.set(SetLinkStatusChangePortQueryParameters::HANDLE_PORT, KHandle::Port(p));
        }
        let (_lent, res) = call(&self.ipc_client, Type::SetLinkStatusChangePort, query, query_handles);
        match res {
            Ok((reply, _reply_handles)) => Ok(()),
            Err(e) => Err(e),
        }
    }

    /// Get the MAC address of a network device.
    pub fn get_mac_address<F>(&self, handle: Handle, call: F) -> (r: Result<MacAddress, NetDeviceServerCallError>)
        where
            F: FnOnce(&ipc::Client, Type, GetMacAddressQueryParameters, KHandles) -> (KHandles, Result<(GetMacAddressReply, KHandles), NetDeviceServerCallError>),
        requires
            forall|h: KHandles| #![trigger h@] h@ == no_handles() ==> call.requires((&self.ipc(), Type::GetMacAddress, GetMacAddressQueryParameters { handle: handle }, h)),
        ensures
            exists|h: KHandles, out: (KHandles, Result<(GetMacAddressReply, KHandles), NetDeviceServerCallError>)| {
                &&& h@ == no_handles()
                &&& #[trigger] call.ensures((&self.ipc(), Type::GetMacAddress, GetMacAddressQueryParameters { handle: handle }, h), out)
                &&& r == match out.1 {
                    Ok(rep) => Ok::<MacAddress, NetDeviceServerCallError>(rep.0.mac_address),
                    Err(e) => Err::<MacAddress, NetDeviceServerCallError>(e),
                }
            },
    {
        let query = GetMacAddressQueryParameters { handle: handle };
        let mut query_handles = KHandles::new();
        let (_lent, res) = call(&self.ipc_client, Type::GetMacAddress, query, query_handles);
        match res {
            Ok((reply, _reply_handles)) => Ok(reply.mac_address),
            Err(e) => Err(e),
        }
    }

    /// Set the port for Tx free notifications.
    /// Pass Some(port) to register for notifications, or None to unregister.
    pub fn set_tx_free_port<F>(&self, handle: Handle, port: Option<PortSender>, correlation: u64, call: F) -> (r: Result<(), NetDeviceServerCallError>)
        where
            F: FnOnce(&ipc::Client, Type, SetTxFreePortQueryParameters, KHandles) -> (KHandles, Result<(SetTxFreePortReply, KHandles), NetDeviceServerCallError>),
        requires
            forall|h: KHandles| #![trigger h@] h@ == (match port { Some(p) => no_handles().update(SetTxFreePortQueryParameters::HANDLE_PORT as int, HandleView::Port(p.0)), None => no_handles() }) ==> call.requires((&self.ipc(), Type::SetTxFreePort, SetTxFreePortQueryParameters { handle: handle, correlation: correlation }, h)),
        ensures
            exists|h: KHandles, out: (KHandles, Result<(SetTxFreePortReply, KHandles), NetDeviceServerCallError>)| {
                &&& h@ == (match port { Some(p) => no_handles().update(SetTxFreePortQueryParameters::HANDLE_PORT as int, HandleView::Port(p.0)), None => no_handles() })
                &&& #[trigger] call.ensures((&self.ipc(), Type::SetTxFreePort, SetTxFreePortQueryParameters { handle: handle, correlation: correlation }, h), out)
                &&& r == match out.1 {
                    Ok(rep) => Ok::<(), NetDeviceServerCallError>(()),
                    Err(e) => Err::<(), NetDeviceServerCallError>(e),
                }
            },
    {
        let query = SetTxFreePortQueryParameters { handle: handle, correlation: correlation };
        let mut query_handles = KHandles::new();
        if let Some(p) = port {
            query_handles.set(SetTxFreePortQueryParameters::HANDLE_PORT, KHandle::Port(p));
        }
        let (_lent, res) = call(&self.ipc_client, Type::SetTxFreePort, query, query_handles);
        match res {
            Ok((reply, _reply_handles)) => Ok(()),
            Err(e) => Err(e),
        }
    }

    /// Set the port for Rx arrived notifications.
    /// Pass Some(port) to register for notifications, or None to unregister.
    pub fn set_rx_port<F>(&self, handle: Handle, port: Option<PortSender>, correlation: u64, call: F) -> (r: Result<(), NetDeviceServerCallError>)
        where
            F: FnOnce(&ipc::Client, Type, SetRxPortQueryParameters, KHandles) -> (KHandles, Result<(SetRxPortReply, KHandles), NetDeviceServerCallError>),
        requires
            forall|h: KHandles| #![trigger h@] h@ == (match port { Some(p) => no_handles().update(SetRxPortQueryParameters::HANDLE_PORT as int, HandleView::Port(p.0)), None => no_handles() }) ==> call.requires((&self.ipc(), Type::SetRxPort, SetRxPortQueryParameters { handle: handle, correlation: correlation }, h)),
        ensures
            exists|h: KHandles, out: (KHandles, Result<(SetRxPortReply, KHandles), NetDeviceServerCallError>)| {
                &&& h@ == (match port { Some(p) => no_handles().update(SetRxPortQueryParameters::HANDLE_PORT as int, HandleView::Port(p.0)), None => no_handles() })
                &&& #[trigger] call.ensures((&self.ipc(), Type::SetRxPort, SetRxPortQueryParameters { handle: handle, correlation: correlation }, h), out)
                &&& r == match out.1 {
                    Ok(rep) => Ok::<(), NetDeviceServerCallError>(()),
                    Err(e) => Err::<(), NetDeviceServerCallError>(e),
                }
            },
    {
        let query = SetRxPortQueryParameters { handle: handle, correlation: correlation };
        let mut query_handles = KHandles::new();
        if let Some(p) = port {
            query_handles.set(SetRxPortQueryParameters::HANDLE_PORT, KHandle::Port(p));
        }
        let (_lent, res) = call(&self.ipc_client, Type::SetRxPort, query, query_handles);
        match res {
            Ok((reply, _reply_handles)) => Ok(()),
            Err(e) => Err(e),
        }
    }

}

/// The descriptor of no buffer.
pub open spec fn empty_tx(d: TxBufferDescriptor) -> bool {
    &&& d.spec_buffer_index() == 0xffff_ffff
    &&& d.spec_offset() == 0
    &&& d.spec_length() == 0
    &&& !d.spec_end_of_packet()
}

/// The items of `s` that one message carries: the first `max` of them, or all
/// of them where there are fewer.
pub open spec fn sent_prefix<T>(s: Seq<T>, max: int) -> Seq<T> {
    if s.len() <= max { s } else { s.take(max) }
}

/// The Tx query for `handle` carries `descriptors` then descriptors of no buffer.
pub open spec fn tx_query(q: TxQueryParameters, handle: Handle, descriptors: Seq<TxBufferDescriptor>) -> bool {
    &&& q.handle == handle
    &&& forall|j: int| 0 <= j < descriptors.len() ==> q.tx_descriptors@[j] == descriptors[j]
    &&& forall|j: int| descriptors.len() <= j < 13 ==> empty_tx(#[trigger] q.tx_descriptors@[j])
}

/// The AddRxBuffers query for `handle` carries `indexes` then the invalid index.
pub open spec fn rx_buffers_query(q: AddRxBuffersQueryParameters, handle: Handle, indexes: Seq<u32>) -> bool {
    &&& q.handle == handle
    &&& forall|j: int| 0 <= j < indexes.len() ==> q.buffers@[j] == indexes[j]
    &&& forall|j: int| indexes.len() <= j < 26 ==> #[trigger] q.buffers@[j] == 0xffff_ffffu32
}

} // verus!
