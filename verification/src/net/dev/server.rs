//! The state of a network device server: one entry per device, with the
//! ports to notify of its events. Each decision returns the notification to
//! send, if any; sending it is left to the caller.
use vstd::prelude::*;
use crate::ipc::{KHandles, no_handles};
use crate::kobject::PortSender;
use super::messages::{NetDeviceError, LinkStatusChangedNotification, TxFreeNotification, RxArrivedNotification};
use super::descriptors::{RxBufferDescriptor, TxBufferDescriptor};
use crate::ipc::{Handle, PciAddress, converted};
use crate::net::types::{BufferPool, MacAddress};
use std::collections::HashMap;

verus! {

/// Where to send the notifications of one kind of event.
pub struct NotifierData {
    pub correlation: u64,
    pub port: PortSender,
}

/// Notifier for network device events (e.g., link up/down).
pub struct Notifier {
    data: Option<NotifierData>,
}

impl View for Notifier {
    /// The registration: its correlation value and its port.
    type V = Option<(u64, u64)>;

    closed spec fn view(&self) -> Option<(u64, u64)> {
        match self.data {
            Some(d) => Some((d.correlation, d.port.0)),
            None => None,
        }
    }
}

/// A notification to send: the port, the data and the handles.
pub type Outgoing<T> = (PortSender, T, KHandles);

impl Notifier {
    /// Creates a new notifier instance.
    pub fn new() -> (r: Self)
        ensures
            r@ is None,
    {
        Notifier { data: None }
    }

    /// Registers or unregisters a notifier for the specified device.
    ///
    /// A registration does not replace an existing one: that is refused.
    pub fn set(&mut self, dev_name: &str, correlation: u64, port: Option<PortSender>) -> (r: Result<(), NetDeviceError>)
        ensures
            old(self)@ is Some && port is Some ==> r == Err::<(), NetDeviceError>(NetDeviceError::InvalidArgument)
                && final(self)@ == old(self)@,
            !(old(self)@ is Some && port is Some) ==> r == Ok::<(), NetDeviceError>(()) && final(self)@ == match port {
                Some(p) => Some((correlation, p.0)),
                None => None::<(u64, u64)>,
            },
    {
        // forbid to overwrite existing value
        if self.data.is_some() && port.is_some() {
            return Err(NetDeviceError::InvalidArgument);
        }
        match port {
            Some(port) => {
                self.data = Some(NotifierData { correlation, port });
            },
            None => {
                self.data = None;
            },
        }
        Ok(())
    }

    /// The notification of a device event for the registered port, if any:
    /// `creator` builds it from the correlation value of the registration.
    pub fn notify<T, F: FnOnce(u64) -> (T, KHandles)>(&self, dev_name: &str, creator: F) -> (r: Option<Outgoing<T>>)
        requires
            forall|c: u64| #[trigger] creator.requires((c,)),
        ensures
            self@ is None ==> r is None,
            self@ matches Some(reg) ==> r matches Some(out) && out.0.0 == reg.1
                && creator.ensures((reg.0,), (out.1, out.2)),
    {
        match &self.data {
            None => None,
            Some(d) => {
                let (data, handles) = creator(d.correlation);
                Some((d.port, data, handles))
            },
        }
    }
}

/// A network device, as its driver implements it.
pub trait NetDevice {
    type Error: Into<NetDeviceError>;

    /// Create a new network device from a PCI address, over the buffers of
    /// `buffer_pool`; the device calls the callbacks on its events: a change
    /// of its link, transmit buffers it freed, receive buffers it filled.
    fn create<L, T, R>(
        name: &str,
        pci_address: PciAddress,
        buffer_pool: BufferPool,
        link_status_change_callback: L,
        tx_free_callback: T,
        rx_arrived_callback: R,
    ) -> Result<Self, Self::Error>
        where
            Self: Sized,
            L: Fn(bool) + Send + Sync + 'static,
            T: Fn(&[u32]) + Send + Sync + 'static,
            R: Fn(&[RxBufferDescriptor]) + Send + Sync + 'static,
    ;

    /// Destroy the network device and free any associated resources.
    fn destroy(self);

    /// Get the current link status of the network device
    fn get_link_status(&self) -> Result<bool, Self::Error>;

    /// Get the MAC address of the network device
    fn get_mac_address(&self) -> Result<MacAddress, Self::Error>;

    /// Transmit data on the network device.
    /// Returns the number of descriptors that were accepted for transmission.
    fn tx(&self, descriptors: &[TxBufferDescriptor]) -> Result<usize, Self::Error>;

    /// Add receive buffers to the network device.
    /// Returns the number of buffers that were successfully added.
    fn add_rx_buffers(&self, buffer_indexes: &[u32]) -> Result<usize, Self::Error>;
}

/// A device of the server, with the ports to notify of its events.
pub struct DeviceEntry<D> {
    name: String,
    device: Option<D>,
    link_status_notifier: Notifier,
    tx_free_notifier: Notifier,
    rx_arrived_notifier: Notifier,
}

impl<D: NetDevice> DeviceEntry<D> {
    pub closed spec fn spec_name(&self) -> Seq<char> {
        self.name@
    }

    /// The device, until it is destroyed.
    pub closed spec fn spec_device(&self) -> Option<D> {
        self.device
    }

    pub closed spec fn link_status_registration(&self) -> Option<(u64, u64)> {
        self.link_status_notifier@
    }

    pub closed spec fn tx_free_registration(&self) -> Option<(u64, u64)> {
        self.tx_free_notifier@
    }

    pub closed spec fn rx_arrived_registration(&self) -> Option<(u64, u64)> {
        self.rx_arrived_notifier@
    }

    /// Has the driver create the device named `name` at `pci_address` over
    /// `buffer_pool`, handing it the callbacks of its events, and makes the
    /// entry of that device, with no port registered; the driver's error is
    /// passed on.
    pub fn new<L, T, R>(
        name: &str,
        pci_address: PciAddress,
        buffer_pool: BufferPool,
        link_status_change_callback: L,
        tx_free_callback: T,
        rx_arrived_callback: R,
    ) -> (r: Result<Self, NetDeviceError>)
        where
            L: Fn(bool) + Send + Sync + 'static,
            T: Fn(&[u32]) + Send + Sync + 'static,
            R: Fn(&[RxBufferDescriptor]) + Send + Sync + 'static,
        ensures
            exists|out: Result<D, D::Error>| {
                &&& #[trigger] call_ensures(
                    D::create::<L, T, R>,
                    (name, pci_address, buffer_pool, link_status_change_callback, tx_free_callback, rx_arrived_callback),
                    out,
                )
                &&& created_entry(out, name@, r)
            },
    {
        let ghost args = (name, pci_address, buffer_pool, link_status_change_callback, tx_free_callback, rx_arrived_callback);
        let res = D::create(name, pci_address, buffer_pool, link_status_change_callback, tx_free_callback, rx_arrived_callback);
        assert(call_ensures(D::create::<L, T, R>, args, res));
        match res {
            Ok(device) => Ok(DeviceEntry {
                name: name.to_owned(),
                device: Some(device),
                link_status_notifier: Notifier::new(),
                tx_free_notifier: Notifier::new(),
                rx_arrived_notifier: Notifier::new(),
            }),
            Err(e) => Err(e.into()),
        }
    }

    /// Destroys the device associated with this entry and prevents further access to it.
    pub fn destroy(&mut self) -> (r: Result<(), NetDeviceError>)
        ensures
            old(self).spec_device() is None ==> r == Err::<(), NetDeviceError>(NetDeviceError::InvalidArgument) && *final(self) == *old(self),
            old(self).spec_device() is Some ==> r == Ok::<(), NetDeviceError>(()),
            old(self).spec_device() matches Some(d) ==> call_ensures(D::destroy, (d,), ()),
            final(self).spec_device() is None,
            final(self).spec_name() == old(self).spec_name(),
            final(self).link_status_registration() == old(self).link_status_registration(),
            final(self).tx_free_registration() == old(self).tx_free_registration(),
            final(self).rx_arrived_registration() == old(self).rx_arrived_registration(),
    {
        match self.device.take() {
            Some(device) => {
                let ghost d = device;
                device.destroy();
                assert(call_ensures(D::destroy, (d,), ()));
                Ok(())
            },
            None => Err(NetDeviceError::InvalidArgument),
        }
    }

    /// Get access to the device, ensuring it is not accessed after being destroyed.
    pub fn device(&self) -> (r: Result<&D, NetDeviceError>)
        ensures
            self.spec_device() matches Some(d) ==> r == Ok::<&D, NetDeviceError>(&d),
            self.spec_device() is None ==> r == Err::<&D, NetDeviceError>(NetDeviceError::InvalidArgument),
    {
        match &self.device {
            Some(d) => Ok(d),
            None => Err(NetDeviceError::InvalidArgument),
        }
    }

    /// Sets the port for link status change notifications.
    pub fn set_link_status_change_port(&mut self, correlation: u64, port: Option<PortSender>) -> (r: Result<(), NetDeviceError>)
        ensures
            set_outcome(old(self).link_status_registration(), final(self).link_status_registration(), correlation, port, r),
            final(self).tx_free_registration() == old(self).tx_free_registration(),
            final(self).rx_arrived_registration() == old(self).rx_arrived_registration(),
            final(self).spec_device() == old(self).spec_device(),
            final(self).spec_name() == old(self).spec_name(),
    {
        self.link_status_notifier.set(self.name.as_str(), correlation, port)
    }

    /// Sets the port for Tx free notifications.
    pub fn set_tx_free_port(&mut self, correlation: u64, port: Option<PortSender>) -> (r: Result<(), NetDeviceError>)
        ensures
            set_outcome(old(self).tx_free_registration(), final(self).tx_free_registration(), correlation, port, r),
            final(self).link_status_registration() == old(self).link_status_registration(),
            final(self).rx_arrived_registration() == old(self).rx_arrived_registration(),
            final(self).spec_device() == old(self).spec_device(),
            final(self).spec_name() == old(self).spec_name(),
    {
        self.tx_free_notifier.set(self.name.as_str(), correlation, port)
    }

    /// Sets the port for Rx arrived notifications.
    pub fn set_rx_port(&mut self, correlation: u64, port: Option<PortSender>) -> (r: Result<(), NetDeviceError>)
        ensures
            set_outcome(old(self).rx_arrived_registration(), final(self).rx_arrived_registration(), correlation, port, r),
            final(self).link_status_registration() == old(self).link_status_registration(),
            final(self).tx_free_registration() == old(self).tx_free_registration(),
            final(self).spec_device() == old(self).spec_device(),
            final(self).spec_name() == old(self).spec_name(),
    {
        self.rx_arrived_notifier.set(self.name.as_str(), correlation, port)
    }

    /// The notification of a link status change, for the registered port.
    pub fn link_status_change_callback(&self, link_up: bool) -> (r: Option<Outgoing<LinkStatusChangedNotification>>)
        ensures
            self.link_status_registration() is None ==> r is None,
            self.link_status_registration() matches Some(reg) ==> r matches Some(out) && out.0.0 == reg.1
                && out.1.correlation == reg.0 && out.1.link_up == link_up && out.2@ == no_handles(),
    {
        let creator = |correlation: u64| -> (m: (LinkStatusChangedNotification, KHandles))
            ensures
                m.0.correlation == correlation && m.0.link_up == link_up && m.1@ == no_handles(),
        { (LinkStatusChangedNotification { correlation, link_up }, KHandles::new()) };
        self.link_status_notifier.notify(self.name.as_str(), creator)
    }

    /// Callback for when Tx buffers are freed: the notification for the
    /// registered port, the slots past the given buffers holding the invalid index.
    pub fn tx_free_callback(&self, buffer_indexes: &[u32]) -> (r: Option<Outgoing<TxFreeNotification>>)
        requires
            buffer_indexes@.len() <= TxFreeNotification::BUFFER_COUNT,
        ensures
            self.tx_free_registration() is None ==> r is None,
            self.tx_free_registration() matches Some(reg) ==> r matches Some(out) && out.0.0 == reg.1
                && out.1.correlation == reg.0 && padded_indexes(out.1.buffers@, buffer_indexes@) && out.2@ == no_handles(),
    {
        let creator = |correlation: u64| -> (m: (TxFreeNotification, KHandles))
            requires
                buffer_indexes@.len() <= 30,
            ensures
                m.0.correlation == correlation && padded_indexes(m.0.buffers@, buffer_indexes@) && m.1@ == no_handles(),
        {
            let mut buffers = [0xffff_ffffu32; 30];
            let count = buffer_indexes.len();
            let mut i: usize = 0;
            while i < count
                invariant
                    count == buffer_indexes@.len(),
                    count <= 30,
                    i <= count,
                    forall|j: int| 0 <= j < i ==> buffers@[j] == buffer_indexes@[j],
                    forall|j: int| i <= j < 30 ==> buffers@[j] == 0xffff_ffffu32,
                decreases count - i,
            {
                buffers[i] = buffer_indexes[i];
                i = i + 1;
            }
            (TxFreeNotification { correlation, buffers }, KHandles::new())
        };
        self.tx_free_notifier.notify(self.name.as_str(), creator)
    }

    /// Callback for when Rx data arrives: the notification for the registered
    /// port, the slots past the given descriptors holding the descriptor of no buffer.
    pub fn rx_arrived_callback(&self, descriptors: &[RxBufferDescriptor]) -> (r: Option<Outgoing<RxArrivedNotification>>)
        requires
            descriptors@.len() <= RxArrivedNotification::DESCRIPTOR_COUNT,
        ensures
            self.rx_arrived_registration() is None ==> r is None,
            self.rx_arrived_registration() matches Some(reg) ==> r matches Some(out) && out.0.0 == reg.1
                && out.1.correlation == reg.0 && padded_rx(out.1.rx_descriptors@, descriptors@) && out.2@ == no_handles(),
    {
        let creator = |correlation: u64| -> (m: (RxArrivedNotification, KHandles))
            requires
                descriptors@.len() <= 15,
            ensures
                m.0.correlation == correlation && padded_rx(m.0.rx_descriptors@, descriptors@) && m.1@ == no_handles(),
        {
            let empty = RxBufferDescriptor::default();
            let mut rx_descriptors = [empty; 15];
            let count = descriptors.len();
            let mut i: usize = 0;
            while i < count
                invariant
                    count == descriptors@.len(),
                    count <= 15,
                    i <= count,
                    forall|j: int| 0 <= j < i ==> rx_descriptors@[j] == descriptors@[j],
                    forall|j: int| i <= j < 15 ==> rx_descriptors@[j] == empty,
                    empty_rx(empty),
                decreases count - i,
            {
                rx_descriptors[i] = descriptors[i];
                i = i + 1;
            }
            (RxArrivedNotification { correlation, rx_descriptors }, KHandles::new())
        };
        self.rx_arrived_notifier.notify(self.name.as_str(), creator)
    }
}

/// The entry made from what the driver's create gave: the driver's error,
/// converted; or an entry named `name` holding the device, with no port
/// registered.
pub open spec fn created_entry<D: NetDevice>(out: Result<D, D::Error>, name: Seq<char>, r: Result<DeviceEntry<D>, NetDeviceError>) -> bool {
    match out {
        Err(e) => r matches Err(f) && converted(e, f),
        Ok(d) => r matches Ok(entry) && entry.spec_name() == name
            && entry.spec_device() == Some(d)
            && entry.link_status_registration() is None
            && entry.tx_free_registration() is None
            && entry.rx_arrived_registration() is None,
    }
}

/// The outcome of a registration change: a new registration over an existing
/// one is refused and changes nothing; otherwise the registration becomes
/// the given port, or none.
pub open spec fn set_outcome(
    before: Option<(u64, u64)>,
    after: Option<(u64, u64)>,
    correlation: u64,
    port: Option<PortSender>,
    r: Result<(), NetDeviceError>,
) -> bool {
    if before is Some && port is Some {
        r == Err::<(), NetDeviceError>(NetDeviceError::InvalidArgument) && after == before
    } else {
        r == Ok::<(), NetDeviceError>(()) && after == match port {
            Some(p) => Some((correlation, p.0)),
            None => None::<(u64, u64)>,
        }
    }
}

/// `slots` holds `indexes` then the invalid index.
pub open spec fn padded_indexes(slots: Seq<u32>, indexes: Seq<u32>) -> bool {
    &&& forall|j: int| 0 <= j < indexes.len() ==> slots[j] == indexes[j]
    &&& forall|j: int| indexes.len() <= j < slots.len() ==> #[trigger] slots[j] == 0xffff_ffffu32
}

/// The descriptor of no buffer.
pub open spec fn empty_rx(d: RxBufferDescriptor) -> bool {
    &&& d.spec_buffer_index() == 0xffff_ffff
    &&& d.spec_length() == 0
    &&& !d.spec_end_of_packet()
    &&& !d.spec_error()
}

/// `slots` holds `descriptors` then descriptors of no buffer.
pub open spec fn padded_rx(slots: Seq<RxBufferDescriptor>, descriptors: Seq<RxBufferDescriptor>) -> bool {
    &&& forall|j: int| 0 <= j < descriptors.len() ==> slots[j] == descriptors[j]
    &&& forall|j: int| descriptors.len() <= j < slots.len() ==> empty_rx(#[trigger] slots[j])
}


/// The result of a query to the device of `entry`: refused when the device
/// was destroyed, else what the device answered, its error converted.
pub open spec fn device_answer<T, E: Into<NetDeviceError>>(out: Result<T, E>, r: Result<T, NetDeviceError>) -> bool {
    match out {
        Ok(v) => r == Ok::<T, NetDeviceError>(v),
        Err(e) => r matches Err(f) && converted(e, f),
    }
}

/// The devices of a network device server, by handle: the server side of
/// the messages for a given driver.
pub struct NetDeviceServer<D: NetDevice> {
    devices: HashMap<u64, DeviceEntry<D>>,
}

impl<D: NetDevice> NetDeviceServer<D> {
    /// The devices, by the value of their handle.
    pub closed spec fn devices(&self) -> Map<u64, DeviceEntry<D>> {
        self.devices@
    }

    /// A server without devices.
    pub fn new() -> (r: Self)
        ensures
            r.devices() == Map::<u64, DeviceEntry<D>>::empty(),
    {
        NetDeviceServer { devices: HashMap::new() }
    }

    /// Has the driver create the device named `name` at `pci_address` over
    /// `buffer_pool`, with the callbacks of its events, and adds it under the
    /// fresh handle `handle`; the driver's error is passed on.
    pub fn create<L, T, R>(
        &mut self,
        handle: Handle,
        name: &str,
        pci_address: PciAddress,
        buffer_pool: BufferPool,
        link_status_change_callback: L,
        tx_free_callback: T,
        rx_arrived_callback: R,
    ) -> (r: Result<Handle, NetDeviceError>)
        where
            L: Fn(bool) + Send + Sync + 'static,
            T: Fn(&[u32]) + Send + Sync + 'static,
            R: Fn(&[RxBufferDescriptor]) + Send + Sync + 'static,
        requires
            !old(self).devices().contains_key(handle.0),
        ensures
            exists|out: Result<D, D::Error>| {
                &&& #[trigger] call_ensures(
                    D::create::<L, T, R>,
                    (name, pci_address, buffer_pool, link_status_change_callback, tx_free_callback, rx_arrived_callback),
                    out,
                )
                &&& match out {
                    Err(e) => r matches Err(f) && converted(e, f) && final(self).devices() == old(self).devices(),
                    Ok(d) => {
                        &&& r == Ok::<Handle, NetDeviceError>(handle)
                        &&& final(self).devices().dom() == old(self).devices().dom().insert(handle.0)
                        &&& forall|k: u64| k != handle.0 && #[trigger] old(self).devices().contains_key(k) ==> final(self).devices()[k] == old(self).devices()[k]
                        &&& final(self).devices()[handle.0].spec_name() == name@
                        &&& final(self).devices()[handle.0].spec_device() == Some(d)
                        &&& final(self).devices()[handle.0].link_status_registration() is None
                        &&& final(self).devices()[handle.0].tx_free_registration() is None
                        &&& final(self).devices()[handle.0].rx_arrived_registration() is None
                    },
                }
            },
    {
        let res = DeviceEntry::<D>::new(name, pci_address, buffer_pool, link_status_change_callback, tx_free_callback, rx_arrived_callback);
        match res {
            Ok(entry) => {
                self.insert(handle, entry);
                Ok(handle)
            },
            Err(e) => Err(e),
        }
    }

    /// Whether a device has the handle `handle`.
    pub fn has_device(&self, handle: Handle) -> (r: bool)
        ensures
            r == self.devices().contains_key(handle.0),
    {
        broadcast use vstd::std_specs::hash::group_hash_axioms;
        self.devices.contains_key(&handle.0)
    }

    /// Adds the entry of a device created beforehand under the fresh handle
    /// `handle`.
    pub fn insert(&mut self, handle: Handle, entry: DeviceEntry<D>)
        requires
            !old(self).devices().contains_key(handle.0),
        ensures
            final(self).devices() == old(self).devices().insert(handle.0, entry),
    {
        broadcast use vstd::std_specs::hash::group_hash_axioms;
        self.devices.insert(handle.0, entry);
    }

    /// The notification of a link change of the device of `handle`, for the
    /// port registered for it; nothing for an unknown handle.
    pub fn link_status_changed(&self, handle: Handle, link_up: bool) -> (r: Option<Outgoing<LinkStatusChangedNotification>>)
        ensures
            !self.devices().contains_key(handle.0) ==> r is None,
            self.devices().contains_key(handle.0) ==> {
                let reg = self.devices()[handle.0].link_status_registration();
                &&& reg is None ==> r is None
                &&& reg matches Some(g) ==> r matches Some(out) && out.0.0 == g.1
                    && out.1.correlation == g.0 && out.1.link_up == link_up && out.2@ == no_handles()
            },
    {
        match self.entry(handle) {
            Ok(entry) => entry.link_status_change_callback(link_up),
            Err(_) => None,
        }
    }

    /// The notification of transmit buffers that the device of `handle`
    /// freed, for the port registered for it; nothing for an unknown handle.
    pub fn tx_freed(&self, handle: Handle, buffer_indexes: &[u32]) -> (r: Option<Outgoing<TxFreeNotification>>)
        requires
            buffer_indexes@.len() <= TxFreeNotification::BUFFER_COUNT,
        ensures
            !self.devices().contains_key(handle.0) ==> r is None,
            self.devices().contains_key(handle.0) ==> {
                let reg = self.devices()[handle.0].tx_free_registration();
                &&& reg is None ==> r is None
                &&& reg matches Some(g) ==> r matches Some(out) && out.0.0 == g.1
                    && out.1.correlation == g.0 && padded_indexes(out.1.buffers@, buffer_indexes@) && out.2@ == no_handles()
            },
    {
        match self.entry(handle) {
            Ok(entry) => entry.tx_free_callback(buffer_indexes),
            Err(_) => None,
        }
    }

    /// The notification of receive buffers that the device of `handle`
    /// filled, for the port registered for it; nothing for an unknown handle.
    pub fn rx_arrived(&self, handle: Handle, descriptors: &[RxBufferDescriptor]) -> (r: Option<Outgoing<RxArrivedNotification>>)
        requires
            descriptors@.len() <= RxArrivedNotification::DESCRIPTOR_COUNT,
        ensures
            !self.devices().contains_key(handle.0) ==> r is None,
            self.devices().contains_key(handle.0) ==> {
                let reg = self.devices()[handle.0].rx_arrived_registration();
                &&& reg is None ==> r is None
                &&& reg matches Some(g) ==> r matches Some(out) && out.0.0 == g.1
                    && out.1.correlation == g.0 && padded_rx(out.1.rx_descriptors@, descriptors@) && out.2@ == no_handles()
            },
    {
        match self.entry(handle) {
            Ok(entry) => entry.rx_arrived_callback(descriptors),
            Err(_) => None,
        }
    }

    /// Destroys the device of `handle` and forgets it; an unknown handle is
    /// an invalid argument.
    pub fn destroy(&mut self, handle: Handle) -> (r: Result<(), NetDeviceError>)
        ensures
            !old(self).devices().contains_key(handle.0) ==> r == Err::<(), NetDeviceError>(NetDeviceError::InvalidArgument)
                && final(self).devices() == old(self).devices(),
            old(self).devices().contains_key(handle.0) && old(self).devices()[handle.0].spec_device() is Some ==>
                r == Ok::<(), NetDeviceError>(()) && final(self).devices() == old(self).devices().remove(handle.0)
                && call_ensures(D::destroy, (old(self).devices()[handle.0].spec_device().unwrap(),), ()),
            old(self).devices().contains_key(handle.0) && old(self).devices()[handle.0].spec_device() is None ==>
                r == Err::<(), NetDeviceError>(NetDeviceError::InvalidArgument) && final(self).devices() == old(self).devices(),
    {
        broadcast use vstd::std_specs::hash::group_hash_axioms;
        let mut entry = match self.devices.remove(&handle.0) {
            Some(e) => e,
            None => {
                return Err(NetDeviceError::InvalidArgument);
            },
        };
        let ghost before = entry;
        match entry.destroy() {
            Ok(()) => Ok(()),
            Err(e) => {
                proof {
                    assert(entry == before);
                }
                self.devices.insert(handle.0, entry);
                proof {
                    assert(self.devices@ =~= old(self).devices@);
                }
                Err(e)
            },
        }
    }

    /// The entry of `handle`, or an invalid argument.
    fn entry(&self, handle: Handle) -> (r: Result<&DeviceEntry<D>, NetDeviceError>)
        ensures
            self.devices().contains_key(handle.0) ==> r == Ok::<&DeviceEntry<D>, NetDeviceError>(&self.devices()[handle.0]),
            !self.devices().contains_key(handle.0) ==> r == Err::<&DeviceEntry<D>, NetDeviceError>(NetDeviceError::InvalidArgument),
    {
        broadcast use vstd::std_specs::hash::group_hash_axioms;
        match self.devices.get(&handle.0) {
            Some(e) => Ok(e),
            None => Err(NetDeviceError::InvalidArgument),
        }
    }

    /// The link status of the device of `handle`.
    pub fn get_link_status(&self, handle: Handle) -> (r: Result<bool, NetDeviceError>)
        ensures
            !self.devices().contains_key(handle.0) || self.devices()[handle.0].spec_device() is None ==>
                r == Err::<bool, NetDeviceError>(NetDeviceError::InvalidArgument),
            self.devices().contains_key(handle.0) && self.devices()[handle.0].spec_device() is Some ==>
                exists|out: Result<bool, D::Error>| #[trigger] call_ensures(D::get_link_status, (&self.devices()[handle.0].spec_device().unwrap(),), out) && device_answer(out, r),
    {
        let device = self.entry(handle)?.device()?;
        let res = device.get_link_status();
        assert(call_ensures(D::get_link_status, (device,), res));
        match res {
            Ok(v) => Ok(v),
            Err(e) => Err(e.into()),
        }
    }

    /// The MAC address of the device of `handle`.
    pub fn get_mac_address(&self, handle: Handle) -> (r: Result<MacAddress, NetDeviceError>)
        ensures
            !self.devices().contains_key(handle.0) || self.devices()[handle.0].spec_device() is None ==>
                r == Err::<MacAddress, NetDeviceError>(NetDeviceError::InvalidArgument),
            self.devices().contains_key(handle.0) && self.devices()[handle.0].spec_device() is Some ==>
                exists|out: Result<MacAddress, D::Error>| #[trigger] call_ensures(D::get_mac_address, (&self.devices()[handle.0].spec_device().unwrap(),), out) && device_answer(out, r),
    {
        let device = self.entry(handle)?.device()?;
        let res = device.get_mac_address();
        assert(call_ensures(D::get_mac_address, (device,), res));
        match res {
            Ok(v) => Ok(v),
            Err(e) => Err(e.into()),
        }
    }

    /// Hands the descriptors to the device of `handle` for transmission: the
    /// number it accepted.
    pub fn tx(&self, handle: Handle, descriptors: &[TxBufferDescriptor]) -> (r: Result<usize, NetDeviceError>)
        ensures
            !self.devices().contains_key(handle.0) || self.devices()[handle.0].spec_device() is None ==>
                r == Err::<usize, NetDeviceError>(NetDeviceError::InvalidArgument),
            self.devices().contains_key(handle.0) && self.devices()[handle.0].spec_device() is Some ==>
                exists|out: Result<usize, D::Error>| #[trigger] call_ensures(D::tx, (&self.devices()[handle.0].spec_device().unwrap(), descriptors), out) && device_answer(out, r),
    {
        let device = self.entry(handle)?.device()?;
        let res = device.tx(descriptors);
        assert(call_ensures(D::tx, (device, descriptors), res));
        match res {
            Ok(v) => Ok(v),
            Err(e) => Err(e.into()),
        }
    }

    /// Hands receive buffers to the device of `handle`: the number it added.
    pub fn add_rx_buffers(&self, handle: Handle, buffer_indexes: &[u32]) -> (r: Result<usize, NetDeviceError>)
        ensures
            !self.devices().contains_key(handle.0) || self.devices()[handle.0].spec_device() is None ==>
                r == Err::<usize, NetDeviceError>(NetDeviceError::InvalidArgument),
            self.devices().contains_key(handle.0) && self.devices()[handle.0].spec_device() is Some ==>
                exists|out: Result<usize, D::Error>| #[trigger] call_ensures(D::add_rx_buffers, (&self.devices()[handle.0].spec_device().unwrap(), buffer_indexes), out) && device_answer(out, r),
    {
        let device = self.entry(handle)?.device()?;
        let res = device.add_rx_buffers(buffer_indexes);
        assert(call_ensures(D::add_rx_buffers, (device, buffer_indexes), res));
        match res {
            Ok(v) => Ok(v),
            Err(e) => Err(e.into()),
        }
    }

    /// Registers or unregisters the port told of the link changes of the device of `handle`; an unknown handle is an invalid argument.
    pub fn set_link_status_change_port(&mut self, handle: Handle, port: Option<PortSender>, correlation: u64) -> (r: Result<(), NetDeviceError>)
        ensures
            !old(self).devices().contains_key(handle.0) ==> r == Err::<(), NetDeviceError>(NetDeviceError::InvalidArgument)
                && final(self).devices() == old(self).devices(),
            old(self).devices().contains_key(handle.0) ==> {
                let before = old(self).devices()[handle.0];
                let after = final(self).devices()[handle.0];
                &&& final(self).devices().dom() == old(self).devices().dom()
                &&& forall|k: u64| k != handle.0 && #[trigger] old(self).devices().contains_key(k) ==> final(self).devices()[k] == old(self).devices()[k]
                &&& set_outcome(before.link_status_registration(), after.link_status_registration(), correlation, port, r)
                &&& after.spec_name() == before.spec_name()
                &&& after.spec_device() == before.spec_device()
            },
    {
        broadcast use vstd::std_specs::hash::group_hash_axioms;
        let mut entry = match self.devices.remove(&handle.0) {
            Some(e) => e,
            None => {
                return Err(NetDeviceError::InvalidArgument);
            },
        };
        let r = entry.set_link_status_change_port(correlation, port);
        self.devices.insert(handle.0, entry);
        proof {
            assert(self.devices@.dom() =~= old(self).devices@.dom());
        }
        r
    }

    /// Registers or unregisters the port told of the buffers the device of `handle` freed; an unknown handle is an invalid argument.
    pub fn set_tx_free_port(&mut self, handle: Handle, port: Option<PortSender>, correlation: u64) -> (r: Result<(), NetDeviceError>)
        ensures
            !old(self).devices().contains_key(handle.0) ==> r == Err::<(), NetDeviceError>(NetDeviceError::InvalidArgument)
                && final(self).devices() == old(self).devices(),
            old(self).devices().contains_key(handle.0) ==> {
                let before = old(self).devices()[handle.0];
                let after = final(self).devices()[handle.0];
                &&& final(self).devices().dom() == old(self).devices().dom()
                &&& forall|k: u64| k != handle.0 && #[trigger] old(self).devices().contains_key(k) ==> final(self).devices()[k] == old(self).devices()[k]
                &&& set_outcome(before.tx_free_registration(), after.tx_free_registration(), correlation, port, r)
                &&& after.spec_name() == before.spec_name()
                &&& after.spec_device() == before.spec_device()
            },
    {
        broadcast use vstd::std_specs::hash::group_hash_axioms;
        let mut entry = match self.devices.remove(&handle.0) {
            Some(e) => e,
            None => {
                return Err(NetDeviceError::InvalidArgument);
            },
        };
        let r = entry.set_tx_free_port(correlation, port);
        self.devices.insert(handle.0, entry);
        proof {
            assert(self.devices@.dom() =~= old(self).devices@.dom());
        }
        r
    }

    /// Registers or unregisters the port told of the data the device of `handle` received; an unknown handle is an invalid argument.
    pub fn set_rx_port(&mut self, handle: Handle, port: Option<PortSender>, correlation: u64) -> (r: Result<(), NetDeviceError>)
        ensures
            !old(self).devices().contains_key(handle.0) ==> r == Err::<(), NetDeviceError>(NetDeviceError::InvalidArgument)
                && final(self).devices() == old(self).devices(),
            old(self).devices().contains_key(handle.0) ==> {
                let before = old(self).devices()[handle.0];
                let after = final(self).devices()[handle.0];
                &&& final(self).devices().dom() == old(self).devices().dom()
                &&& forall|k: u64| k != handle.0 && #[trigger] old(self).devices().contains_key(k) ==> final(self).devices()[k] == old(self).devices()[k]
                &&& set_outcome(before.rx_arrived_registration(), after.rx_arrived_registration(), correlation, port, r)
                &&& after.spec_name() == before.spec_name()
                &&& after.spec_device() == before.spec_device()
            },
    {
        broadcast use vstd::std_specs::hash::group_hash_axioms;
        let mut entry = match self.devices.remove(&handle.0) {
            Some(e) => e,
            None => {
                return Err(NetDeviceError::InvalidArgument);
            },
        };
        let r = entry.set_rx_port(correlation, port);
        self.devices.insert(handle.0, entry);
        proof {
            assert(self.devices@.dom() =~= old(self).devices@.dom());
        }
        r
    }
}

} // verus!
