use std::cell::RefCell;
use std::collections::BTreeMap;

use libruntime::ipc::{self, Buffer, CallError, Handle, KHandle, KHandles, PciAddress};
use libruntime::kobject::{MemoryObject, PortSender};
use libruntime::net::dev::descriptors::{RxBufferDescriptor, TxBufferDescriptor};
use libruntime::net::dev::ipc_server::{NetDeviceServer, Server as NetDeviceIpcServer};
use libruntime::net::dev::messages::{CreateQueryParameters, NetBufferPoolConfig, NetDeviceError, SetLinkStatusChangePortQueryParameters};
use libruntime::net::dev::server::{DeviceEntry, NetDevice, NetDeviceServer as NetDeviceTable, Notifier};
use libruntime::net::iface::messages::{CreateInterfaceQueryParameters, NetServerError};
use libruntime::net::iface::server as net_server;
use libruntime::net::types::{BufferPool, MacAddress, PhysAddr, PhysBufferPoolAccess};
use libruntime::process::api::SelfProcess;
use libruntime::process::client::Client as ProcessClient;
use libruntime::process::kvblock::KVBlock;
use libruntime::process::messages::{ProcessServerError, Type as ProcessType};
use libruntime::process::symblock::SymBlock;
use libruntime::service::{ComponentId, RunnerData};
use libruntime::process::StartupInfo;
use libruntime::state::client::Client as StateClient;
use libruntime::state::messages::{GetStateQueryParameters, StateServerError};
use libruntime::state::server::{Server as StateIpcServer, StateServer};
use libruntime::time::client::Client as TimeClient;
use libruntime::time::duration::{Duration, DAY, HOUR, MICROSECOND, MILLISECOND, MINUTE, SECOND};
use libruntime::time::messages::{GetWallTimeQueryParameters, Timestamp, TimeServerError};
use libruntime::time::server::{Server as TimeIpcServer, TimeServer};

#[test]
fn descriptors_tx_fields_roundtrip() {
    let d = TxBufferDescriptor::new(0xdead_beef, 2047, 1500, true);
    assert_eq!(d.buffer_index(), 0xdead_beef);
    assert_eq!(d.offset(), 2047);
    assert_eq!(d.length(), 1500);
    assert!(d.end_of_packet());
    let d = TxBufferDescriptor::new(0, 0, 0, false);
    assert_eq!((d.buffer_index(), d.offset(), d.length(), d.end_of_packet()), (0, 0, 0, false));
}

#[test]
fn descriptors_rx_fields_roundtrip() {
    let d = RxBufferDescriptor::new(7, 64, false, true);
    assert_eq!(d.buffer_index(), 7);
    assert_eq!(d.length(), 64);
    assert!(!d.end_of_packet());
    assert!(d.error());
    let d = RxBufferDescriptor::new(u32::MAX as usize, 2047, true, false);
    assert_eq!((d.buffer_index(), d.length(), d.end_of_packet(), d.error()), (u32::MAX as usize, 2047, true, false));
}

#[test]
fn buffer_pool_maps_addresses_to_indexes() {
    let addresses = [PhysAddr::from_u64(0x10000), PhysAddr::from_u64(0x20000), PhysAddr::from_u64(0x30800)];
    let pool = PhysBufferPoolAccess::new(2048, &addresses);
    assert_eq!(pool.address_of(1).map(|a| a.as_u64()), Some(0x20000));
    assert!(pool.address_of(3).is_none());
    // An address inside a buffer gives the buffer and the offset in it.
    assert_eq!(pool.index_of(PhysAddr::from_u64(0x20010)), Some((1, 0x10)));
    assert_eq!(pool.index_of(PhysAddr::from_u64(0x30fff)), Some((2, 0x7ff)));
    assert_eq!(pool.index_of(PhysAddr::from_u64(0x40000)), None);
}

#[test]
fn duration_units() {
    assert_eq!(Duration::from_seconds(2).as_u64(), 2 * SECOND);
    assert_eq!(Duration::from_milliseconds(3).as_u64(), 3_000_000);
    assert_eq!(Duration::from_microseconds(5).as_u64(), 5_000);
    assert_eq!(Duration::from_nanoseconds(9).as_u64(), 9);
    assert_eq!(Duration::zero().as_u64(), 0);
    assert_eq!(Duration::from_u64(42).as_u64(), 42);
    assert_eq!(MINUTE, 60 * SECOND);
    assert_eq!(HOUR, 60 * MINUTE);
    assert_eq!(DAY, 24 * HOUR);
    assert_eq!(MILLISECOND, 1000 * MICROSECOND);
}

#[test]
fn timestamp_roundtrip() {
    for v in [0i128, 1, -1, 1_546_300_800_000_000_000, i128::MIN, i128::MAX] {
        assert_eq!(i128::from(Timestamp::from(v)), v);
    }
}

struct FixedClock;

impl TimeServer for FixedClock {
    type Error = TimeServerError;

    fn get_wall_time(&self, _sender_id: u64) -> Result<time::UtcDateTime, TimeServerError> {
        Ok(time::UtcDateTime::from_unix_timestamp(1_546_300_800).unwrap())
    }
}

#[test]
fn time_wall_clock_roundtrip_through_server() {
    let server = TimeIpcServer::new(FixedClock);
    let (_, res) = server.get_wall_time_handler(GetWallTimeQueryParameters {}, KHandles::new(), 1);
    let (reply, _) = res.unwrap();
    assert_eq!(i128::from(reply.timestamp), 1_546_300_800_000_000_000);
    let client = TimeClient::new();
    let now = client
        .get_wall_time(|_c: &ipc::Client, _t, q, h| {
            let (lent, res) = server.get_wall_time_handler(q, h, 1);
            (lent, res.map_err(CallError::ReplyError))
        })
        .unwrap();
    assert_eq!(now.unix_timestamp(), 1_546_300_800);
}

#[test]
fn time_client_passes_errors_on() {
    let client = TimeClient::new();
    let res = client.get_wall_time(|_c: &ipc::Client, _t, _q, h| (h, Err(CallError::KernelError(3))));
    assert!(matches!(res, Err(CallError::KernelError(3))));
}

struct States;

impl StateServer for States {
    type Error = StateServerError;

    fn get_state(&self, _sender_id: u64, name: &str) -> Result<MemoryObject, StateServerError> {
        if name == "counter" {
            Ok(MemoryObject::from_bytes(vec![1, 2, 3]))
        } else {
            Err(StateServerError::InvalidArgument)
        }
    }
}

#[test]
fn state_roundtrip_through_server() {
    let server = StateIpcServer::new(States);
    let client = StateClient::new();
    let value = client
        .get_state("counter", |_c: &ipc::Client, _t, q, h| {
            let (lent, res) = server.get_state_handler(q, h, 1);
            (lent, res.map_err(CallError::ReplyError))
        })
        .unwrap();
    assert_eq!(value.as_slice(), &[1, 2, 3]);
    let res = client.get_state("other", |_c: &ipc::Client, _t, q, h| {
        let (lent, res) = server.get_state_handler(q, h, 1);
        (lent, res.map_err(CallError::ReplyError))
    });
    assert!(matches!(res, Err(CallError::ReplyError(StateServerError::InvalidArgument))));
    let q = GetStateQueryParameters { name: Buffer { offset: 0, len: 4 } };
    let (_, res) = server.get_state_handler(q, KHandles::new(), 1);
    assert!(matches!(res, Err(StateServerError::InvalidArgument)));
}

struct Devices {
    log: RefCell<Vec<String>>,
}

impl NetDeviceServer for Devices {
    type Error = NetDeviceError;

    fn create(&self, _sender_id: u64, name: &str, pci_address: PciAddress) -> Result<Handle, NetDeviceError> {
        self.log.borrow_mut().push(format!("create {} {}", name, pci_address.device));
        Ok(Handle(1))
    }

    fn destroy(&self, _sender_id: u64, _handle: Handle) -> Result<(), NetDeviceError> {
        Ok(())
    }

    fn get_link_status(&self, _sender_id: u64, _handle: Handle) -> Result<bool, NetDeviceError> {
        Ok(true)
    }

    fn set_link_status_change_port(
        &self,
        _sender_id: u64,
        _handle: Handle,
        port: Option<PortSender>,
        correlation: u64,
    ) -> Result<(), NetDeviceError> {
        self.log.borrow_mut().push(format!("port {:?} {}", port.map(|p| p.0), correlation));
        Ok(())
    }

    fn get_mac_address(&self, _sender_id: u64, _handle: Handle) -> Result<MacAddress, NetDeviceError> {
        Ok(MacAddress::from([2, 0, 0, 0, 0, 1]))
    }
}

#[test]
fn net_device_server_handlers() {
    let server = NetDeviceIpcServer::new(Devices { log: RefCell::new(Vec::new()) });
    let q = CreateQueryParameters {
        name: Buffer { offset: 0, len: 4 },
        pci_address: PciAddress { bus: 0, device: 3, function: 0 },
        net_buffer_pool: NetBufferPoolConfig { buffer_count: 8, buffer_size: 2048 },
    };
    let mut h = KHandles::new();
    h.set(CreateQueryParameters::HANDLE_NAME_MOBJ, KHandle::MemoryObject(MemoryObject::from_bytes(b"eth0".to_vec())));
    let (_, res) = server.create_handler(q, h, 1);
    assert_eq!(res.unwrap().0.handle, Handle(1));
    let (_, res) = server.create_handler(q, KHandles::new(), 1);
    assert!(matches!(res, Err(NetDeviceError::InvalidArgument)));
    // A port registers, an empty slot unregisters, a memory object is refused.
    let q = SetLinkStatusChangePortQueryParameters { handle: Handle(1), correlation: 4 };
    let mut h = KHandles::new();
    h.set(SetLinkStatusChangePortQueryParameters::HANDLE_PORT, KHandle::Port(PortSender(6)));
    assert!(server.set_link_status_change_port_handler(q, h, 1).1.is_ok());
    assert!(server.set_link_status_change_port_handler(q, KHandles::new(), 1).1.is_ok());
    let mut h = KHandles::new();
    h.set(SetLinkStatusChangePortQueryParameters::HANDLE_PORT, KHandle::MemoryObject(MemoryObject::create(1)));
    assert!(matches!(server.set_link_status_change_port_handler(q, h, 1).1, Err(NetDeviceError::InvalidArgument)));
}

#[test]
fn net_server_create_interface_arguments() {
    let q = CreateInterfaceQueryParameters {
        name: Buffer { offset: 0, len: 4 },
        driver_port_name: Buffer { offset: 0, len: 6 },
        pci_address: PciAddress { bus: 1, device: 0, function: 0 },
    };
    let mut h = KHandles::new();
    h.set(CreateInterfaceQueryParameters::HANDLE_NAME_MOBJ, KHandle::MemoryObject(MemoryObject::from_bytes(b"eth1".to_vec())));
    h.set(
        CreateInterfaceQueryParameters::HANDLE_DRIVER_PORT_NAME_MOBJ,
        KHandle::MemoryObject(MemoryObject::from_bytes(b"e1000d".to_vec())),
    );
    assert_eq!(net_server::create_interface_arguments(&q, &h), Ok(("eth1".to_string(), "e1000d".to_string())));
    let empty = KHandles::new();
    assert_eq!(net_server::create_interface_arguments(&q, &empty), Err(NetServerError::InvalidArgument));
}

struct Nic {
    up: bool,
    buffers: usize,
    link_events: Box<dyn Fn(bool) + Send + Sync>,
}

impl NetDevice for Nic {
    type Error = NetDeviceError;

    fn create<L, T, R>(
        name: &str,
        _pci_address: PciAddress,
        buffer_pool: BufferPool,
        link_status_change_callback: L,
        _tx_free_callback: T,
        _rx_arrived_callback: R,
    ) -> Result<Self, NetDeviceError>
    where
        L: Fn(bool) + Send + Sync + 'static,
        T: Fn(&[u32]) + Send + Sync + 'static,
        R: Fn(&[RxBufferDescriptor]) + Send + Sync + 'static,
    {
        if name.is_empty() {
            Err(NetDeviceError::InvalidArgument)
        } else {
            let up = name != "down0";
            link_status_change_callback(up);
            Ok(Nic { up, buffers: buffer_pool.buffer_count, link_events: Box::new(link_status_change_callback) })
        }
    }

    fn destroy(self) {}

    fn get_link_status(&self) -> Result<bool, NetDeviceError> {
        Ok(self.up)
    }

    fn get_mac_address(&self) -> Result<MacAddress, NetDeviceError> {
        if self.up {
            Ok(MacAddress::from([0x52, 0x54, 0, 0x12, 0x34, 0x56]))
        } else {
            Err(NetDeviceError::RuntimeError)
        }
    }

    fn tx(&self, descriptors: &[TxBufferDescriptor]) -> Result<usize, NetDeviceError> {
        Ok(descriptors.len().min(2))
    }

    fn add_rx_buffers(&self, buffer_indexes: &[u32]) -> Result<usize, NetDeviceError> {
        Ok(buffer_indexes.len())
    }
}

fn pool(count: usize) -> BufferPool {
    BufferPool { buffer_count: count, buffer_size: 2048, mobj: MemoryObject::create(2048 * count) }
}

fn create_nic(table: &mut NetDeviceTable<Nic>, handle: Handle, name: &str) -> Result<Handle, NetDeviceError> {
    let pci = PciAddress { bus: 0, device: 3, function: 0 };
    table.create(handle, name, pci, pool(4), |_up: bool| {}, |_freed: &[u32]| {}, |_rx: &[RxBufferDescriptor]| {})
}

#[test]
fn net_device_table_by_handle() {
    let mut table = NetDeviceTable::new();
    assert_eq!(create_nic(&mut table, Handle(1), "eth0"), Ok(Handle(1)));
    assert_eq!(create_nic(&mut table, Handle(2), "down0"), Ok(Handle(2)));
    assert_eq!(create_nic(&mut table, Handle(3), ""), Err(NetDeviceError::InvalidArgument));
    assert_eq!(table.get_link_status(Handle(1)), Ok(true));
    assert_eq!(table.get_link_status(Handle(2)), Ok(false));
    assert_eq!(table.get_link_status(Handle(3)), Err(NetDeviceError::InvalidArgument));
    assert_eq!(table.get_mac_address(Handle(1)).map(|m| *m.as_bytes()), Ok([0x52, 0x54, 0, 0x12, 0x34, 0x56]));
    assert!(matches!(table.get_mac_address(Handle(2)), Err(NetDeviceError::RuntimeError)));
    let d = TxBufferDescriptor::new(1, 0, 60, true);
    assert_eq!(table.tx(Handle(1), &[d, d, d]), Ok(2));
    assert_eq!(table.add_rx_buffers(Handle(2), &[1, 2, 3]), Ok(3));
    assert_eq!(table.set_rx_port(Handle(1), Some(PortSender(5)), 8), Ok(()));
    assert_eq!(table.set_rx_port(Handle(1), Some(PortSender(6)), 9), Err(NetDeviceError::InvalidArgument));
    assert_eq!(table.set_rx_port(Handle(1), None, 0), Ok(()));
    assert_eq!(table.set_tx_free_port(Handle(9), None, 0), Err(NetDeviceError::InvalidArgument));
    assert_eq!(table.set_link_status_change_port(Handle(2), Some(PortSender(5)), 1), Ok(()));
    assert_eq!(table.destroy(Handle(1)), Ok(()));
    assert_eq!(table.destroy(Handle(1)), Err(NetDeviceError::InvalidArgument));
    assert_eq!(table.get_link_status(Handle(1)), Err(NetDeviceError::InvalidArgument));
    assert_eq!(table.get_link_status(Handle(2)), Ok(false));
}

#[test]
fn net_device_table_routes_driver_events_to_ports() {
    let mut table = NetDeviceTable::new();
    assert_eq!(create_nic(&mut table, Handle(7), "eth0"), Ok(Handle(7)));
    // Nothing is registered yet, and an unknown device has no port.
    assert!(table.link_status_changed(Handle(7), true).is_none());
    assert!(table.link_status_changed(Handle(8), true).is_none());
    assert_eq!(table.set_link_status_change_port(Handle(7), Some(PortSender(21)), 4), Ok(()));
    assert_eq!(table.set_tx_free_port(Handle(7), Some(PortSender(22)), 5), Ok(()));
    assert_eq!(table.set_rx_port(Handle(7), Some(PortSender(23)), 6), Ok(()));
    let (port, note, _) = table.link_status_changed(Handle(7), false).unwrap();
    assert_eq!((port.0, note.correlation, note.link_up), (21, 4, false));
    let (port, freed, _) = table.tx_freed(Handle(7), &[3, 1]).unwrap();
    assert_eq!((port.0, freed.correlation), (22, 5));
    assert_eq!(&freed.buffers[..3], &[3, 1, u32::MAX]);
    let rx = RxBufferDescriptor::new(2, 128, true, false);
    let (port, arrived, _) = table.rx_arrived(Handle(7), &[rx]).unwrap();
    assert_eq!((port.0, arrived.correlation), (23, 6));
    assert_eq!(arrived.rx_descriptors[0].buffer_index(), 2);
    assert_eq!(arrived.rx_descriptors[1].buffer_index(), u32::MAX as usize);
}

#[test]
fn net_device_entry_lifecycle_and_notifications() {
    let seen = std::sync::Arc::new(std::sync::Mutex::new(Vec::new()));
    let record = seen.clone();
    let pci = PciAddress { bus: 0, device: 1, function: 0 };
    let mut entry = DeviceEntry::<Nic>::new(
        "eth0",
        pci,
        pool(8),
        move |up: bool| record.lock().unwrap().push(up),
        |_freed: &[u32]| {},
        |_rx: &[RxBufferDescriptor]| {},
    )
    .ok()
    .unwrap();
    // The driver got the pool and the callbacks: it reported its link once,
    // and its later events reach the same callback.
    assert_eq!(entry.device().ok().unwrap().buffers, 8);
    assert_eq!(*seen.lock().unwrap(), vec![true]);
    (entry.device().ok().unwrap().link_events)(false);
    assert_eq!(*seen.lock().unwrap(), vec![true, false]);
    assert!(entry.link_status_change_callback(true).is_none());
    entry.set_link_status_change_port(11, Some(PortSender(3))).unwrap();
    // A second registration is refused.
    assert_eq!(entry.set_link_status_change_port(12, Some(PortSender(4))), Err(NetDeviceError::InvalidArgument));
    let (port, note, _) = entry.link_status_change_callback(false).unwrap();
    assert_eq!(port.0, 3);
    assert_eq!(note.correlation, 11);
    assert!(!note.link_up);
    entry.set_tx_free_port(5, Some(PortSender(9))).unwrap();
    let (_, freed, _) = entry.tx_free_callback(&[4, 5, 6]).unwrap();
    assert_eq!(&freed.buffers[..4], &[4, 5, 6, u32::MAX]);
    assert!(entry.device().is_ok());
    assert_eq!(entry.destroy(), Ok(()));
    assert!(matches!(entry.device(), Err(NetDeviceError::InvalidArgument)));
    assert_eq!(entry.destroy(), Err(NetDeviceError::InvalidArgument));
    // The driver's error is passed on.
    assert!(matches!(
        DeviceEntry::<Nic>::new("", pci, pool(1), |_up: bool| {}, |_f: &[u32]| {}, |_r: &[RxBufferDescriptor]| {}),
        Err(NetDeviceError::InvalidArgument)
    ));
}

#[test]
fn net_notifier_set_and_unset() {
    let mut n = Notifier::new();
    assert_eq!(n.set("dev", 1, Some(PortSender(2))), Ok(()));
    assert_eq!(n.set("dev", 1, Some(PortSender(3))), Err(NetDeviceError::InvalidArgument));
    assert_eq!(n.set("dev", 0, None), Ok(()));
    assert!(n.notify("dev", |c| (c, KHandles::new())).is_none());
}

fn startup(env: &[(&str, &str)]) -> StartupInfo {
    StartupInfo {
        name: "me".to_string(),
        env: KVBlock::from_memory_object(KVBlock::build(env)).unwrap(),
        args: KVBlock::from_memory_object(KVBlock::build(&[("0", "me")])).unwrap(),
        symbols: SymBlock::build(&BTreeMap::new()),
    }
}

#[test]
fn self_process_env_set_then_get() {
    let mut me = SelfProcess::new(startup(&[("A", "1"), ("B", "2")]));
    assert_eq!(me.env("A"), Some("1".to_string()));
    assert_eq!(me.env("C"), None);
    let client = ProcessClient::new();
    let sent = RefCell::new(0);
    let ok = |_c: &ipc::Client, t: ProcessType, _q, h: KHandles| {
        assert_eq!(t, ProcessType::UpdateEnv);
        *sent.borrow_mut() += 1;
        (h, Ok((libruntime::process::messages::UpdateEnvReply {}, KHandles::new())))
    };
    me.set_env("C", "3", &client, ok);
    assert_eq!(me.env("C"), Some("3".to_string()));
    me.set_env("A", "10", &client, |_c: &ipc::Client, _t, _q, h: KHandles| {
        (h, Ok((libruntime::process::messages::UpdateEnvReply {}, KHandles::new())))
    });
    assert_eq!(me.env("A"), Some("10".to_string()));
    assert_eq!(me.env("B"), Some("2".to_string()));
    assert_eq!(*sent.borrow(), 1);
    assert_eq!(me.name(), "me");
    assert_eq!(me.arg("0"), Some("me".to_string()));
}

#[test]
fn process_client_errors_are_passed_on() {
    let client = ProcessClient::new();
    let res = client.open_process(3, |_c: &ipc::Client, _t, _q, h| (h, Err(CallError::KernelError(12))));
    assert_eq!(res, Err(CallError::KernelError(12)));
    let res = client.get_process_name(Handle(1), |_c: &ipc::Client, _t, _q, h| {
        (h, Err(CallError::ReplyError(ProcessServerError::RuntimeError)))
    });
    assert_eq!(res, Err(CallError::ReplyError(ProcessServerError::RuntimeError)));
}

#[test]
fn mac_address_text_is_lowercase_hex_with_colons() {
    assert_eq!(MacAddress::from([0x52, 0x54, 0, 0x12, 0x34, 0x56]).to_string(), "52:54:00:12:34:56");
    assert_eq!(MacAddress::from([0xff, 0xab, 0x0a, 0x01, 0x10, 0xc3]).to_string(), "ff:ab:0a:01:10:c3");
    assert_eq!(MacAddress::null().to_string(), "00:00:00:00:00:00");
}

#[test]
fn runner_data_ids_registry_and_cache() {
    let mut data: RunnerData<&'static str> = RunnerData::new();
    assert!(data.can_add());
    let a = data.add_component("a");
    let b = data.add_component("b");
    assert_eq!(a, ComponentId(1));
    assert_eq!(b, ComponentId(2));
    assert_eq!(data.component(a), Some(&"a"));
    let mut first = data.waiter();
    first.sort_by_key(|id| id.0);
    assert_eq!(first, vec![ComponentId(1), ComponentId(2)]);
    // The cached list is handed out again while nothing changes.
    let again = data.waiter();
    let mut again_sorted = again.clone();
    again_sorted.sort_by_key(|id| id.0);
    assert_eq!(again_sorted, first);
    assert_eq!(data.waiter(), again);
    // Removing a component drops the cache; ids are never reused.
    data.remove_component(a);
    assert_eq!(data.component(a), None);
    assert_eq!(data.waiter(), vec![ComponentId(2)]);
    let c = data.add_component("c");
    assert_eq!(c, ComponentId(3));
    let mut after = data.waiter();
    after.sort_by_key(|id| id.0);
    assert_eq!(after, vec![ComponentId(2), ComponentId(3)]);
}
