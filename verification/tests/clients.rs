use std::cell::RefCell;

use libruntime::ipc::{self, Buffer, CallError, Handle, KHandle, KHandles, PciAddress};
use libruntime::kobject::{MemoryObject, PortSender};
use libruntime::net::dev::client::Client as DeviceClient;
use libruntime::net::dev::descriptors::TxBufferDescriptor;
use libruntime::net::dev::messages::{
    AddRxBuffersReply, CreateQueryParameters, CreateReply, NetDeviceError, SetRxPortQueryParameters, SetRxPortReply,
    TxQueryParameters, TxReply,
};
use libruntime::net::iface::client::Client as NetClient;
use libruntime::net::iface::messages::{
    CreateInterfaceQueryParameters, CreateInterfaceReply, ListRoutesQueryParameters, ListRoutesReply, NetServerError,
};
use libruntime::net::iface::routes_block::{Route, RoutesBlock};
use libruntime::net::types::{BufferPool, IpAddress, IpPrefix};
use libruntime::vfs::dentries_block::DirectoryEntry;
use libruntime::vfs::fs::client::Client as FsClient;
use libruntime::vfs::fs::messages::{
    FsServerError, ListDirQueryParameters, LookupQueryParameters, LookupReply, MountQueryParameters, MountReply,
    ReadFileQueryParameters,
};
use libruntime::vfs::fs::server as fs_server;
use libruntime::vfs::types::{NodeId, NodeType};

#[test]
fn fs_lookup_sends_the_name() {
    let client = FsClient::new("memfs");
    let seen = RefCell::new(String::new());
    let node = client.lookup(Handle(1), NodeId(2), "readme", |_c: &ipc::Client, _t, q: LookupQueryParameters, h| {
        *seen.borrow_mut() = fs_server::lookup_arguments(&q, &h).unwrap();
        assert_eq!(q.parent, NodeId(2));
        (h, Ok((LookupReply { node_id: NodeId(5) }, KHandles::new())))
    });
    assert_eq!(node, Ok(NodeId(5)));
    assert_eq!(*seen.borrow(), "readme");
    let failed = client.lookup(Handle(1), NodeId(2), "x", |_c: &ipc::Client, _t, _q, h| {
        (h, Err(CallError::ReplyError(FsServerError::RuntimeError)))
    });
    assert_eq!(failed, Err(CallError::ReplyError(FsServerError::RuntimeError)));
}

#[test]
fn fs_list_dir_roundtrip_through_server_reply() {
    let entries: Vec<DirectoryEntry> = (0..30)
        .map(|i| DirectoryEntry { name: format!("file-{:03}", i), node_type: NodeType::File })
        .collect();
    let client = FsClient::new("memfs");
    let listed = client
        .list_dir(Handle(1), Handle(2), |_c: &ipc::Client, _t, q: ListDirQueryParameters, mut h: KHandles| {
            if let Err(e) = fs_server::list_dir_arguments(&q, &h) {
                return (h, Err(CallError::ReplyError(e)));
            }
            let res = fs_server::list_dir_reply(&mut h, &q, &entries);
            (h, res.map(|r| (r, KHandles::new())).map_err(CallError::ReplyError))
        })
        .unwrap();
    assert_eq!(listed.len(), 30);
    assert_eq!(listed[29].name, "file-029");
}

#[test]
fn fs_read_file_and_symlink_through_server_frames() {
    let client = FsClient::new("memfs");
    let mut buffer = [0u8; 6];
    let n = client
        .read_file(Handle(1), Handle(3), 0, &mut buffer, |_c: &ipc::Client, _t, q: ReadFileQueryParameters, mut h: KHandles| {
            let mut data = fs_server::read_file_arguments(&q, &h).unwrap();
            data[..2].copy_from_slice(b"ok");
            let reply = fs_server::read_file_reply(&mut h, &q, &data, 2);
            (h, Ok((reply, KHandles::new())))
        })
        .unwrap();
    assert_eq!(n, 2);
    assert_eq!(&buffer[..2], b"ok");
    let target = client
        .read_symlink(Handle(1), NodeId(4), |_c: &ipc::Client, _t, q, mut h: KHandles| {
            fs_server::read_symlink_arguments(&q, &h).unwrap();
            let res = fs_server::read_symlink_reply(&mut h, &q, "../elsewhere");
            (h, res.map(|r| (r, KHandles::new())).map_err(CallError::ReplyError))
        })
        .unwrap();
    assert_eq!(target, "../elsewhere");
}

#[test]
fn fs_mount_sends_the_raw_arguments() {
    let client = FsClient::new("memfs");
    let seen = RefCell::new(Vec::new());
    let res = client.mount(&[1, 2, 3, 255], |_c: &ipc::Client, _t, q: MountQueryParameters, h| {
        *seen.borrow_mut() = fs_server::mount_arguments(&q, &h).unwrap();
        (h, Ok((MountReply { mount_handle: Handle(10), root_node_id: NodeId(1) }, KHandles::new())))
    });
    assert_eq!(res, Ok((Handle(10), NodeId(1))));
    assert_eq!(*seen.borrow(), vec![1, 2, 3, 255]);
    let q = MountQueryParameters { args: Buffer { offset: 0, len: 1 } };
    assert_eq!(fs_server::mount_arguments(&q, &KHandles::new()), Err(FsServerError::InvalidArgument));
}

#[test]
fn net_create_interface_sends_both_names() {
    let client = NetClient::new();
    let seen = RefCell::new((String::new(), String::new()));
    let res = client.create_interface(
        "eth0",
        "e1000",
        PciAddress { bus: 0, device: 2, function: 1 },
        |_c: &ipc::Client, _t, q: CreateInterfaceQueryParameters, h| {
            assert_eq!(q.pci_address.function, 1);
            let names = libruntime::net::iface::server::create_interface_arguments(&q, &h).unwrap();
            *seen.borrow_mut() = names;
            (h, Ok((CreateInterfaceReply {}, KHandles::new())))
        },
    );
    assert_eq!(res, Ok(()));
    assert_eq!(*seen.borrow(), ("eth0".to_string(), "e1000".to_string()));
}

#[test]
fn net_list_routes_grows_the_buffer_until_it_fits() {
    let routes: Vec<Route> = (0..20u8)
        .map(|i| Route {
            prefix: IpPrefix { address: IpAddress::V4([10, i, 0, 0]), prefix_len: 16 },
            gateway: Some(IpAddress::V4([10, i, 0, 1])),
            iface: format!("eth{}", i),
            metric: i as usize,
        })
        .collect();
    let client = NetClient::new();
    let sizes = RefCell::new(Vec::new());
    let listed = client
        .list_routes(|_c: &ipc::Client, _t, q: ListRoutesQueryParameters, mut h: KHandles| {
            sizes.borrow_mut().push(q.buffer.len);
            let KHandle::MemoryObject(m) = h.take(ListRoutesQueryParameters::HANDLE_BUFFER_MOBJ) else {
                panic!("a buffer is lent");
            };
            let mut bytes = m.as_slice().to_vec();
            let res = RoutesBlock::build(&routes, &mut bytes);
            h.set(ListRoutesQueryParameters::HANDLE_BUFFER_MOBJ, KHandle::MemoryObject(MemoryObject::from_bytes(bytes)));
            match res {
                Ok(used) => (h, Ok((ListRoutesReply { buffer_used_len: used }, KHandles::new()))),
                Err(_) => (h, Err(CallError::ReplyError(NetServerError::BufferTooSmall))),
            }
        })
        .unwrap();
    assert_eq!(listed.len(), 20);
    assert_eq!(listed[19].iface, "eth19");
    assert_eq!(listed[19].metric, 19);
    let sizes = sizes.borrow();
    assert!(sizes.len() > 1);
    for w in sizes.windows(2) {
        assert_eq!(w[1], 2 * w[0]);
    }
}

#[test]
fn net_device_tx_pads_the_descriptors() {
    let client = DeviceClient::new("nic-driver");
    let d = TxBufferDescriptor::new(3, 0, 100, true);
    let sent = client.tx(Handle(1), &[d, d], |_c: &ipc::Client, _t, q: TxQueryParameters, h| {
        assert_eq!(q.tx_descriptors[0].buffer_index(), 3);
        assert_eq!(q.tx_descriptors[1].length(), 100);
        // The slots past the given descriptors hold no buffer.
        assert_eq!(q.tx_descriptors[2].buffer_index(), u32::MAX as usize);
        assert_eq!(q.tx_descriptors[12].length(), 0);
        (h, Ok((TxReply { sent_buffers: 2 }, KHandles::new())))
    });
    assert_eq!(sent, Ok(2));
    let added = client.add_rx_buffers(Handle(1), &[7, 8, 9], |_c: &ipc::Client, _t, q, h| {
        assert_eq!(&q.buffers[..4], &[7, 8, 9, u32::MAX]);
        (h, Ok((AddRxBuffersReply { added_buffers: 3 }, KHandles::new())))
    });
    assert_eq!(added, Ok(3));
}

#[test]
fn net_device_tx_sends_only_what_one_message_holds() {
    let client = DeviceClient::new("nic-driver");
    let descriptors: Vec<TxBufferDescriptor> =
        (0..20).map(|i| TxBufferDescriptor::new(i, 0, 64, true)).collect();
    let sent = client.tx(Handle(1), &descriptors, |_c: &ipc::Client, _t, q: TxQueryParameters, h| {
        for i in 0..13 {
            assert_eq!(q.tx_descriptors[i].buffer_index(), i);
        }
        (h, Ok((TxReply { sent_buffers: 13 }, KHandles::new())))
    });
    assert_eq!(sent, Ok(13));
    let indexes: Vec<u32> = (100..140).collect();
    let added = client.add_rx_buffers(Handle(1), &indexes, |_c: &ipc::Client, _t, q, h| {
        assert_eq!(q.buffers[0], 100);
        assert_eq!(q.buffers[25], 125);
        (h, Ok((AddRxBuffersReply { added_buffers: 26 }, KHandles::new())))
    });
    assert_eq!(added, Ok(26));
}

#[test]
fn net_device_create_and_ports() {
    let client = DeviceClient::new("nic-driver");
    let pool = BufferPool { buffer_count: 4, buffer_size: 2048, mobj: MemoryObject::create(8192) };
    let created = client.create("eth0", PciAddress { bus: 0, device: 1, function: 0 }, &pool, |_c: &ipc::Client, _t, q: CreateQueryParameters, h| {
        assert_eq!(q.net_buffer_pool.buffer_count, 4);
        assert_eq!(q.net_buffer_pool.buffer_size, 2048);
        (h, Ok((CreateReply { handle: Handle(12) }, KHandles::new())))
    });
    assert_eq!(created, Ok(Handle(12)));
    let set = client.set_rx_port(Handle(12), Some(PortSender(3)), 77, |_c: &ipc::Client, _t, q: SetRxPortQueryParameters, mut h: KHandles| {
        assert_eq!(q.correlation, 77);
        assert!(matches!(h.take(SetRxPortQueryParameters::HANDLE_PORT), KHandle::Port(PortSender(3))));
        (h, Ok((SetRxPortReply {}, KHandles::new())))
    });
    assert_eq!(set, Ok(()));
    let failed = client.destroy(Handle(12), |_c: &ipc::Client, _t, _q, h| {
        (h, Err(CallError::ReplyError(NetDeviceError::InvalidArgument)))
    });
    assert_eq!(failed, Err(CallError::ReplyError(NetDeviceError::InvalidArgument)));
}
