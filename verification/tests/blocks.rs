use std::collections::BTreeMap;

use libruntime::kobject::MemoryObject;
use libruntime::net::iface::routes_block::{Route, RoutesBlock, RoutesBlockReadError};
use libruntime::net::types::{IpAddress, IpPrefix};
use libruntime::process::kvblock::{KVBlock, KVBlockBuilder, KVBlockLoadError};
use libruntime::process::messages::ProcessStatus;
use libruntime::process::plblock::{PLBlockReadError, ProcessInfo, ProcessListBlock};
use libruntime::process::symblock::{SymBlock, SymBlockBuilder, SymBlockLoadError};
use libruntime::vfs::dentries_block::{DentriesBlock, DentriesBlockReadError, DirectoryEntry};
use libruntime::vfs::mounts_block::{MountInfo, MountsBlock, MountsBlockReadError};
use libruntime::vfs::types::NodeType;

fn kv_entries(block: &KVBlock) -> Vec<(String, String)> {
    let mut out = Vec::new();
    let mut it = block.iter();
    while let Some((k, v)) = it.next() {
        out.push((k.to_string(), v.to_string()));
    }
    out
}

#[test]
fn kvblock_build_then_load_gives_entries_back() {
    let entries = [("PATH", "/bin:/usr/bin"), ("HOME", "/home/user"), ("EMPTY", "")];
    let mobj = KVBlock::build(&entries);
    let block = KVBlock::from_memory_object(mobj).unwrap();
    assert!(block.well_formed());
    assert_eq!(block.len(), 3);
    assert_eq!(
        kv_entries(&block),
        vec![
            ("PATH".to_string(), "/bin:/usr/bin".to_string()),
            ("HOME".to_string(), "/home/user".to_string()),
            ("EMPTY".to_string(), "".to_string()),
        ]
    );
}

#[test]
fn kvblock_layout_is_header_then_aligned_records() {
    let mobj = KVBlock::build(&[("ab", "xyz")]);
    let bytes = mobj.as_slice();
    // A page-sized object.
    assert_eq!(bytes.len(), 4096);
    // version 1, one entry
    assert_eq!(&bytes[0..8], &[1, 0, 0, 0, 1, 0, 0, 0]);
    // key length 2, value length 3, then the key and the value
    assert_eq!(&bytes[8..16], &[2, 0, 0, 0, 3, 0, 0, 0]);
    assert_eq!(&bytes[16..21], b"abxyz");
}

#[test]
fn kvblock_empty_has_no_entries() {
    let block = KVBlock::from_memory_object(KVBlock::build(&[])).unwrap();
    assert_eq!(block.len(), 0);
    assert!(kv_entries(&block).is_empty());
}

#[test]
fn kvblock_wrong_version_is_refused() {
    let mut bytes = vec![0u8; 4096];
    bytes[0] = 2;
    let res = KVBlock::from_memory_object(MemoryObject::from_bytes(bytes));
    assert!(matches!(res, Err(KVBlockLoadError::InvalidVersion)));
}

#[test]
fn kvblock_record_outside_the_object_is_not_well_formed() {
    let mut bytes = vec![0u8; 64];
    bytes[0] = 1; // version
    bytes[4] = 1; // one entry
    bytes[8] = 200; // key length beyond the object
    let block = KVBlock::from_memory_object(MemoryObject::from_bytes(bytes)).unwrap();
    assert!(!block.well_formed());
}

#[test]
fn symblock_build_then_lookup_finds_the_closest_symbol_below() {
    let mut symbols = BTreeMap::new();
    symbols.insert(0x1000usize, "start".to_string());
    symbols.insert(0x2000usize, "main".to_string());
    symbols.insert(0x3000usize, "helper".to_string());
    let block = SymBlock::build(&symbols);
    assert_eq!(block.len(), 3);
    assert_eq!(block.lookup(0x2000), Some((0x2000, "main")));
    assert_eq!(block.lookup(0x2fff), Some((0x2000, "main")));
    assert_eq!(block.lookup(0x5000), Some((0x3000, "helper")));
    assert_eq!(block.lookup(0x1000), Some((0x1000, "start")));
    assert_eq!(block.lookup(0x0fff), None);
}

#[test]
fn symblock_iterates_in_address_order() {
    let mut symbols = BTreeMap::new();
    symbols.insert(30usize, "c".to_string());
    symbols.insert(10usize, "a".to_string());
    symbols.insert(20usize, "b".to_string());
    let block = SymBlock::build(&symbols);
    let mut it = block.iter();
    let mut seen = Vec::new();
    while let Some((addr, name)) = it.next() {
        seen.push((addr, name.to_string()));
    }
    assert_eq!(seen, vec![(10, "a".to_string()), (20, "b".to_string()), (30, "c".to_string())]);
}

#[test]
fn symblock_collect_lists_every_symbol_once() {
    let mut symbols = BTreeMap::new();
    symbols.insert(0x300usize, "gamma".to_string());
    symbols.insert(0x100usize, "alpha".to_string());
    symbols.insert(0x200usize, "beta".to_string());
    let block = SymBlock::build(&symbols);
    let all = block.iter().collect();
    assert_eq!(all, vec![(0x100, "alpha"), (0x200, "beta"), (0x300, "gamma")]);
    let mut it = block.iter();
    it.next();
    assert_eq!(it.collect(), vec![(0x200, "beta"), (0x300, "gamma")]);
    // Lookup answers the largest address at or below the one asked.
    assert_eq!(block.lookup(0x2ff), Some((0x200, "beta")));
    assert_eq!(block.lookup(u64::MAX), Some((0x300, "gamma")));
    assert_eq!(block.lookup(0xff), None);
}

#[test]
fn kvblock_collect_keeps_order_and_duplicates() {
    let entries = [("A", "1"), ("B", "2"), ("A", "3")];
    let block = KVBlock::from_memory_object(KVBlock::build(&entries)).unwrap();
    assert_eq!(block.iter().collect(), entries.to_vec());
    let mut it = block.iter();
    assert_eq!(it.next(), Some(("A", "1")));
    assert_eq!(it.collect(), vec![("B", "2"), ("A", "3")]);
}

#[test]
fn symblock_empty_lookup_is_none() {
    let block = SymBlock::build(&BTreeMap::new());
    assert_eq!(block.len(), 0);
    assert_eq!(block.lookup(12345), None);
}

#[test]
fn symblock_reloaded_from_its_object() {
    let mut symbols = BTreeMap::new();
    symbols.insert(0x40usize, "f".to_string());
    let mobj = SymBlock::build(&symbols).into_memory_object();
    let block = SymBlock::from_memory_object(mobj).unwrap();
    assert_eq!(block.lookup(0x41), Some((0x40, "f")));
}

#[test]
fn symblock_wrong_version_is_refused() {
    let mut bytes = vec![0u8; 4096];
    bytes[0] = 9;
    let res = SymBlock::from_memory_object(MemoryObject::from_bytes(bytes));
    assert!(matches!(res, Err(SymBlockLoadError::InvalidVersion)));
}

fn processes() -> Vec<ProcessInfo> {
    vec![
        ProcessInfo { pid: 1, ppid: 0, name: "init".to_string(), status: ProcessStatus::Running },
        ProcessInfo { pid: 7, ppid: 1, name: "shell".to_string(), status: ProcessStatus::Exited(-3) },
    ]
}

#[test]
fn process_list_build_then_read_gives_processes_back() {
    let mut buffer = vec![0u8; 256];
    let used = ProcessListBlock::build(&processes(), &mut buffer).unwrap();
    // header, then two records of 32 bytes of fields and the name, 8-byte aligned
    assert_eq!(used, 8 + (32 + 4) + 4 + (32 + 5));
    let read = ProcessListBlock::read(&buffer).unwrap();
    assert_eq!(read.len(), 2);
    assert_eq!(read[0].pid, 1);
    assert_eq!(read[0].ppid, 0);
    assert_eq!(read[0].name, "init");
    assert_eq!(read[0].status, ProcessStatus::Running);
    assert_eq!(read[1].pid, 7);
    assert_eq!(read[1].name, "shell");
    assert_eq!(read[1].status, ProcessStatus::Exited(-3));
}

#[test]
fn process_list_too_small_buffer_reports_required_size_and_is_untouched() {
    let mut buffer = vec![0xAAu8; 40];
    let res = ProcessListBlock::build(&processes(), &mut buffer);
    assert_eq!(res, Err(8 + 36 + 4 + 37));
    assert!(buffer.iter().all(|b| *b == 0xAA));
}

#[test]
fn process_list_wrong_version_is_refused() {
    let buffer = vec![0u8; 64];
    assert!(matches!(ProcessListBlock::read(&buffer), Err(PLBlockReadError::InvalidVersion)));
}

#[test]
fn mounts_block_build_then_read_gives_mounts_back() {
    let mounts = vec![
        MountInfo { mount_point: "/".to_string(), fs_port_name: "rootfs".to_string() },
        MountInfo { mount_point: "/tmp".to_string(), fs_port_name: "tmpfs".to_string() },
    ];
    let mut buffer = vec![0u8; 128];
    let used = MountsBlock::build(&mounts, &mut buffer).unwrap();
    assert_eq!(used, 8 + (8 + 1 + 6) + 1 + (8 + 4 + 5));
    let read = MountsBlock::read(&buffer).unwrap();
    assert_eq!(read.len(), 2);
    assert_eq!(read[0].mount_point, "/");
    assert_eq!(read[0].fs_port_name, "rootfs");
    assert_eq!(read[1].mount_point, "/tmp");
    assert_eq!(read[1].fs_port_name, "tmpfs");
    let mut dirty = vec![0xffu8; 128];
    let n = MountsBlock::build(&mounts, &mut dirty).unwrap();
    let prefix = MountsBlock::read(&dirty[..n]).unwrap();
    assert_eq!(prefix.len(), 2);
    assert_eq!(prefix[0].mount_point, "/");
    assert_eq!(prefix[1].fs_port_name, "tmpfs");
}

#[test]
fn mounts_block_errors() {
    let mounts = vec![MountInfo { mount_point: "/data".to_string(), fs_port_name: "disk".to_string() }];
    let mut small = vec![0u8; 10];
    assert_eq!(MountsBlock::build(&mounts, &mut small), Err(8 + 8 + 5 + 4));
    let zeroes = vec![0u8; 16];
    assert!(matches!(MountsBlock::read(&zeroes), Err(MountsBlockReadError::InvalidVersion)));
}

#[test]
fn dentries_block_build_then_read_gives_entries_back() {
    let entries = vec![
        DirectoryEntry { name: "etc".to_string(), node_type: NodeType::Directory },
        DirectoryEntry { name: "notes.txt".to_string(), node_type: NodeType::File },
        DirectoryEntry { name: "link".to_string(), node_type: NodeType::Symlink },
    ];
    let mut buffer = vec![0u8; 256];
    let used = DentriesBlock::build(&entries, &mut buffer).unwrap();
    let read = DentriesBlock::read(&buffer).unwrap();
    assert!(used <= buffer.len());
    assert_eq!(read.len(), 3);
    assert_eq!(read[0].name, "etc");
    assert_eq!(read[0].node_type, NodeType::Directory);
    assert_eq!(read[1].name, "notes.txt");
    assert_eq!(read[1].node_type, NodeType::File);
    assert_eq!(read[2].name, "link");
    assert_eq!(read[2].node_type, NodeType::Symlink);
}

#[test]
fn dentries_block_errors() {
    let entries = vec![DirectoryEntry { name: "a".to_string(), node_type: NodeType::File }];
    let mut small = vec![0u8; 4];
    let required = DentriesBlock::build(&entries, &mut small).unwrap_err();
    assert!(required > 8);
    let mut exact = vec![0u8; required];
    assert_eq!(DentriesBlock::build(&entries, &mut exact), Ok(required));
    let zeroes = vec![0u8; 16];
    assert!(matches!(DentriesBlock::read(&zeroes), Err(DentriesBlockReadError::InvalidVersion)));
}

#[test]
fn routes_block_build_then_read_gives_routes_back() {
    let routes = vec![
        Route {
            prefix: IpPrefix { address: IpAddress::V4([10, 0, 0, 0]), prefix_len: 8 },
            gateway: Some(IpAddress::V4([10, 0, 0, 1])),
            iface: "eth0".to_string(),
            metric: 100,
        },
        Route {
            prefix: IpPrefix { address: IpAddress::V6([0xfe, 0x80, 0, 0, 0, 0, 0, 0, 0, 0, 0, 0, 0, 0, 0, 0]), prefix_len: 64 },
            gateway: None,
            iface: "lo".to_string(),
            metric: 1,
        },
    ];
    let mut buffer = vec![0u8; 512];
    let used = RoutesBlock::build(&routes, &mut buffer).unwrap();
    assert!(used > 8 && used <= 512);
    let read = RoutesBlock::read(&buffer).unwrap();
    assert_eq!(read.len(), 2);
    assert_eq!(read[0].prefix, routes[0].prefix);
    assert_eq!(read[0].gateway, routes[0].gateway);
    assert_eq!(read[0].iface, "eth0");
    assert_eq!(read[0].metric, 100);
    assert_eq!(read[1].prefix, routes[1].prefix);
    assert_eq!(read[1].gateway, None);
    assert_eq!(read[1].iface, "lo");
    assert_eq!(read[1].metric, 1);
    // The used bytes alone read the same, whatever the buffer held before.
    let mut dirty = vec![0xa5u8; 512];
    let used2 = RoutesBlock::build(&routes, &mut dirty).unwrap();
    assert_eq!(used2, used);
    let prefix = RoutesBlock::read(&dirty[..used2]).unwrap();
    assert_eq!(prefix.len(), 2);
    assert_eq!(prefix[0].iface, "eth0");
    assert_eq!(prefix[1].prefix, routes[1].prefix);
}

#[test]
fn routes_block_errors() {
    let routes = vec![Route {
        prefix: IpPrefix { address: IpAddress::V4([192, 168, 1, 0]), prefix_len: 24 },
        gateway: None,
        iface: "wlan0".to_string(),
        metric: 5,
    }];
    let mut small = vec![0u8; 8];
    let required = RoutesBlock::build(&routes, &mut small).unwrap_err();
    assert!(required > 8);
    let zeroes = vec![0u8; 16];
    assert!(matches!(RoutesBlock::read(&zeroes), Err(RoutesBlockReadError::InvalidVersion)));
}

#[test]
fn kvblock_builder_step_by_step_matches_build() {
    let mut builder = KVBlockBuilder::new(100);
    builder.set_header(1, 2);
    builder.add_entry("k1", "v1");
    builder.add_entry("key2", "");
    let built = builder.build();
    assert_eq!(built.as_slice(), KVBlock::build(&[("k1", "v1"), ("key2", "")]).as_slice());
    let block = KVBlock::from_memory_object(built).unwrap();
    assert_eq!(kv_entries(&block), vec![("k1".to_string(), "v1".to_string()), ("key2".to_string(), "".to_string())]);
}

#[test]
fn symblock_builder_step_by_step_matches_build() {
    let mut symbols = BTreeMap::new();
    symbols.insert(0x10usize, "alpha".to_string());
    symbols.insert(0x20usize, "beta".to_string());
    let reference = SymBlock::build(&symbols).into_memory_object();
    let mut builder = SymBlockBuilder::new(reference.size());
    // header: version 1, two entries, names after the 16-byte header and the two 16-byte entries
    builder.set_header(1, 2, 16 + 2 * 16);
    builder.add_entries(&symbols);
    let built = builder.build().into_memory_object();
    assert_eq!(built.as_slice(), reference.as_slice());
}

#[test]
fn routes_block_size_grows_by_one_aligned_record() {
    let mut routes: Vec<Route> = Vec::new();
    let mut empty: Vec<u8> = Vec::new();
    assert_eq!(RoutesBlock::build(&routes, &mut empty), Err(8));
    let mut previous = 8usize;
    for (i, name) in ["eth0", "wlan12", "lo"].iter().enumerate() {
        routes.push(Route {
            prefix: IpPrefix { address: IpAddress::V4([10, i as u8, 0, 0]), prefix_len: 16 },
            gateway: None,
            iface: name.to_string(),
            metric: i,
        });
        let mut none: Vec<u8> = Vec::new();
        let required = RoutesBlock::build(&routes, &mut none).unwrap_err();
        assert_eq!(required, (previous + 7) / 8 * 8 + 48 + name.len());
        previous = required;
    }
}
