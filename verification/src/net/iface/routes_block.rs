//! The RoutesBlock: the routing table, written by the network server into a
//! buffer of the client.
//!
//! Layout: the block header, then from offset 8 one record per route,
//! 8-byte aligned. The fixed part of a record is 48 bytes: the address kind
//! of the prefix (4 or 6), the prefix length, the address kind of the gateway
//! (0 when there is none), a zero byte, `iface_len: u32`, `metric: u64`, the
//! 16 address bytes of the prefix and the 16 of the gateway (an IPv4 address
//! takes the first four, the rest are zero). The interface name follows.
use vstd::prelude::*;
use vstd::string::StringSliceAdditionalSpecFns;
use vstd::utf8::{encode_utf8, decode_utf8, valid_utf8};
use crate::layout::{spec_align_up, read_u32, read_u64, u32_bytes, u64_bytes, get_u64, lemma_u32_roundtrip, lemma_u64_roundtrip, lemma_le_bytes_len, lemma_read_u32_at, lemma_read_u64_at};
use crate::record_block::{
    RecordLayout, RawRecord, ExecRecord, raws, block_image, build_into, read_header, read_records, required_size,
    lemma_block_roundtrip, lemma_block_prefix, lemma_required_size_push, lemma_required_size, lemma_fits_larger, lemma_parse_len, lemma_parse_ok, push_u32, push_u64,
    exec_payload_string, exec_string_payload, HEADER_SIZE,
};
use crate::text::lemma_utf8_roundtrip;
use crate::net::types::{IpAddress, IpPrefix};

verus! {

/// Version of the RoutesBlock format.
pub const VERSION: u32 = 1;

/// Size of the fixed part of a route record.
pub const ROUTE_HEAD_SIZE: usize = 48;

/// Route.
#[derive(Debug, Clone)]
pub struct Route {
    /// Network
    pub prefix: IpPrefix,

    /// Optional gateway
    pub gateway: Option<IpAddress>,

    /// Interface used
    pub iface: String,

    /// Metric for this route
    pub metric: usize,
}

/// An address as a value: its kind (4 or 6) and its bytes.
pub type AddressView = (u8, Seq<u8>);

/// A route as a value: prefix address, prefix length, gateway, interface, metric.
pub type RouteView = (AddressView, u8, Option<AddressView>, Seq<char>, usize);

pub open spec fn address_view(a: IpAddress) -> AddressView {
    match a {
        IpAddress::V4(b) => (4u8, b@),
        IpAddress::V6(b) => (6u8, b@),
    }
}

pub open spec fn gateway_view(g: Option<IpAddress>) -> Option<AddressView> {
    match g {
        Some(a) => Some(address_view(a)),
        None => None,
    }
}

impl Route {
    pub open spec fn view(&self) -> RouteView {
        (address_view(self.prefix.address), self.prefix.prefix_len, gateway_view(self.gateway), self.iface@, self.metric)
    }
}

pub open spec fn routes_view(routes: Seq<Route>) -> Seq<RouteView> {
    routes.map_values(|r: Route| r.view())
}

/// The sixteen address bytes of an address.
pub open spec fn address_bytes(a: IpAddress) -> Seq<u8> {
    match a {
        IpAddress::V4(b) => b@ + Seq::new(12, |i: int| 0u8),
        IpAddress::V6(b) => b@,
    }
}

pub open spec fn gateway_kind(g: Option<IpAddress>) -> u8 {
    match g {
        Some(a) => address_view(a).0,
        None => 0u8,
    }
}

pub open spec fn gateway_bytes(g: Option<IpAddress>) -> Seq<u8> {
    match g {
        Some(a) => address_bytes(a),
        None => Seq::new(16, |i: int| 0u8),
    }
}

/// Shape of a route record.
pub open spec fn route_layout() -> RecordLayout {
    RecordLayout { head_size: 48, align: 8, len_at: 4, second_len_at: None }
}

fn exec_route_layout() -> (r: RecordLayout)
    ensures
        r == route_layout(),
{
    RecordLayout { head_size: 48, align: 8, len_at: 4, second_len_at: None }
}

/// The fixed part of the record of a route whose interface name is `iface_len` bytes long.
pub open spec fn route_head(prefix: IpPrefix, gateway: Option<IpAddress>, iface_len: u32, metric: usize) -> Seq<u8> {
    seq![address_view(prefix.address).0, prefix.prefix_len, gateway_kind(gateway), 0u8]
        + u32_bytes(iface_len) + u64_bytes(metric as u64)
        + address_bytes(prefix.address) + gateway_bytes(gateway)
}

/// The record of a route.
pub open spec fn route_record(r: Route) -> RawRecord {
    (route_head(r.prefix, r.gateway, encode_utf8(r.iface@).len() as u32, r.metric), encode_utf8(r.iface@))
}

pub open spec fn route_records(routes: Seq<Route>) -> Seq<RawRecord> {
    routes.map_values(|r: Route| route_record(r))
}

/// An address read from its kind and its sixteen bytes.
pub open spec fn address_of(kind: u8, bytes: Seq<u8>) -> AddressView {
    if kind == 4 {
        (4u8, bytes.take(4))
    } else {
        (6u8, bytes)
    }
}

/// A record holds known address kinds and a valid UTF-8 interface name.
pub open spec fn route_valid(r: RawRecord) -> bool {
    &&& (r.0[0] == 4 || r.0[0] == 6)
    &&& (r.0[2] == 0 || r.0[2] == 4 || r.0[2] == 6)
    &&& valid_utf8(r.1)
}

/// The route of a valid record.
pub open spec fn route_of(r: RawRecord) -> RouteView {
    (
        address_of(r.0[0], r.0.subrange(16, 32)),
        r.0[1],
        if r.0[2] == 0 { None } else { Some(address_of(r.0[2], r.0.subrange(32, 48))) },
        decode_utf8(r.1),
        read_u64(r.0, 8) as usize,
    )
}

/// The fixed part of a route record.
pub struct RouteEntry {
    pub prefix: IpPrefix,
    pub gateway: Option<IpAddress>,
    pub iface_len: u32,
    pub metric: usize,
}

impl RouteEntry {
    /// Size of the record: the fixed part and the interface name.
    pub fn total_size(&self) -> (r: usize)
        requires
            ROUTE_HEAD_SIZE + self.iface_len <= usize::MAX,
        ensures
            r == ROUTE_HEAD_SIZE + self.iface_len,
    {
        ROUTE_HEAD_SIZE + self.iface_len as usize
    }
}

/// Errors when reading a RoutesBlock.
#[derive(Debug, Clone, Copy, PartialEq, Eq, Structural)]
pub enum RoutesBlockReadError {
    InvalidVersion,
}

/// The records of the buffer, as its header counts them.
pub open spec fn parsed(buf: Seq<u8>) -> Option<Seq<RawRecord>> {
    route_layout().parse_records(buf, HEADER_SIZE as int, read_u32(buf, 4) as nat)
}

/// The buffer holds a block whose records all lie inside it and are valid.
pub open spec fn routes_readable(buf: Seq<u8>) -> bool {
    &&& parsed(buf) is Some
    &&& forall|i: int| 0 <= i < parsed(buf).unwrap().len() ==> route_valid(#[trigger] parsed(buf).unwrap()[i])
}

/// The routes that a readable buffer holds.
pub open spec fn routes_of(buf: Seq<u8>) -> Seq<RouteView> {
    parsed(buf).unwrap().map_values(|r: RawRecord| route_of(r))
}

/// Appends the sixteen address bytes of `a`.
fn push_address(out: &mut Vec<u8>, a: &IpAddress)
    ensures
        final(out)@ == old(out)@ + address_bytes(*a),
{
    match a {
        IpAddress::V4(b) => {
            out.extend_from_slice(b);
            let mut i: usize = 0;
            while i < 12
                invariant
                    i <= 12,
                    out@ == old(out)@ + b@ + Seq::new(i as nat, |k: int| 0u8),
                decreases 12 - i,
            {
                out.push(0u8);
                i = i + 1;
                assert(out@ =~= old(out)@ + b@ + Seq::new(i as nat, |k: int| 0u8));
            }
        },
        IpAddress::V6(b) => {
            out.extend_from_slice(b);
        },
    }
}

fn exec_route_record(r: &Route) -> (rec: ExecRecord)
    ensures
        rec.raw() == route_record(*r),
{
    let payload = exec_string_payload(r.iface.as_str());
    let mut head: Vec<u8> = Vec::new();
    let kind: u8 = match r.prefix.address {
        IpAddress::V4(_) => 4,
        IpAddress::V6(_) => 6,
    };
    let gw_kind: u8 = match r.gateway {
        Some(IpAddress::V4(_)) => 4,
        Some(IpAddress::V6(_)) => 6,
        None => 0,
    };
    head.push(kind);
    head.push(r.prefix.prefix_len);
    head.push(gw_kind);
    head.push(0u8);
    push_u32(&mut head, #[verifier::truncate] (payload.len() as u32));
    push_u64(&mut head, r.metric as u64);
    push_address(&mut head, &r.prefix.address);
    match &r.gateway {
        Some(g) => push_address(&mut head, g),
        None => {
            let mut i: usize = 0;
            let ghost start = head@;
            while i < 16
                invariant
                    i <= 16,
                    head@ == start + Seq::new(i as nat, |k: int| 0u8),
                decreases 16 - i,
            {
                head.push(0u8);
                i = i + 1;
                assert(head@ =~= start + Seq::new(i as nat, |k: int| 0u8));
            }
        },
    }
    proof {
        assert(head@ =~= route_record(*r).0);
    }
    ExecRecord { head, payload }
}

/// The address of kind `kind` held in the sixteen bytes from `off`.
fn exec_address_of(head: &Vec<u8>, kind: u8, off: usize) -> (r: IpAddress)
    requires
        off + 16 <= head@.len(),
        off <= 32,
    ensures
        address_view(r) == address_of(kind, head@.subrange(off as int, off + 16)),
{
    if kind == 4 {
        let b = [head[off], head[off + 1], head[off + 2], head[off + 3]];
        proof {
            assert(b@ =~= head@.subrange(off as int, off + 16).take(4));
        }
        IpAddress::V4(b)
    } else {
        let b = [
            head[off], head[off + 1], head[off + 2], head[off + 3], head[off + 4], head[off + 5], head[off + 6],
            head[off + 7], head[off + 8], head[off + 9], head[off + 10], head[off + 11], head[off + 12],
            head[off + 13], head[off + 14], head[off + 15],
        ];
        proof {
            assert(b@ =~= head@.subrange(off as int, off + 16));
        }
        IpAddress::V6(b)
    }
}

/// The route of a valid record.
fn exec_route_of(rec: &ExecRecord) -> (r: Route)
    requires
        rec.head@.len() == 48,
        route_valid(rec.raw()),
    ensures
        r.view() == route_of(rec.raw()),
{
    let address = exec_address_of(&rec.head, rec.head[0], 16);
    let gateway = if rec.head[2] == 0 {
        None
    } else {
        Some(exec_address_of(&rec.head, rec.head[2], 32))
    };
    let metric = get_u64(rec.head.as_slice(), 8) as usize;
    let iface = exec_payload_string(rec);
    Route { prefix: IpPrefix { address, prefix_len: rec.head[1] }, gateway, iface, metric }
}

/// The record of a route whose interface name is short enough reads back as it.
pub proof fn lemma_route_record(r: Route)
    requires
        encode_utf8(r.iface@).len() <= u32::MAX,
    ensures
        route_layout().record_ok(route_record(r)),
        route_valid(route_record(r)),
        route_of(route_record(r)) == r.view(),
{
    let rec = route_record(r);
    let len = encode_utf8(r.iface@).len() as u32;
    let h = rec.0;
    let pre = seq![address_view(r.prefix.address).0, r.prefix.prefix_len, gateway_kind(r.gateway), 0u8];
    lemma_le_bytes_len(len as nat, 4);
    lemma_le_bytes_len(r.metric as u64 as nat, 8);
    assert(address_bytes(r.prefix.address).len() == 16);
    assert(gateway_bytes(r.gateway).len() == 16);
    assert(h.len() == 48);
    assert(h.subrange(4, 8) =~= u32_bytes(len));
    lemma_read_u32_at(h, 4, len);
    assert(h.subrange(8, 16) =~= u64_bytes(r.metric as u64));
    lemma_read_u64_at(h, 8, r.metric as u64);
    assert(h.subrange(16, 32) =~= address_bytes(r.prefix.address));
    assert(h.subrange(32, 48) =~= gateway_bytes(r.gateway));
    match r.prefix.address {
        IpAddress::V4(b) => {
            assert(address_bytes(r.prefix.address).take(4) =~= b@);
        },
        IpAddress::V6(b) => {},
    }
    match r.gateway {
        Some(IpAddress::V4(b)) => {
            assert(gateway_bytes(r.gateway).take(4) =~= b@);
        },
        _ => {},
    }
    lemma_utf8_roundtrip(r.iface@);
}

/// Routes block format for IPC communication.
pub struct RoutesBlock;

impl RoutesBlock {
    /// Builds a routes list into the provided buffer.
    ///
    /// Returns `Ok(bytes_written)` on success, or `Err(required_size)` if the buffer is too small.
    pub fn build(routes: &[Route], buffer: &mut [u8]) -> (r: Result<usize, usize>)
        requires
            old(buffer)@.len() + 8 <= usize::MAX,
        ensures
            final(buffer)@.len() == old(buffer)@.len(),
            ({
                let size = required_size(route_layout(), route_records(routes@));
                &&& size + 16 > usize::MAX ==> r is Err && final(buffer)@ == old(buffer)@
                &&& size + 16 <= usize::MAX && old(buffer)@.len() < size ==> r == Err::<usize, usize>(size as usize) && final(buffer)@ == old(buffer)@
                &&& size + 16 <= usize::MAX && old(buffer)@.len() >= size ==> r == Ok::<usize, usize>(size as usize)
                    && final(buffer)@ == block_image(route_layout(), old(buffer)@, VERSION, route_records(routes@))
            }),
    {
        let mut recs: Vec<ExecRecord> = Vec::new();
        let mut i: usize = 0;
        while i < routes.len()
            invariant
                i <= routes@.len(),
                raws(recs@) == route_records(routes@.take(i as int)),
            decreases routes@.len() - i,
        {
            let rec = exec_route_record(&routes[i]);
            let ghost prev = recs@;
            recs.push(rec);
            proof {
                assert(routes@.take(i + 1) =~= routes@.take(i as int).push(routes@[i as int]));
                assert(raws(recs@) =~= raws(prev).push(rec.raw()));
                assert(route_records(routes@.take(i + 1)) =~= route_records(routes@.take(i as int)).push(rec.raw()));
            }
            i = i + 1;
        }
        proof {
            assert(routes@.take(routes@.len() as int) =~= routes@);
        }
        let l = exec_route_layout();
        build_into(&l, VERSION, &recs, buffer)
    }

    /// Reads a routes list from the provided buffer.
    ///
    /// Returns a vector of Route on success, or an error if we get the wrong version.
    pub fn read(buffer: &[u8]) -> (r: Result<Vec<Route>, RoutesBlockReadError>)
        requires
            buffer@.len() >= HEADER_SIZE,
            buffer@.len() + 8 <= usize::MAX,
            read_u32(buffer@, 0) == VERSION ==> routes_readable(buffer@),
        ensures
            read_u32(buffer@, 0) != VERSION ==> r == Err::<Vec<Route>, RoutesBlockReadError>(RoutesBlockReadError::InvalidVersion),
            read_u32(buffer@, 0) == VERSION ==> (r matches Ok(v) && routes_view(v@) == routes_of(buffer@)),
    {
        let (version, count) = read_header(buffer);
        if version != VERSION {
            return Err(RoutesBlockReadError::InvalidVersion);
        }
        let l = exec_route_layout();
        let recs = read_records(&l, buffer, HEADER_SIZE, count);
        let ghost all = raws(recs@);
        proof {
            lemma_parse_len(route_layout(), buffer@, HEADER_SIZE as int, count as nat);
            lemma_parse_ok(route_layout(), buffer@, HEADER_SIZE as int, count as nat);
        }
        let mut result: Vec<Route> = Vec::new();
        let mut i: usize = 0;
        while i < recs.len()
            invariant
                i <= recs@.len(),
                all == raws(recs@),
                all == parsed(buffer@).unwrap(),
                routes_readable(buffer@),
                route_layout().records_ok(all),
                routes_view(result@) == all.take(i as int).map_values(|r: RawRecord| route_of(r)),
            decreases recs@.len() - i,
        {
            let rec = &recs[i];
            proof {
                assert(all[i as int] == rec.raw());
                assert(route_valid(all[i as int]));
                assert(route_layout().record_ok(all[i as int]));
            }
            let route = exec_route_of(rec);
            let ghost prev = result@;
            result.push(route);
            proof {
                assert(all.take(i + 1) =~= all.take(i as int).push(all[i as int]));
                assert(routes_view(result@) =~= routes_view(prev).push(result@[i as int].view()));
                assert(routes_view(result@) =~= all.take(i + 1).map_values(|r: RawRecord| route_of(r)));
            }
            i = i + 1;
        }
        proof {
            assert(all.take(all.len() as int) =~= all);
        }
        Ok(result)
    }
}

/// Every interface name is short enough for the format, and the count fits.
pub open spec fn routes_fit(routes: Seq<Route>) -> bool {
    &&& routes.len() <= u32::MAX
    &&& forall|i: int| 0 <= i < routes.len() ==> encode_utf8((#[trigger] routes[i]).iface@).len() <= u32::MAX
}

/// A list of routes written into a large enough buffer reads back unchanged,
/// and so do the first bytes of the buffer, as many as the build reported.
pub proof fn lemma_routes_build_then_read(routes: Seq<Route>, buf: Seq<u8>)
    requires
        routes_fit(routes),
        buf.len() >= required_size(route_layout(), route_records(routes)),
    ensures
        ({
            let img = block_image(route_layout(), buf, VERSION, route_records(routes));
            &&& img.len() == buf.len()
            &&& read_u32(img, 0) == VERSION
            &&& routes_readable(img)
            &&& routes_of(img) == routes_view(routes)
            &&& img.take(required_size(route_layout(), route_records(routes))).len() == required_size(route_layout(), route_records(routes))
            &&& read_u32(img.take(required_size(route_layout(), route_records(routes))), 0) == VERSION
            &&& routes_readable(img.take(required_size(route_layout(), route_records(routes))))
            &&& routes_of(img.take(required_size(route_layout(), route_records(routes)))) == routes_view(routes)
        }),
{
    let l = route_layout();
    let recs = route_records(routes);
    assert forall|i: int| 0 <= i < recs.len() implies l.record_ok(#[trigger] recs[i]) && route_valid(recs[i])
        && route_of(recs[i]) == routes[i].view() by {
        lemma_route_record(routes[i]);
    }
    lemma_required_size(l, recs);
    lemma_fits_larger(l, required_size(l, recs), buf.len() as int, l.first_offset(), recs);
    lemma_block_roundtrip(l, buf, VERSION, recs);
    let img = block_image(l, buf, VERSION, recs);
    assert(parsed(img) == Some(recs));
    assert(routes_of(img) =~= routes_view(routes));
    lemma_block_prefix(l, buf, VERSION, recs);
    let u = img.take(required_size(l, recs));
    assert(l.parse_records(u, HEADER_SIZE as int, read_u32(u, 4) as nat) == Some(recs));
    assert(routes_of(u) =~= routes_view(routes));
}

/// The size a routes block needs: eight bytes of header for no route, and for
/// one more route at the end, the size without it rounded up to eight, plus the
/// fixed part of a route record and the bytes of its interface name.
pub proof fn lemma_routes_size_push(routes: Seq<Route>, r: Route)
    ensures
        required_size(route_layout(), route_records(Seq::empty())) == HEADER_SIZE,
        required_size(route_layout(), route_records(routes.push(r)))
            == spec_align_up(required_size(route_layout(), route_records(routes)), 8) + ROUTE_HEAD_SIZE
                + encode_utf8(r.iface@).len(),
{
    lemma_required_size_push(route_layout(), route_records(routes), route_record(r));
    assert(route_records(routes.push(r)) =~= route_records(routes).push(route_record(r)));
    assert(route_records(Seq::empty()) =~= Seq::<RawRecord>::empty());
    lemma_le_bytes_len(encode_utf8(r.iface@).len() as u32 as nat, 4);
    lemma_le_bytes_len(r.metric as u64 as nat, 8);
    assert(address_bytes(r.prefix.address).len() == 16);
    assert(gateway_bytes(r.gateway).len() == 16);
    assert(route_record(r).0.len() == 48);
}

/// The bytes that a server wrote in answer to a listing hold a readable block.
pub open spec fn list_reply_ok(bytes: Seq<u8>) -> bool {
    &&& bytes.len() >= HEADER_SIZE
    &&& bytes.len() + 8 <= usize::MAX
    &&& read_u32(bytes, 0) == VERSION
    &&& routes_readable(bytes)
}

} // verus!
