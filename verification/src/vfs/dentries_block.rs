//! The DentriesBlock: the entries of a directory, written by the VFS server
//! into a buffer of the client.
//!
//! Layout: the block header, then from offset 8 one record per entry,
//! 4-byte aligned: the node type byte and three zero bytes, `name_len: u32`,
//! then the name bytes.
use vstd::prelude::*;
use vstd::string::StringSliceAdditionalSpecFns;
use vstd::utf8::{encode_utf8, decode_utf8, valid_utf8};
use crate::layout::{read_u32, u32_bytes, lemma_u32_roundtrip, lemma_le_bytes_len};
use crate::record_block::{
    RecordLayout, RawRecord, ExecRecord, raws, block_image, build_into, read_header, read_records, required_size,
    lemma_block_roundtrip, lemma_block_prefix, lemma_required_size, lemma_fits_larger, lemma_parse_len, lemma_parse_ok, push_u32,
    exec_payload_string, exec_string_payload, HEADER_SIZE,
};
use crate::text::lemma_utf8_roundtrip;
use super::types::NodeType;

verus! {

/// Version of the DentriesBlock format.
pub const VERSION: u32 = 1;

/// An entry of a directory.
#[derive(Debug, Clone)]
pub struct DirectoryEntry {
    /// Name of the entry, e.g. "file.txt"
    pub name: String,

    /// Type of the entry (file, directory, or symlink).
    pub node_type: NodeType,
}

impl DirectoryEntry {
    pub open spec fn view(&self) -> (Seq<char>, NodeType) {
        (self.name@, self.node_type)
    }
}

pub open spec fn entries_view(entries: Seq<DirectoryEntry>) -> Seq<(Seq<char>, NodeType)> {
    entries.map_values(|e: DirectoryEntry| e.view())
}

/// Shape of a directory entry record.
pub open spec fn dentry_layout() -> RecordLayout {
    RecordLayout { head_size: 8, align: 4, len_at: 4, second_len_at: None }
}

fn exec_dentry_layout() -> (r: RecordLayout)
    ensures
        r == dentry_layout(),
{
    RecordLayout { head_size: 8, align: 4, len_at: 4, second_len_at: None }
}

/// The record of an entry.
pub open spec fn dentry_record(name: Seq<char>, node_type: NodeType) -> RawRecord {
    (
        seq![node_type.spec_code(), 0u8, 0u8, 0u8] + u32_bytes(encode_utf8(name).len() as u32),
        encode_utf8(name),
    )
}

pub open spec fn dentry_records(entries: Seq<DirectoryEntry>) -> Seq<RawRecord> {
    entries.map_values(|e: DirectoryEntry| dentry_record(e.name@, e.node_type))
}

/// A record holds a known node type and a valid UTF-8 name.
pub open spec fn dentry_valid(r: RawRecord) -> bool {
    NodeType::spec_from_code(r.0[0]) is Some && valid_utf8(r.1)
}

/// The entry of a valid record.
pub open spec fn dentry_of(r: RawRecord) -> (Seq<char>, NodeType) {
    (decode_utf8(r.1), NodeType::spec_from_code(r.0[0]).unwrap())
}

/// The fixed part of a directory entry record.
pub struct DentryEntry {
    pub node_type: NodeType,
    pub name_len: u32,
}

impl DentryEntry {
    /// Size of the record: the fixed part and the name.
    pub fn total_size(&self) -> (r: usize)
        requires
            8 + self.name_len <= usize::MAX,
        ensures
            r == 8 + self.name_len,
    {
        8 + self.name_len as usize
    }
}

/// Errors when reading a DentriesBlock.
#[derive(Debug, Clone, Copy, PartialEq, Eq, Structural)]
pub enum DentriesBlockReadError {
    InvalidVersion,
}

/// The records of the buffer, as its header counts them.
pub open spec fn parsed(buf: Seq<u8>) -> Option<Seq<RawRecord>> {
    dentry_layout().parse_records(buf, HEADER_SIZE as int, read_u32(buf, 4) as nat)
}

/// The buffer holds a block whose records all lie inside it and are valid.
pub open spec fn dentries_readable(buf: Seq<u8>) -> bool {
    &&& parsed(buf) is Some
    &&& forall|i: int| 0 <= i < parsed(buf).unwrap().len() ==> dentry_valid(#[trigger] parsed(buf).unwrap()[i])
}

/// The entries that a readable buffer holds.
pub open spec fn dentries_of(buf: Seq<u8>) -> Seq<(Seq<char>, NodeType)> {
    parsed(buf).unwrap().map_values(|r: RawRecord| dentry_of(r))
}

fn exec_dentry_record(e: &DirectoryEntry) -> (r: ExecRecord)
    ensures
        r.raw() == dentry_record(e.name@, e.node_type),
{
    let payload = exec_string_payload(e.name.as_str());
    let mut head: Vec<u8> = Vec::new();
    head.push(e.node_type.code());
    head.push(0u8);
    head.push(0u8);
    head.push(0u8);
    push_u32(&mut head, #[verifier::truncate] (payload.len() as u32));
    proof {
        assert(head@ =~= dentry_record(e.name@, e.node_type).0);
    }
    ExecRecord { head, payload }
}

/// The record of an entry short enough for the format reads back as it.
pub proof fn lemma_dentry_record(name: Seq<char>, node_type: NodeType)
    requires
        encode_utf8(name).len() <= u32::MAX,
    ensures
        dentry_layout().record_ok(dentry_record(name, node_type)),
        dentry_valid(dentry_record(name, node_type)),
        dentry_of(dentry_record(name, node_type)) == (name, node_type),
{
    let r = dentry_record(name, node_type);
    let len = encode_utf8(name).len() as u32;
    lemma_le_bytes_len(len as nat, 4);
    lemma_u32_roundtrip(len, seq![node_type.spec_code(), 0u8, 0u8, 0u8], Seq::<u8>::empty());
    assert(seq![node_type.spec_code(), 0u8, 0u8, 0u8] + u32_bytes(len) + Seq::<u8>::empty() =~= r.0);
    lemma_utf8_roundtrip(name);
}

/// Directory entries block format for IPC communication.
pub struct DentriesBlock;

impl DentriesBlock {
    /// Builds a directory entries list into the provided buffer.
    ///
    /// Returns `Ok(bytes_written)` on success, or `Err(required_size)` if the buffer is too small.
    pub fn build(entries: &[DirectoryEntry], buffer: &mut [u8]) -> (r: Result<usize, usize>)
        requires
            old(buffer)@.len() + 8 <= usize::MAX,
        ensures
            final(buffer)@.len() == old(buffer)@.len(),
            ({
                let size = required_size(dentry_layout(), dentry_records(entries@));
                &&& size + 16 > usize::MAX ==> r is Err && final(buffer)@ == old(buffer)@
                &&& size + 16 <= usize::MAX && old(buffer)@.len() < size ==> r == Err::<usize, usize>(size as usize) && final(buffer)@ == old(buffer)@
                &&& size + 16 <= usize::MAX && old(buffer)@.len() >= size ==> r == Ok::<usize, usize>(size as usize)
                    && final(buffer)@ == block_image(dentry_layout(), old(buffer)@, VERSION, dentry_records(entries@))
            }),
    {
        let mut recs: Vec<ExecRecord> = Vec::new();
        let mut i: usize = 0;
        while i < entries.len()
            invariant
                i <= entries@.len(),
                raws(recs@) == dentry_records(entries@.take(i as int)),
            decreases entries@.len() - i,
        {
            let rec = exec_dentry_record(&entries[i]);
            let ghost prev = recs@;
            recs.push(rec);
            proof {
                assert(entries@.take(i + 1) =~= entries@.take(i as int).push(entries@[i as int]));
                assert(raws(recs@) =~= raws(prev).push(rec.raw()));
                assert(dentry_records(entries@.take(i + 1)) =~= dentry_records(entries@.take(i as int)).push(rec.raw()));
            }
            i = i + 1;
        }
        proof {
            assert(entries@.take(entries@.len() as int) =~= entries@);
        }
        let l = exec_dentry_layout();
        build_into(&l, VERSION, &recs, buffer)
    }

    /// Reads a directory entries list from the provided buffer.
    ///
    /// Returns a vector of DirectoryEntry on success, or an error if we get the wrong version.
    pub fn read(buffer: &[u8]) -> (r: Result<Vec<DirectoryEntry>, DentriesBlockReadError>)
        requires
            buffer@.len() >= HEADER_SIZE,
            buffer@.len() + 8 <= usize::MAX,
            read_u32(buffer@, 0) == VERSION ==> dentries_readable(buffer@),
        ensures
            read_u32(buffer@, 0) != VERSION ==> r == Err::<Vec<DirectoryEntry>, DentriesBlockReadError>(DentriesBlockReadError::InvalidVersion),
            read_u32(buffer@, 0) == VERSION ==> (r matches Ok(v) && entries_view(v@) == dentries_of(buffer@)),
    {
        let (version, count) = read_header(buffer);
        if version != VERSION {
            return Err(DentriesBlockReadError::InvalidVersion);
        }
        let l = exec_dentry_layout();
        let recs = read_records(&l, buffer, HEADER_SIZE, count);
        let ghost all = raws(recs@);
        proof {
            lemma_parse_len(dentry_layout(), buffer@, HEADER_SIZE as int, count as nat);
            lemma_parse_ok(dentry_layout(), buffer@, HEADER_SIZE as int, count as nat);
        }
        let mut result: Vec<DirectoryEntry> = Vec::with_capacity(count as usize);
        let mut i: usize = 0;
        while i < recs.len()
            invariant
                i <= recs@.len(),
                all == raws(recs@),
                all == parsed(buffer@).unwrap(),
                dentries_readable(buffer@),
                dentry_layout().records_ok(all),
                entries_view(result@) == all.take(i as int).map_values(|r: RawRecord| dentry_of(r)),
            decreases recs@.len() - i,
        {
            let rec = &recs[i];
            proof {
                assert(all[i as int] == rec.raw());
                assert(dentry_valid(all[i as int]));
                assert(dentry_layout().record_ok(all[i as int]));
            }
            let node_type = NodeType::from_code(rec.head[0]).unwrap();
            let name = exec_payload_string(rec);
            let ghost prev = result@;
            result.push(DirectoryEntry { name, node_type });
            proof {
                assert(all.take(i + 1) =~= all.take(i as int).push(all[i as int]));
                assert(entries_view(result@) =~= entries_view(prev).push(result@[i as int].view()));
                assert(entries_view(result@) =~= all.take(i + 1).map_values(|r: RawRecord| dentry_of(r)));
            }
            i = i + 1;
        }
        proof {
            assert(all.take(all.len() as int) =~= all);
        }
        Ok(result)
    }
}

/// Every name is short enough for the format, and the count fits.
pub open spec fn entries_fit(entries: Seq<DirectoryEntry>) -> bool {
    &&& entries.len() <= u32::MAX
    &&& forall|i: int| 0 <= i < entries.len() ==> encode_utf8((#[trigger] entries[i]).name@).len() <= u32::MAX
}

/// A list of entries written into a large enough buffer reads back unchanged,
/// and so do the first bytes of the buffer, as many as the build reported.
pub proof fn lemma_dentries_build_then_read(entries: Seq<DirectoryEntry>, buf: Seq<u8>)
    requires
        entries_fit(entries),
        buf.len() >= required_size(dentry_layout(), dentry_records(entries)),
    ensures
        ({
            let img = block_image(dentry_layout(), buf, VERSION, dentry_records(entries));
            &&& img.len() == buf.len()
            &&& read_u32(img, 0) == VERSION
            &&& dentries_readable(img)
            &&& dentries_of(img) == entries_view(entries)
            &&& dentry_layout().records_ok(dentry_records(entries))
            &&& img.take(required_size(dentry_layout(), dentry_records(entries))).len() == required_size(dentry_layout(), dentry_records(entries))
            &&& read_u32(img.take(required_size(dentry_layout(), dentry_records(entries))), 0) == VERSION
            &&& dentries_readable(img.take(required_size(dentry_layout(), dentry_records(entries))))
            &&& dentries_of(img.take(required_size(dentry_layout(), dentry_records(entries)))) == entries_view(entries)
        }),
{
    let l = dentry_layout();
    let recs = dentry_records(entries);
    assert forall|i: int| 0 <= i < recs.len() implies l.record_ok(#[trigger] recs[i]) && dentry_valid(recs[i])
        && dentry_of(recs[i]) == entries[i].view() by {
        lemma_dentry_record(entries[i].name@, entries[i].node_type);
    }
    lemma_required_size(l, recs);
    lemma_fits_larger(l, required_size(l, recs), buf.len() as int, l.first_offset(), recs);
    lemma_block_roundtrip(l, buf, VERSION, recs);
    let img = block_image(l, buf, VERSION, recs);
    assert(parsed(img) == Some(recs));
    assert(dentries_of(img) =~= entries_view(entries));
    lemma_block_prefix(l, buf, VERSION, recs);
    let u = img.take(required_size(l, recs));
    assert(l.parse_records(u, HEADER_SIZE as int, read_u32(u, 4) as nat) == Some(recs));
    assert(dentries_of(u) =~= entries_view(entries));
}

/// The bytes that a server wrote in answer to a listing hold a readable block.
pub open spec fn list_reply_ok(bytes: Seq<u8>) -> bool {
    &&& bytes.len() >= HEADER_SIZE
    &&& bytes.len() + 8 <= usize::MAX
    &&& read_u32(bytes, 0) == VERSION
    &&& dentries_readable(bytes)
}

} // verus!
