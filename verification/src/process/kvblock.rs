//! The KVBlock: a list of key/value string pairs stored in a memory object,
//! used for the environment and the arguments of a process.
//!
//! Layout: the block header (`version`, `entry_count`), then from offset 8
//! one record per entry, 4-byte aligned: `key_len: u32`, `value_len: u32`,
//! the key bytes, the value bytes. The memory object is rounded up to whole
//! pages.
use vstd::prelude::*;
use vstd::utf8::{valid_utf8, decode_utf8, encode_utf8};
use vstd::string::StringSliceAdditionalSpecFns;
use crate::layout::{
    PAGE_SIZE, spec_align_up, align_up, read_u32, u32_bytes, get_u32, u32_to_le, lemma_u32_roundtrip,
    lemma_le_value_ext, lemma_align_up_bounds, lemma_align_up_shift, splice,
};
use crate::record_block::{
    RecordLayout, RawRecord, ExecRecord, raws, block_image, write_block, fits, header_bytes,
    lemma_parse_written, lemma_write_records_frame, lemma_first_offset, HEADER_SIZE,
    lemma_next_offset_grows, lemma_parse_len, pair_layout, exec_pair_layout, pair_record, pair_valid,
    pair_of, exec_pair_record, lemma_pair_record,
};
use crate::kobject::MemoryObject;
use crate::layout::{put_bytes, lemma_le_bytes_len};
use crate::record_block::{push_u32};
use crate::text::{str_from_utf8, lemma_str_of_bytes, lemma_utf8_roundtrip};

verus! {

/// Version of the KVBlock format.
pub const VERSION: u32 = 1;

/// The records of a list of entries.
pub open spec fn kv_records(entries: Seq<(&str, &str)>) -> Seq<RawRecord> {
    entries.map_values(|e: (&str, &str)| pair_record(e.0@, e.1@))
}

/// The entries as character sequences.
pub open spec fn entries_view(entries: Seq<(&str, &str)>) -> Seq<(Seq<char>, Seq<char>)> {
    entries.map_values(|e: (&str, &str)| (e.0@, e.1@))
}

/// Bytes used by the header and the records of `entries`, padding included.
pub open spec fn kv_used_size(entries: Seq<(&str, &str)>) -> int {
    pair_layout().records_next(HEADER_SIZE as int, kv_records(entries))
}

/// Size of the memory object that holds the block of `entries`.
pub open spec fn kv_object_size(entries: Seq<(&str, &str)>) -> int {
    spec_align_up(kv_used_size(entries), PAGE_SIZE as int)
}

/// The bytes of the memory object built from `entries`.
pub open spec fn kv_image(entries: Seq<(&str, &str)>) -> Seq<u8> {
    block_image(
        pair_layout(),
        Seq::new(kv_object_size(entries) as nat, |i: int| 0u8),
        VERSION,
        kv_records(entries),
    )
}


/// The fixed part of a KVBlock record: the lengths of the key and of the value.
pub struct KVEntry {
    pub key_len: u32,
    pub value_len: u32,
}

impl KVEntry {
    /// Size of the record: the two lengths, the key and the value.
    pub fn total_size(&self) -> (r: usize)
        requires
            8 + self.key_len + self.value_len <= usize::MAX,
        ensures
            r == 8 + self.key_len + self.value_len,
    {
        8 + self.key_len as usize + self.value_len as usize
    }
}

/// Builder for creating a KVBlock.
pub struct KVBlockBuilder {
    mobj: MemoryObject,
    current_entry_offset: usize,
}

impl View for KVBlockBuilder {
    type V = Seq<u8>;

    closed spec fn view(&self) -> Seq<u8> {
        self.mobj@
    }
}

impl KVBlockBuilder {
    /// Where the next record goes.
    pub closed spec fn entry_offset(&self) -> int {
        self.current_entry_offset as int
    }

    /// A builder over a zeroed memory object of `total_size` bytes rounded up
    /// to whole pages; the first record goes right after the header.
    pub fn new(total_size: usize) -> (r: KVBlockBuilder)
        requires
            spec_align_up(total_size as int, PAGE_SIZE as int) <= usize::MAX,
        ensures
            r@ == Seq::new(spec_align_up(total_size as int, PAGE_SIZE as int) as nat, |i: int| 0u8),
            r.entry_offset() == HEADER_SIZE,
    {
        let mobj_size = align_up(total_size, PAGE_SIZE);
        let mobj = MemoryObject::create(mobj_size);
        let current_entry_offset = align_up(HEADER_SIZE, 4);
        KVBlockBuilder { mobj, current_entry_offset }
    }

    /// Writes the header.
    pub fn set_header(&mut self, version: u32, entry_count: u32)
        requires
            old(self)@.len() >= HEADER_SIZE,
        ensures
            final(self)@ == splice(old(self)@, 0, header_bytes(version, entry_count)),
            final(self).entry_offset() == old(self).entry_offset(),
    {
        let mut head: Vec<u8> = Vec::new();
        push_u32(&mut head, version);
        push_u32(&mut head, entry_count);
        proof {
            lemma_le_bytes_len(version as nat, 4);
            lemma_le_bytes_len(entry_count as nat, 4);
        }
        put_bytes(self.mobj.as_mut_slice(), 0, head.as_slice());
    }

    /// Writes the record of `key` and `value` and moves past it, keeping the
    /// records 4-byte aligned.
    pub fn add_entry(&mut self, key: &str, value: &str)
        requires
            old(self).entry_offset() + 8 + key.spec_bytes().len() + value.spec_bytes().len() <= old(self)@.len(),
            old(self)@.len() + 8 <= usize::MAX,
        ensures
            final(self)@ == splice(old(self)@, old(self).entry_offset(), pair_record(key@, value@).0 + pair_record(key@, value@).1),
            final(self).entry_offset() == pair_layout().next_offset(
                old(self).entry_offset(),
                8 + (key.spec_bytes().len() as u32) + (value.spec_bytes().len() as u32),
            ),
    {
        let offset = self.current_entry_offset;
        let kb = key.as_bytes();
        let vb = value.as_bytes();
        let entry = KVEntry {
            key_len: #[verifier::truncate] (kb.len() as u32),
            value_len: #[verifier::truncate] (vb.len() as u32),
        };
        let mut head: Vec<u8> = Vec::new();
        push_u32(&mut head, entry.key_len);
        push_u32(&mut head, entry.value_len);
        proof {
            lemma_le_bytes_len(entry.key_len as nat, 4);
            lemma_le_bytes_len(entry.value_len as nat, 4);
        }
        let ghost before = self.mobj@;
        put_bytes(self.mobj.as_mut_slice(), offset, head.as_slice());
        put_bytes(self.mobj.as_mut_slice(), offset + 8, kb);
        put_bytes(self.mobj.as_mut_slice(), offset + 8 + kb.len(), vb);
        proof {
            assert(self.mobj@ =~= splice(before, offset as int, pair_record(key@, value@).0 + pair_record(key@, value@).1));
            lemma_next_offset_grows(pair_layout(), offset as int, 8 + entry.key_len + entry.value_len);
        }
        self.current_entry_offset = offset + align_up(entry.total_size(), 4);
    }

    /// The memory object that was built.
    pub fn build(self) -> (r: MemoryObject)
        ensures
            r@ == self@,
    {
        self.mobj
    }
}

/// Errors when loading a KVBlock.
#[derive(Debug, Clone, Copy, PartialEq, Eq)]
pub enum KVBlockLoadError {
    InvalidVersion,
}

/// A key/value block held in a memory object.
pub struct KVBlock {
    mobj: MemoryObject,
}

impl View for KVBlock {
    type V = Seq<u8>;

    closed spec fn view(&self) -> Seq<u8> {
        self.mobj@
    }
}

impl KVBlock {
    /// The version stored in the header.
    pub open spec fn version(&self) -> u32 {
        read_u32(self@, 0)
    }

    /// The entry count stored in the header.
    pub open spec fn count(&self) -> u32 {
        read_u32(self@, 4)
    }

    /// The raw records, when they all lie inside the block.
    pub open spec fn records(&self) -> Option<Seq<RawRecord>> {
        pair_layout().parse_records(self@, HEADER_SIZE as int, self.count() as nat)
    }

    /// The block can be read: every record lies inside it and holds valid UTF-8.
    pub open spec fn wf(&self) -> bool {
        &&& self@.len() >= HEADER_SIZE
        &&& self@.len() + 8 <= usize::MAX
        &&& self.records() is Some
        &&& forall|i: int| 0 <= i < self.records().unwrap().len() ==> pair_valid(#[trigger] self.records().unwrap()[i])
    }

    /// The entries of the block, in order.
    pub open spec fn entries(&self) -> Seq<(Seq<char>, Seq<char>)> {
        self.records().unwrap().map_values(|r: RawRecord| pair_of(r))
    }

    /// Creates a KVBlock from a list of key-value string entries.
    pub fn build(entries: &[(&str, &str)]) -> (r: MemoryObject)
        requires
            kv_object_size(entries@) + 16 <= usize::MAX,
        ensures
            r@ == kv_image(entries@),
    {
        let l = exec_pair_layout();
        let ghost recs = kv_records(entries@);
        // size of the block
        let mut total: usize = HEADER_SIZE;
        let mut i: usize = 0;
        proof {
            lemma_used_size_bound(entries@);
            assert(recs.skip(0) =~= recs);
        }
        while i < entries.len()
            invariant
                i <= entries@.len(),
                recs == kv_records(entries@),
                kv_object_size(entries@) + 16 <= usize::MAX,
                total >= HEADER_SIZE,
                total % 4 == 0,
                pair_layout().records_next(total as int, recs.skip(i as int)) == kv_used_size(entries@),
            decreases entries@.len() - i,
        {
            let (k, v) = entries[i];
            proof {
                let gsize: int = (8 + k.spec_bytes().len() + v.spec_bytes().len()) as int;
                assert(recs[i as int] == pair_record(k@, v@));
                lemma_le_len(k@, v@);
                assert(recs.skip(i as int)[0] == recs[i as int]);
                assert(recs.skip(i as int).drop_first() =~= recs.skip(i + 1));
                lemma_next_offset_grows(pair_layout(), total as int, gsize);
                lemma_records_next_ge(pair_layout(), pair_layout().next_offset(total as int, gsize), recs.skip(i + 1));
                lemma_align_up_shift(total as int, gsize, 4);
                lemma_align_up_bounds(gsize, 4);
            }
            let size = 8 + k.len() + v.len();
            total = align_up(total + size, 4);
            i = i + 1;
        }
        proof {
            assert(recs.skip(i as int).len() == 0);
            lemma_align_up_bounds(total as int, PAGE_SIZE as int);
        }
        let mobj_size = align_up(total, PAGE_SIZE);
        let mut mobj = MemoryObject::create(mobj_size);
        let recs_exec = records_of(entries);
        proof {
            lemma_used_size_bound(entries@);
            lemma_fits_next(pair_layout(), mobj_size as int, HEADER_SIZE as int, recs);
        }
        write_block(&l, VERSION, &recs_exec, mobj.as_mut_slice());
        mobj
    }

    /// Creates a KVBlock from a memory object.
    ///
    /// Returns an error if the KVBlock version is unsupported.
    pub fn from_memory_object(mobj: MemoryObject) -> (r: Result<KVBlock, KVBlockLoadError>)
        requires
            mobj@.len() >= HEADER_SIZE,
        ensures
            read_u32(mobj@, 0) != VERSION ==> r == Err::<KVBlock, KVBlockLoadError>(KVBlockLoadError::InvalidVersion),
            read_u32(mobj@, 0) == VERSION ==> (r matches Ok(b) && b@ == mobj@),
    {
        let version = get_u32(mobj.as_slice(), 0);
        if version != VERSION {
            return Err(KVBlockLoadError::InvalidVersion);
        }
        Ok(KVBlock { mobj })
    }

    /// Returns the memory object backing this KVBlock.
    pub fn memory_object(&self) -> (r: &MemoryObject)
        ensures
            r@ == self@,
    {
        &self.mobj
    }

    /// Consumes the KVBlock and returns the underlying memory object.
    pub fn into_memory_object(self) -> (r: MemoryObject)
        ensures
            r@ == self@,
    {
        self.mobj
    }

    /// Returns the number of key-value entries in the KVBlock.
    pub fn len(&self) -> (r: usize)
        requires
            self@.len() >= HEADER_SIZE,
        ensures
            r == self.count(),
    {
        get_u32(self.mobj.as_slice(), 4) as usize
    }

    /// Returns an iterator over the key-value entries in the KVBlock.
    pub fn iter(&self) -> (r: KVBlockIterator<'_>)
        requires
            self.wf(),
        ensures
            r.owner() == self,
            r.index() == 0,
    {
        proof {
            assert(self.records().unwrap().skip(0) =~= self.records().unwrap());
            assert(self.records() == Some(self.records().unwrap()));
        }
        KVBlockIterator { owner: self, current_index: 0, current_offset: HEADER_SIZE }
    }

    /// Checks that the block can be read: every record lies inside it and
    /// holds valid UTF-8.
    pub fn well_formed(&self) -> (r: bool)
        ensures
            r == self.wf(),
    {
        let bytes = self.mobj.as_slice();
        let blen = bytes.len();
        if blen < HEADER_SIZE || blen > usize::MAX - 8 {
            return false;
        }
        let l = exec_pair_layout();
        let count = get_u32(bytes, 4);
        let mut off: usize = HEADER_SIZE;
        let mut i: u32 = 0;
        let ghost n = count as nat;
        while i < count
            invariant
                l == pair_layout(),
                bytes@ == self@,
                blen == bytes@.len(),
                blen + 8 <= usize::MAX,
                blen >= HEADER_SIZE,
                i <= count,
                count == self.count(),
                off <= blen + 8,
                // the block is well formed iff the remaining records are
                self.wf() == (pair_layout().parse_records(self@, off as int, (count - i) as nat) is Some
                    && forall|j: int| 0 <= j < pair_layout().parse_records(self@, off as int, (count - i) as nat).unwrap().len()
                        ==> pair_valid(#[trigger] pair_layout().parse_records(self@, off as int, (count - i) as nat).unwrap()[j])),
            decreases count - i,
        {
            if off > blen || blen - off < 8 {
                return false;
            }
            let plen = l.exec_payload_len(bytes, off);
            if plen > (blen - off - 8) as u64 {
                return false;
            }
            let klen = get_u32(bytes, off) as usize;
            let plen = plen as usize;
            let ghost head = bytes@.subrange(off as int, off + 8);
            proof {
                assert(bytes@.subrange(off as int, off + 4) =~= head.subrange(0, 4));
                lemma_le_value_ext(bytes@, off as int, head, 0, 4);
            }
            let key_ok = str_from_utf8(&bytes[off + 8..off + 8 + klen]).is_some();
            let value_ok = str_from_utf8(&bytes[off + 8 + klen..off + 8 + plen]).is_some();
            let ghost payload = bytes@.subrange(off + 8, off + 8 + plen);
            proof {
                assert(payload.take(klen as int) =~= bytes@.subrange(off + 8, off + 8 + klen));
                assert(payload.skip(klen as int) =~= bytes@.subrange(off + 8 + klen, off + 8 + plen));
                lemma_next_offset_grows(pair_layout(), off as int, (8 + plen) as int);
            }
            let next = off + align_up(8 + plen, 4);
            proof {
                let cur = pair_layout().parse_records(self@, off as int, (count - i) as nat);
                let rest = pair_layout().parse_records(self@, next as int, (count - i - 1) as nat);
                assert(pair_valid((head, payload)) == (key_ok && value_ok));
                if rest is Some {
                    let c = cur.unwrap();
                    assert(c =~= seq![(head, payload)] + rest.unwrap());
                    if key_ok && value_ok {
                        assert forall|j: int| 0 <= j < rest.unwrap().len() implies
                            (pair_valid(#[trigger] rest.unwrap()[j]) == pair_valid(c[j + 1])) by {
                            assert(c[j + 1] == rest.unwrap()[j]);
                        }
                        assert((forall|j: int| 0 <= j < c.len() ==> pair_valid(#[trigger] c[j]))
                            == (forall|j: int| 0 <= j < rest.unwrap().len() ==> pair_valid(#[trigger] rest.unwrap()[j]))) by {
                            if forall|j: int| 0 <= j < rest.unwrap().len() ==> pair_valid(#[trigger] rest.unwrap()[j]) {
                                assert forall|j: int| 0 <= j < c.len() implies pair_valid(#[trigger] c[j]) by {
                                    if j > 0 {
                                        assert(c[j] == rest.unwrap()[j - 1]);
                                    }
                                }
                            }
                        }
                    } else {
                        assert(!pair_valid(c[0]));
                    }
                }
            }
            if !(key_ok && value_ok) {
                return false;
            }
            off = next;
            i = i + 1;
        }
        true
    }
}

/// Iterator over the key-value entries in a KVBlock.
pub struct KVBlockIterator<'a> {
    owner: &'a KVBlock,
    current_index: u32,
    current_offset: usize,
}

impl<'a> KVBlockIterator<'a> {
    /// The block being walked.
    pub closed spec fn owner(&self) -> &'a KVBlock {
        self.owner
    }

    /// The index of the next entry.
    pub closed spec fn index(&self) -> int {
        self.current_index as int
    }

    #[verifier::type_invariant]
    closed spec fn inv(&self) -> bool {
        &&& self.owner.wf()
        &&& self.current_index <= self.owner.count()
        &&& pair_layout().parse_records(self.owner@, self.current_offset as int, (self.owner.count() - self.current_index) as nat)
            == Some(self.owner.records().unwrap().skip(self.current_index as int))
    }

    /// Returns the next entry, if any.
    pub fn next(&mut self) -> (r: Option<(&'a str, &'a str)>)
        ensures
            final(self).owner() == old(self).owner(),
            old(self).index() < old(self).owner().count() ==> {
                &&& final(self).index() == old(self).index() + 1
                &&& (r matches Some(e) && (e.0@, e.1@) == old(self).owner().entries()[old(self).index()])
            },
            old(self).index() >= old(self).owner().count() ==> r is None && final(self).index() == old(self).index(),
    {
        proof {
            use_type_invariant(&*self);
        }
        let owner: &'a KVBlock = self.owner;
        let bytes: &'a [u8] = owner.mobj.as_slice();
        let count = get_u32(bytes, 4);
        if self.current_index >= count {
            return None;
        }
        let off = self.current_offset;
        let ghost recs = owner.records().unwrap();
        let ghost idx = self.current_index as int;
        let ghost here = pair_layout().parse_records(owner@, off as int, (count - self.current_index) as nat).unwrap();
        proof {
            lemma_parse_len(pair_layout(), owner@, HEADER_SIZE as int, owner.count() as nat);
            assert(here[0] == recs[idx]);
            assert(pair_valid(recs[idx]));
        }
        let l = exec_pair_layout();
        let plen = l.exec_payload_len(bytes, off) as usize;
        let klen = get_u32(bytes, off) as usize;
        let ghost head = bytes@.subrange(off as int, off + 8);
        let ghost payload = bytes@.subrange(off + 8, off + 8 + plen);
        proof {
            assert(bytes@.subrange(off as int, off + 4) =~= head.subrange(0, 4));
            lemma_le_value_ext(bytes@, off as int, head, 0, 4);
            assert(here[0] == (head, payload));
            assert(payload.take(klen as int) =~= bytes@.subrange(off + 8, off + 8 + klen));
            assert(payload.skip(klen as int) =~= bytes@.subrange(off + 8 + klen, off + 8 + plen));
        }
        let key = str_from_utf8(&bytes[off + 8..off + 8 + klen]).unwrap();
        let value = str_from_utf8(&bytes[off + 8 + klen..off + 8 + plen]).unwrap();
        proof {
            lemma_str_of_bytes(key, payload.take(klen as int));
            lemma_str_of_bytes(value, payload.skip(klen as int));
            lemma_next_offset_grows(pair_layout(), off as int, (8 + plen) as int);
        }
        let next = off + align_up(8 + plen, 4);
        let new_index = self.current_index + 1;
        proof {
            assert(recs.skip(idx + 1) =~= recs.skip(idx).drop_first());
            assert(here.drop_first() =~= pair_layout().parse_records(owner@, next as int, (count - new_index) as nat).unwrap());
        }
        *self = KVBlockIterator { owner, current_index: new_index, current_offset: next };
        Some((key, value))
    }

    /// Walks the remaining entries and gathers them, in order: for a fresh
    /// iterator, every entry of the block.
    pub fn collect(self) -> (r: Vec<(&'a str, &'a str)>)
        ensures
            r@.len() == self.owner().count() - self.index(),
            forall|i: int| 0 <= i < r@.len() ==> (#[trigger] r@[i].0@, r@[i].1@) == self.owner().entries()[self.index() + i],
    {
        proof {
            use_type_invariant(&self);
        }
        let ghost owner = self.owner();
        let ghost start = self.index();
        let mut it = self;
        let mut out: Vec<(&'a str, &'a str)> = Vec::new();
        loop
            invariant
                it.owner() == owner,
                start <= it.index() <= owner.count(),
                out@.len() == it.index() - start,
                forall|i: int| 0 <= i < out@.len() ==> (#[trigger] out@[i].0@, out@[i].1@) == owner.entries()[start + i],
            ensures
                it.index() == owner.count(),
                out@.len() == it.index() - start,
                forall|i: int| 0 <= i < out@.len() ==> (#[trigger] out@[i].0@, out@[i].1@) == owner.entries()[start + i],
            decreases owner.count() - it.index(),
        {
            proof {
                use_type_invariant(&it);
            }
            match it.next() {
                Some(e) => {
                    out.push(e);
                },
                None => {
                    break;
                },
            }
        }
        out
    }
}

/// The records of `entries`, as bytes.
fn records_of(entries: &[(&str, &str)]) -> (r: Vec<ExecRecord>)
    ensures
        raws(r@) == kv_records(entries@),
{
    let mut out: Vec<ExecRecord> = Vec::new();
    let mut i: usize = 0;
    while i < entries.len()
        invariant
            i <= entries@.len(),
            raws(out@) == kv_records(entries@.take(i as int)),
        decreases entries@.len() - i,
    {
        let (k, v) = entries[i];
        let rec = exec_pair_record(k, v);
        let ghost prev = out@;
        out.push(rec);
        proof {
            assert(entries@.take(i + 1) =~= entries@.take(i as int).push((k, v)));
            assert(raws(out@) =~= raws(prev).push(pair_record(k@, v@)));
            assert(kv_records(entries@.take(i + 1)) =~= kv_records(entries@.take(i as int)).push(pair_record(k@, v@)));
        }
        i = i + 1;
    }
    assert(entries@.take(entries@.len() as int) =~= entries@);
    out
}

proof fn lemma_le_len(k: Seq<char>, v: Seq<char>)
    ensures
        pair_record(k, v).0.len() == 8,
        pair_record(k, v).1.len() == encode_utf8(k).len() + encode_utf8(v).len(),
{
    crate::layout::lemma_le_bytes_len(encode_utf8(k).len() as u32 as nat, 4);
    crate::layout::lemma_le_bytes_len(encode_utf8(v).len() as u32 as nat, 4);
}

/// The used size bounds every offset reached while walking the records.
proof fn lemma_records_next_ge(l: RecordLayout, off: int, recs: Seq<RawRecord>)
    requires
        l.wf(),
    ensures
        l.records_next(off, recs) >= off,
    decreases recs.len(),
{
    if recs.len() > 0 {
        let size = (recs[0].0.len() + recs[0].1.len()) as int;
        lemma_next_offset_grows(l, off, size);
        lemma_records_next_ge(l, l.next_offset(off, size), recs.drop_first());
    }
}

proof fn lemma_used_size_bound(entries: Seq<(&str, &str)>)
    ensures
        kv_used_size(entries) >= HEADER_SIZE,
        kv_object_size(entries) >= kv_used_size(entries),
{
    lemma_records_next_ge(pair_layout(), HEADER_SIZE as int, kv_records(entries));
    lemma_align_up_bounds(kv_used_size(entries), PAGE_SIZE as int);
}

/// Records whose padded end lies inside the buffer fit in it.
pub proof fn lemma_fits_next(l: RecordLayout, len: int, off: int, recs: Seq<RawRecord>)
    requires
        l.wf(),
        off >= 0,
        l.records_next(off, recs) <= len,
    ensures
        fits(l, len, off, recs),
    decreases recs.len(),
{
    if recs.len() > 0 {
        let size = (recs[0].0.len() + recs[0].1.len()) as int;
        lemma_next_offset_grows(l, off, size);
        lemma_records_next_ge(l, l.next_offset(off, size), recs.drop_first());
        lemma_fits_next(l, len, l.next_offset(off, size), recs.drop_first());
    }
}

/// The entries of a block are small enough for the format: each string and
/// the count fit in a `u32`, and the block fits in memory.
pub open spec fn kv_entries_fit(entries: Seq<(&str, &str)>) -> bool {
    &&& entries.len() <= u32::MAX
    &&& forall|i: int| 0 <= i < entries.len() ==> {
        &&& (#[trigger] entries[i]).0.spec_bytes().len() <= u32::MAX
        &&& entries[i].1.spec_bytes().len() <= u32::MAX
    }
    &&& kv_object_size(entries) + 16 <= usize::MAX
}

/// The memory object built from `entries` starts with the header of the format.
pub proof fn lemma_kv_image_header(entries: Seq<(&str, &str)>)
    requires
        kv_entries_fit(entries),
    ensures
        kv_image(entries).len() == kv_object_size(entries),
        kv_image(entries).len() >= HEADER_SIZE,
        read_u32(kv_image(entries), 0) == VERSION,
        read_u32(kv_image(entries), 4) == entries.len(),
{
    let l = pair_layout();
    let recs = kv_records(entries);
    let size = kv_object_size(entries);
    let zeros = Seq::new(size as nat, |i: int| 0u8);
    let hdr = header_bytes(VERSION, recs.len() as u32);
    lemma_used_size_bound(entries);
    crate::layout::lemma_le_bytes_len(VERSION as nat, 4);
    crate::layout::lemma_le_bytes_len(recs.len() as u32 as nat, 4);
    let with_header = splice(zeros, 0, hdr);
    lemma_fits_next(l, size, HEADER_SIZE as int, recs);
    lemma_write_records_frame(l, with_header, HEADER_SIZE as int, recs);
    let img = kv_image(entries);
    assert forall|i: int| 0 <= i < 8 implies img[i] == hdr[i] by {
        assert(img[i] == with_header[i]);
    }
    assert(img.subrange(0, 4) =~= u32_bytes(VERSION));
    crate::layout::lemma_read_u32_at(img, 0, VERSION);
    assert(img.subrange(4, 8) =~= u32_bytes(recs.len() as u32));
    crate::layout::lemma_read_u32_at(img, 4, recs.len() as u32);
}

/// A block loaded from the memory object built from `entries` is well formed
/// and holds exactly `entries`, in order.
pub proof fn lemma_kv_build_then_load(entries: Seq<(&str, &str)>, b: KVBlock)
    requires
        kv_entries_fit(entries),
        b@ == kv_image(entries),
    ensures
        b.version() == VERSION,
        b.count() == entries.len(),
        b.wf(),
        b.entries() == entries_view(entries),
{
    let l = pair_layout();
    let recs = kv_records(entries);
    let size = kv_object_size(entries);
    let zeros = Seq::new(size as nat, |i: int| 0u8);
    let hdr = header_bytes(VERSION, recs.len() as u32);
    lemma_used_size_bound(entries);
    crate::layout::lemma_le_bytes_len(VERSION as nat, 4);
    crate::layout::lemma_le_bytes_len(recs.len() as u32 as nat, 4);
    let with_header = splice(zeros, 0, hdr);
    assert(with_header.len() == size);
    lemma_fits_next(l, size, HEADER_SIZE as int, recs);
    lemma_write_records_frame(l, with_header, HEADER_SIZE as int, recs);
    let img = kv_image(entries);
    assert(img == l.write_records(with_header, HEADER_SIZE as int, recs));
    // header
    assert(img.subrange(0, 8) =~= hdr) by {
        assert forall|i: int| 0 <= i < 8 implies img.subrange(0, 8)[i] == hdr[i] by {
            assert(img[i] == with_header[i]);
        }
    }
    assert(img.subrange(0, 4) =~= u32_bytes(VERSION) + Seq::<u8>::empty());
    assert((u32_bytes(VERSION) + Seq::<u8>::empty()).subrange(0, 4) =~= u32_bytes(VERSION) + Seq::<u8>::empty());
    lemma_u32_roundtrip(VERSION, Seq::<u8>::empty(), Seq::<u8>::empty());
    lemma_le_value_ext(img, 0, u32_bytes(VERSION) + Seq::<u8>::empty(), 0, 4);
    assert(Seq::<u8>::empty() + u32_bytes(VERSION) + Seq::<u8>::empty() =~= u32_bytes(VERSION) + Seq::<u8>::empty());
    assert(img.subrange(4, 8) =~= u32_bytes(recs.len() as u32));
    lemma_u32_roundtrip(recs.len() as u32, Seq::<u8>::empty(), Seq::<u8>::empty());
    assert(Seq::<u8>::empty() + u32_bytes(recs.len() as u32) + Seq::<u8>::empty() =~= u32_bytes(recs.len() as u32));
    assert(u32_bytes(recs.len() as u32).subrange(0, 4) =~= u32_bytes(recs.len() as u32));
    lemma_le_value_ext(img, 4, u32_bytes(recs.len() as u32), 0, 4);
    assert(b.count() == entries.len());
    // records
    assert forall|i: int| 0 <= i < recs.len() implies l.record_ok(#[trigger] recs[i]) by {
        let e = entries[i];
        lemma_le_len(e.0@, e.1@);
        let kl = encode_utf8(e.0@).len();
        let vl = encode_utf8(e.1@).len();
        lemma_u32_roundtrip(kl as u32, Seq::<u8>::empty(), u32_bytes(vl as u32));
        lemma_u32_roundtrip(vl as u32, u32_bytes(kl as u32), Seq::<u8>::empty());
        assert(Seq::<u8>::empty() + u32_bytes(kl as u32) + u32_bytes(vl as u32) =~= recs[i].0);
        assert(u32_bytes(kl as u32) + u32_bytes(vl as u32) + Seq::<u8>::empty() =~= recs[i].0);
    }
    lemma_first_offset(l);
    lemma_parse_written(l, with_header, HEADER_SIZE as int, recs);
    assert(b.records() == Some(recs));
    assert forall|i: int| 0 <= i < recs.len() implies pair_valid(#[trigger] recs[i])
        && pair_of(recs[i]) == (entries[i].0@, entries[i].1@) by {
        let e = entries[i];
        let kb = encode_utf8(e.0@);
        let vb = encode_utf8(e.1@);
        lemma_u32_roundtrip(kb.len() as u32, Seq::<u8>::empty(), u32_bytes(vb.len() as u32));
        assert(Seq::<u8>::empty() + u32_bytes(kb.len() as u32) + u32_bytes(vb.len() as u32) =~= recs[i].0);
        assert(recs[i].1.take(kb.len() as int) =~= kb);
        assert(recs[i].1.skip(kb.len() as int) =~= vb);
        lemma_utf8_roundtrip(e.0@);
        lemma_utf8_roundtrip(e.1@);
    }
    assert(b.entries() =~= entries_view(entries));
}

/// The bytes of a block that can be read: every record lies inside and holds valid UTF-8.
pub open spec fn kv_bytes_wf(bytes: Seq<u8>) -> bool {
    &&& bytes.len() >= HEADER_SIZE
    &&& bytes.len() + 8 <= usize::MAX
    &&& pair_layout().parse_records(bytes, HEADER_SIZE as int, read_u32(bytes, 4) as nat) is Some
    &&& forall|i: int| 0 <= i < pair_layout().parse_records(bytes, HEADER_SIZE as int, read_u32(bytes, 4) as nat).unwrap().len()
        ==> pair_valid(#[trigger] pair_layout().parse_records(bytes, HEADER_SIZE as int, read_u32(bytes, 4) as nat).unwrap()[i])
}

/// The entries held by the bytes of a readable block.
pub open spec fn kv_entries_of(bytes: Seq<u8>) -> Seq<(Seq<char>, Seq<char>)> {
    pair_layout().parse_records(bytes, HEADER_SIZE as int, read_u32(bytes, 4) as nat).unwrap().map_values(
        |r: RawRecord| pair_of(r),
    )
}

/// A block is well formed exactly when its bytes are, and its entries are
/// those its bytes hold.
pub proof fn lemma_wf_bytes(b: KVBlock)
    ensures
        b.wf() == kv_bytes_wf(b@),
        b.entries() == kv_entries_of(b@),
{
}

} // verus!
