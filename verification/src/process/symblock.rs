//! The SymBlock: the symbols of a program, sorted by address, stored in a
//! memory object for address-to-name lookups.
//!
//! Layout: a 16-byte header (`version: u32`, `entry_count: u32`,
//! `strings_offset: u32`, four padding bytes), then one 16-byte entry per
//! symbol (`address: u64`, `string_offset: u32`, `string_len: u32`), then
//! the names one after the other from `strings_offset`. The memory object is
//! rounded up to whole pages.
use vstd::prelude::*;
use vstd::string::StringSliceAdditionalSpecFns;
use vstd::utf8::{encode_utf8, decode_utf8, valid_utf8};
use crate::layout::{
    PAGE_SIZE, spec_align_up, align_up, lemma_align_up_bounds, read_u32, read_u64, u32_bytes, u64_bytes, splice,
    get_u32, get_u64, put_u32, put_u64, put_bytes, lemma_u32_roundtrip, lemma_u64_roundtrip, lemma_le_bytes_len,
    lemma_le_value_ext, lemma_read_u32_at, lemma_read_u64_at,
};
use crate::kobject::MemoryObject;
use crate::text::{str_from_utf8, lemma_str_of_bytes, lemma_utf8_roundtrip};
use crate::record_block::{push_u32, push_u64};
use std::collections::BTreeMap;
use vstd::std_specs::btree::increasing_seq;
use vstd::std_specs::iter::IteratorSpec;
use vstd::std_specs::cmp::OrdSpec;

verus! {

/// Version of the SymBlock format.
pub const VERSION: u32 = 1;

/// Size of the header.
pub const HEADER_SIZE: usize = 16;

/// Size of an entry.
pub const ENTRY_SIZE: usize = 16;

/// A symbol: its address and the bytes of its name.
pub type SymbolBytes = (usize, Seq<u8>);

/// Offset of the name of symbol `j`, for names stored from `base`.
pub open spec fn name_offset(syms: Seq<SymbolBytes>, base: int, j: int) -> int
    decreases j,
{
    if j <= 0 {
        base
    } else {
        name_offset(syms, base, j - 1) + syms[j - 1].1.len()
    }
}

/// Where the names start: after the header and the entries.
pub open spec fn strings_start(n: nat) -> int {
    HEADER_SIZE + ENTRY_SIZE * n
}

/// Bytes used by the block of `syms`.
pub open spec fn used_size(syms: Seq<SymbolBytes>) -> int {
    name_offset(syms, strings_start(syms.len()), syms.len() as int)
}

/// Size of the memory object that holds the block of `syms`.
pub open spec fn object_size(syms: Seq<SymbolBytes>) -> int {
    spec_align_up(used_size(syms), PAGE_SIZE as int)
}

/// The bytes of entry `i`.
pub open spec fn entry_bytes(address: usize, string_offset: int, string_len: int) -> Seq<u8> {
    u64_bytes(address as u64) + u32_bytes(string_offset as u32) + u32_bytes(string_len as u32)
}

/// `buf` with the entries and names of `syms` from index `i` written, names from `soff`.
pub open spec fn write_symbols(buf: Seq<u8>, syms: Seq<SymbolBytes>, i: nat, soff: int) -> Seq<u8>
    decreases syms.len() - i,
{
    if i >= syms.len() {
        buf
    } else {
        let name = syms[i as int].1;
        let b1 = splice(buf, HEADER_SIZE + ENTRY_SIZE * i, entry_bytes(syms[i as int].0, soff, name.len() as int));
        write_symbols(splice(b1, soff, name), syms, i + 1, soff + name.len())
    }
}

/// The header bytes (the padding word is left untouched).
pub open spec fn header_bytes(version: u32, count: u32, strings_offset: u32) -> Seq<u8> {
    u32_bytes(version) + u32_bytes(count) + u32_bytes(strings_offset)
}

/// Where the names start in the built block: the header stores the offset as a `u32`.
pub open spec fn names_start(n: nat) -> int {
    (strings_start(n) as u32) as int
}

/// The bytes of the memory object built from `syms`.
pub open spec fn sym_image(syms: Seq<SymbolBytes>) -> Seq<u8> {
    let n = syms.len();
    let zeros = Seq::new(object_size(syms) as nat, |i: int| 0u8);
    write_symbols(
        splice(zeros, 0, header_bytes(VERSION, n as u32, strings_start(n) as u32)),
        syms,
        0,
        names_start(n),
    )
}

/// Errors when loading a SymBlock.
#[derive(Debug, Clone, Copy, PartialEq, Eq, Structural)]
pub enum SymBlockLoadError {
    InvalidVersion,
}

/// A symbol block held in a memory object.
pub struct SymBlock {
    mobj: MemoryObject,
}

impl View for SymBlock {
    type V = Seq<u8>;

    closed spec fn view(&self) -> Seq<u8> {
        self.mobj@
    }
}

impl SymBlock {
    pub open spec fn version(&self) -> u32 {
        read_u32(self@, 0)
    }

    pub open spec fn count(&self) -> u32 {
        read_u32(self@, 4)
    }

    pub open spec fn entry_address(&self, i: int) -> u64 {
        read_u64(self@, HEADER_SIZE + ENTRY_SIZE * i)
    }

    pub open spec fn entry_string_offset(&self, i: int) -> u32 {
        read_u32(self@, HEADER_SIZE + ENTRY_SIZE * i + 8)
    }

    pub open spec fn entry_string_len(&self, i: int) -> u32 {
        read_u32(self@, HEADER_SIZE + ENTRY_SIZE * i + 12)
    }

    pub open spec fn name_bytes(&self, i: int) -> Seq<u8> {
        self@.subrange(
            self.entry_string_offset(i) as int,
            self.entry_string_offset(i) + self.entry_string_len(i),
        )
    }

    /// The block can be read: the entries and every name lie inside it, and
    /// every name is valid UTF-8.
    pub open spec fn wf(&self) -> bool {
        &&& self@.len() >= HEADER_SIZE
        &&& self@.len() + 8 <= usize::MAX
        &&& HEADER_SIZE + ENTRY_SIZE * self.count() <= self@.len()
        &&& forall|i: int| 0 <= i < self.count() ==> {
            &&& #[trigger] self.entry_string_offset(i) + self.entry_string_len(i) <= self@.len()
            &&& valid_utf8(self.name_bytes(i))
        }
    }

    /// The symbols, in order.
    pub open spec fn entries(&self) -> Seq<(u64, Seq<char>)> {
        Seq::new(self.count() as nat, |i: int| (self.entry_address(i), decode_utf8(self.name_bytes(i))))
    }

    /// The addresses never decrease from one entry to the next.
    pub open spec fn sorted(&self) -> bool {
        forall|i: int, j: int| 0 <= i <= j < self.count() ==> self.entry_address(i) <= self.entry_address(j)
    }

    /// Creates a SymBlock from a memory object.
    ///
    /// Returns an error if the SymBlock version is unsupported.
    pub fn from_memory_object(mobj: MemoryObject) -> (r: Result<SymBlock, SymBlockLoadError>)
        requires
            mobj@.len() >= HEADER_SIZE,
        ensures
            read_u32(mobj@, 0) != VERSION ==> r == Err::<SymBlock, SymBlockLoadError>(SymBlockLoadError::InvalidVersion),
            read_u32(mobj@, 0) == VERSION ==> (r matches Ok(b) && b@ == mobj@),
    {
        let version = get_u32(mobj.as_slice(), 0);
        if version != VERSION {
            return Err(SymBlockLoadError::InvalidVersion);
        }
        Ok(SymBlock { mobj })
    }

    /// Returns the memory object backing this SymBlock.
    pub fn memory_object(&self) -> (r: &MemoryObject)
        ensures
            r@ == self@,
    {
        &self.mobj
    }

    /// Consumes the SymBlock and returns the underlying memory object.
    pub fn into_memory_object(self) -> (r: MemoryObject)
        ensures
            r@ == self@,
    {
        self.mobj
    }

    /// Returns the number of symbol entries in the SymBlock.
    pub fn len(&self) -> (r: usize)
        requires
            self@.len() >= HEADER_SIZE,
        ensures
            r == self.count(),
    {
        get_u32(self.mobj.as_slice(), 4) as usize
    }

    /// Returns an iterator over the symbol entries in the SymBlock.
    pub fn iter(&self) -> (r: SymBlockIterator<'_>)
        requires
            self.wf(),
        ensures
            r.owner() == self,
            r.index() == 0,
    {
        SymBlockIterator { owner: self, current_index: 0, current_offset: HEADER_SIZE }
    }

    /// The name of entry `i`.
    fn name_of(&self, i: usize) -> (r: &str)
        requires
            self.wf(),
            i < self.count(),
        ensures
            r@ == decode_utf8(self.name_bytes(i as int)),
    {
        let bytes = self.mobj.as_slice();
        let off = HEADER_SIZE + ENTRY_SIZE * i;
        let soff = get_u32(bytes, off + 8) as usize;
        let slen = get_u32(bytes, off + 12) as usize;
        proof {
            assert(self.entry_string_offset(i as int) + self.entry_string_len(i as int) <= self@.len());
        }
        let s = str_from_utf8(&bytes[soff..soff + slen]).unwrap();
        proof {
            lemma_str_of_bytes(s, self.name_bytes(i as int));
        }
        s
    }

    /// Looks up a symbol by address using binary search.
    ///
    /// Finds the entry where `address >= entry.address` and `address < next_entry.address`.
    /// Returns (symbol_address, symbol_name) if found, None otherwise.
    pub fn lookup(&self, address: u64) -> (r: Option<(u64, &str)>)
        requires
            self.wf(),
        ensures
            lookup_answer(*self, address, answer_view(r)),
    {
        let bytes = self.mobj.as_slice();
        let entry_count = get_u32(bytes, 4) as usize;
        if entry_count == 0 {
            return None;
        }
        let mut left: usize = 0;
        let mut right: usize = entry_count;
        let mut result_idx: Option<usize> = None;
        while left < right
            invariant
                self.wf(),
                bytes@ == self@,
                entry_count == self.count(),
                left <= right <= entry_count,
                left == 0 ==> result_idx is None,
                left > 0 ==> result_idx == Some((left - 1) as usize) && self.entry_address(left - 1) <= address,
                self.sorted() ==> forall|k: int| 0 <= k < left ==> #[trigger] self.entry_address(k) <= address,
                self.sorted() ==> forall|k: int| right <= k < entry_count ==> #[trigger] self.entry_address(k) > address,
            decreases right - left,
        {
            let mid = left + (right - left) / 2;
            let entry_address = get_u64(bytes, HEADER_SIZE + ENTRY_SIZE * mid);
            let ghost old_left = left;
            let ghost old_right = right;
            if entry_address <= address {
                result_idx = Some(mid);
                left = mid + 1;
                proof {
                    if self.sorted() {
                        assert forall|k: int| 0 <= k < left implies #[trigger] self.entry_address(k) <= address by {
                            if k < old_left {
                            } else {
                                assert(self.entry_address(k) <= self.entry_address(mid as int));
                            }
                        }
                    }
                }
            } else {
                right = mid;
                proof {
                    if self.sorted() {
                        assert forall|k: int| right <= k < entry_count implies #[trigger] self.entry_address(k) > address by {
                            if k >= old_right {
                            } else {
                                assert(self.entry_address(mid as int) <= self.entry_address(k));
                            }
                        }
                    }
                }
            }
        }
        match result_idx {
            Some(idx) => {
                let entry_address = get_u64(bytes, HEADER_SIZE + ENTRY_SIZE * idx);
                let name = self.name_of(idx);
                proof {
                    assert(self.entries()[idx as int] == (entry_address, name@));
                }
                Some((entry_address, name))
            },
            None => {
                proof {
                    assert(left == 0);
                }
                None
            },
        }
    }
}

/// The symbol and its name as a sequence of characters.
pub open spec fn answer_view(r: Option<(u64, &str)>) -> Option<(u64, Seq<char>)> {
    match r {
        Some(found) => Some((found.0, found.1@)),
        None => None,
    }
}

/// What a lookup of `address` answers: an entry of the block at or below the
/// address; and in a sorted block, nothing exactly when every entry lies above
/// the address, else the last entry at or below it.
pub open spec fn lookup_answer(b: SymBlock, address: u64, found: Option<(u64, Seq<char>)>) -> bool {
    &&& found matches Some(f) ==> exists|i: int| 0 <= i < b.count() && #[trigger] b.entries()[i] == f && f.0 <= address
    &&& b.sorted() ==> {
        &&& found is None <==> forall|i: int| 0 <= i < b.count() ==> #[trigger] b.entry_address(i) > address
        &&& found matches Some(f) ==> exists|i: int| 0 <= i < b.count()
            && #[trigger] b.entries()[i] == f
            && forall|k: int| i < k < b.count() ==> #[trigger] b.entry_address(k) > address
    }
}

/// Iterator over the symbol entries in a SymBlock.
pub struct SymBlockIterator<'a> {
    owner: &'a SymBlock,
    current_index: u32,
    current_offset: usize,
}

impl<'a> SymBlockIterator<'a> {
    pub closed spec fn owner(&self) -> &'a SymBlock {
        self.owner
    }

    pub closed spec fn index(&self) -> int {
        self.current_index as int
    }

    #[verifier::type_invariant]
    closed spec fn inv(&self) -> bool {
        &&& self.owner.wf()
        &&& self.current_index <= self.owner.count()
        &&& self.current_offset == HEADER_SIZE + ENTRY_SIZE * self.current_index
    }

    /// Returns the next symbol, if any.
    pub fn next(&mut self) -> (r: Option<(u64, &'a str)>)
        ensures
            final(self).owner() == old(self).owner(),
            old(self).index() < old(self).owner().count() ==> {
                &&& final(self).index() == old(self).index() + 1
                &&& (r matches Some(e) && (e.0, e.1@) == old(self).owner().entries()[old(self).index()])
            },
            old(self).index() >= old(self).owner().count() ==> r is None && final(self).index() == old(self).index(),
    {
        proof {
            use_type_invariant(&*self);
        }
        let owner: &'a SymBlock = self.owner;
        let bytes = owner.mobj.as_slice();
        let count = get_u32(bytes, 4);
        if self.current_index >= count {
            return None;
        }
        let idx = self.current_index as usize;
        let address = get_u64(bytes, self.current_offset);
        let name = owner.name_of(idx);
        let next = SymBlockIterator { owner, current_index: self.current_index + 1, current_offset: self.current_offset + ENTRY_SIZE };
        *self = next;
        Some((address, name))
    }

    /// Walks the remaining symbols and gathers them, in order: for a fresh
    /// iterator, every symbol of the block.
    pub fn collect(self) -> (r: Vec<(u64, &'a str)>)
        ensures
            r@.len() == self.owner().count() - self.index(),
            forall|i: int| 0 <= i < r@.len() ==> (#[trigger] r@[i].0, r@[i].1@) == self.owner().entries()[self.index() + i],
    {
        proof {
            use_type_invariant(&self);
        }
        let ghost owner = self.owner();
        let ghost start = self.index();
        let mut it = self;
        let mut out: Vec<(u64, &'a str)> = Vec::new();
        loop
            invariant
                it.owner() == owner,
                start <= it.index() <= owner.count(),
                out@.len() == it.index() - start,
                forall|i: int| 0 <= i < out@.len() ==> (#[trigger] out@[i].0, out@[i].1@) == owner.entries()[start + i],
            ensures
                it.index() == owner.count(),
                out@.len() == it.index() - start,
                forall|i: int| 0 <= i < out@.len() ==> (#[trigger] out@[i].0, out@[i].1@) == owner.entries()[start + i],
            decreases owner.count() - it.index(),
        {
            proof {
                use_type_invariant(&it);
            }
            match it.next() {
                Some(e) => {
                    out.push(e);
                },
                None => {
                    break;
                },
            }
        }
        out
    }
}


/// `s` lists the symbols of `m` by increasing address, each once.
pub open spec fn is_listing(m: Map<usize, String>, s: Seq<(usize, String)>) -> bool {
    &&& forall|i: int, j: int| 0 <= i < j < s.len() ==> s[i].0 < s[j].0
    &&& forall|i: int| 0 <= i < s.len() ==> #[trigger] m.contains_key(s[i].0) && m[s[i].0] == s[i].1
    &&& forall|k: usize| #[trigger] m.contains_key(k) ==> exists|i: int| 0 <= i < s.len() && s[i].0 == k
}

/// The symbols of `m` by increasing address.
pub open spec fn listing(m: Map<usize, String>) -> Seq<(usize, String)> {
    choose|s: Seq<(usize, String)>| is_listing(m, s)
}

/// The symbols with their names as bytes.
pub open spec fn symbols_of(s: Seq<(usize, String)>) -> Seq<SymbolBytes> {
    s.map_values(|p: (usize, String)| (p.0, encode_utf8(p.1@)))
}

/// The symbols of `m`, as stored in a block.
pub open spec fn map_symbols(m: Map<usize, String>) -> Seq<SymbolBytes> {
    symbols_of(listing(m))
}

/// A map has only one listing.
pub proof fn lemma_listing_unique(m: Map<usize, String>, s1: Seq<(usize, String)>, s2: Seq<(usize, String)>)
    requires
        is_listing(m, s1),
        is_listing(m, s2),
    ensures
        s1 == s2,
    decreases s1.len(),
{
    if s1.len() == 0 {
        if s2.len() > 0 {
            assert(m.contains_key(s2[0].0));
        }
        assert(s1 =~= s2);
    } else {
        assert(m.contains_key(s1[0].0));
        let j = choose|j: int| 0 <= j < s2.len() && s2[j].0 == s1[0].0;
        assert(m.contains_key(s2[0].0));
        let i = choose|i: int| 0 <= i < s1.len() && s1[i].0 == s2[0].0;
        assert(s1[0].0 <= s1[i].0);
        assert(s2[0].0 <= s2[j].0);
        let k = s1[0].0;
        let m2 = m.remove(k);
        let t1 = s1.drop_first();
        let t2 = s2.drop_first();
        assert forall|key: usize| #[trigger] m2.contains_key(key) implies exists|x: int| 0 <= x < t1.len() && t1[x].0 == key by {
            let x = choose|x: int| 0 <= x < s1.len() && s1[x].0 == key;
            assert(t1[x - 1].0 == key);
        }
        assert forall|key: usize| #[trigger] m2.contains_key(key) implies exists|x: int| 0 <= x < t2.len() && t2[x].0 == key by {
            let x = choose|x: int| 0 <= x < s2.len() && s2[x].0 == key;
            assert(t2[x - 1].0 == key);
        }
        assert forall|x: int| 0 <= x < t1.len() implies #[trigger] m2.contains_key(t1[x].0) && m2[t1[x].0] == t1[x].1 by {
            assert(s1[0].0 < s1[x + 1].0);
            assert(m.contains_key(s1[x + 1].0));
        }
        assert forall|x: int| 0 <= x < t2.len() implies #[trigger] m2.contains_key(t2[x].0) && m2[t2[x].0] == t2[x].1 by {
            assert(s2[0].0 < s2[x + 1].0);
            assert(m.contains_key(s2[x + 1].0));
        }
        lemma_listing_unique(m2, t1, t2);
        assert(s1 =~= s2) by {
            assert forall|x: int| 0 <= x < s1.len() implies s1[x] == s2[x] by {
                if x > 0 {
                    assert(t1[x - 1] == t2[x - 1]);
                }
            }
        }
    }
}

/// The pairs of a sorted map, by increasing key.
fn sorted_pairs(m: &BTreeMap<usize, String>) -> (r: Vec<(usize, &String)>)
    ensures
        is_listing(m@, r@.map_values(|p: (usize, &String)| (p.0, *p.1))),
{
    broadcast use vstd::std_specs::btree::group_btree_axioms;
    broadcast use vstd::laws_cmp::group_laws_cmp;
    let first = m.iter();
    let ghost pairs = first.remaining();
    assert(vstd::std_specs::btree::key_obeys_cmp_spec::<usize>());
    assert(increasing_seq(pairs.map_values(|kv: (&usize, &String)| *kv.0)));
    let mut out: Vec<(usize, &String)> = Vec::new();
    for kv in it: m.iter()
        invariant
            out@.len() == it.index(),
            forall|i: int| 0 <= i < it.index() ==> out@[i] == (*it.seq()[i].0, it.seq()[i].1),
            it.seq() == pairs,
    {
        out.push((*kv.0, kv.1));
    }
    proof {
        let ks = pairs.map_values(|kv: (&usize, &String)| *kv.0);
        let v = out@.map_values(|p: (usize, &String)| (p.0, *p.1));
        assert forall|i: int, j: int| 0 <= i < j < v.len() implies v[i].0 < v[j].0 by {
            assert(ks[i].cmp_spec(&ks[j]) is Less);
        }
        assert forall|k: usize| #[trigger] m@.contains_key(k) implies exists|i: int| 0 <= i < v.len() && v[i].0 == k by {
            assert(pairs.contains((&k, &m@[k])));
            let i = choose|i: int| 0 <= i < pairs.len() && pairs[i] == (&k, &m@[k]);
            assert(v[i].0 == k);
        }
        assert forall|i: int| 0 <= i < v.len() implies #[trigger] m@.contains_key(v[i].0) && m@[v[i].0] == v[i].1 by {
            assert(m@.contains_key(*pairs[i].0));
        }
    }
    out
}

/// A listing has one item per key of the map.
pub proof fn lemma_listing_len(m: Map<usize, String>, s: Seq<(usize, String)>)
    requires
        is_listing(m, s),
    ensures
        s.len() == m.dom().len(),
{
    let ks = s.map_values(|p: (usize, String)| p.0);
    assert(ks.no_duplicates()) by {
        assert forall|i: int, j: int| 0 <= i < ks.len() && 0 <= j < ks.len() && i != j implies ks[i] != ks[j] by {
            if i < j {
                assert(s[i].0 < s[j].0);
            } else {
                assert(s[j].0 < s[i].0);
            }
        }
    }
    ks.unique_seq_to_set();
    assert(ks.to_set() =~= m.dom()) by {
        assert forall|k: usize| m.dom().contains(k) implies ks.to_set().contains(k) by {
            assert(m.contains_key(k));
            let i = choose|i: int| 0 <= i < s.len() && s[i].0 == k;
            assert(ks[i] == k);
        }
        assert forall|k: usize| ks.to_set().contains(k) implies m.dom().contains(k) by {
            let i = choose|i: int| 0 <= i < ks.len() && ks[i] == k;
            assert(m.contains_key(s[i].0));
        }
    }
}

/// Names stored from `base` end `base` bytes further than names stored from 0.
pub proof fn lemma_name_offset_shift(syms: Seq<SymbolBytes>, base: int, j: int)
    requires
        0 <= j,
    ensures
        name_offset(syms, base, j) == base + name_offset(syms, 0, j),
    decreases j,
{
    if j > 0 {
        lemma_name_offset_shift(syms, base, j - 1);
    }
}

/// Builder for creating a SymBlock.
pub struct SymBlockBuilder {
    mobj: MemoryObject,
    entries_offset: usize,
    strings_offset: usize,
}

impl View for SymBlockBuilder {
    type V = Seq<u8>;

    closed spec fn view(&self) -> Seq<u8> {
        self.mobj@
    }
}

impl SymBlockBuilder {
    /// Where the names go, as set by the header.
    pub closed spec fn names_offset(&self) -> int {
        self.strings_offset as int
    }

    /// A builder over a zeroed memory object of `total_size` bytes rounded up to whole pages.
    pub fn new(total_size: usize) -> (r: SymBlockBuilder)
        requires
            spec_align_up(total_size as int, PAGE_SIZE as int) <= usize::MAX,
        ensures
            r@ == Seq::new(spec_align_up(total_size as int, PAGE_SIZE as int) as nat, |i: int| 0u8),
            r.names_offset() == 0,
    {
        let mobj_size = align_up(total_size, PAGE_SIZE);
        let mobj = MemoryObject::create(mobj_size);
        SymBlockBuilder { mobj, entries_offset: HEADER_SIZE, strings_offset: 0 }
    }

    /// Writes the header and records where the names go.
    pub fn set_header(&mut self, version: u32, entry_count: u32, strings_offset: u32)
        requires
            old(self)@.len() >= HEADER_SIZE,
        ensures
            final(self)@ == splice(old(self)@, 0, header_bytes(version, entry_count, strings_offset)),
            final(self).names_offset() == strings_offset,
    {
        let mut head: Vec<u8> = Vec::new();
        push_u32(&mut head, version);
        push_u32(&mut head, entry_count);
        push_u32(&mut head, strings_offset);
        proof {
            lemma_le_bytes_len(version as nat, 4);
            lemma_le_bytes_len(entry_count as nat, 4);
            lemma_le_bytes_len(strings_offset as nat, 4);
        }
        put_bytes(self.mobj.as_mut_slice(), 0, head.as_slice());
        self.strings_offset = strings_offset as usize;
    }

    /// Writes one entry per symbol, by increasing address, and the names one
    /// after the other from the offset set by the header.
    pub fn add_entries(&mut self, entries: &BTreeMap<usize, String>)
        requires
            HEADER_SIZE + ENTRY_SIZE * entries@.dom().len() <= old(self)@.len(),
            name_offset(map_symbols(entries@), old(self).names_offset(), entries@.dom().len() as int) <= old(self)@.len(),
        ensures
            final(self)@ == write_symbols(old(self)@, map_symbols(entries@), 0, old(self).names_offset()),
            final(self).names_offset() == old(self).names_offset(),
    {
        let pairs = sorted_pairs(entries);
        let ghost syms = map_symbols(entries@);
        proof {
            broadcast use vstd::std_specs::btree::group_btree_axioms;
            let v = pairs@.map_values(|p: (usize, &String)| (p.0, *p.1));
            lemma_listing_unique(entries@, v, listing(entries@));
            lemma_listing_len(entries@, v);
        }
        let n = pairs.len();
        let base = self.strings_offset;
        let ghost start = self.mobj@;
        let mut soff: usize = base;
        let mut i: usize = 0;
        while i < n
            invariant
                n == pairs@.len(),
                n == syms.len(),
                syms == symbols_of(pairs@.map_values(|p: (usize, &String)| (p.0, *p.1))),
                i <= n,
                self.mobj@.len() == start.len(),
                self.strings_offset == base,
                HEADER_SIZE + ENTRY_SIZE * n <= start.len(),
                name_offset(syms, base as int, n as int) <= start.len(),
                soff == name_offset(syms, base as int, i as int),
                write_symbols(self.mobj@, syms, i as nat, soff as int) == write_symbols(start, syms, 0, base as int),
            decreases n - i,
        {
            let (address, name) = pairs[i];
            let bytes = name.as_str().as_bytes();
            proof {
                lemma_name_offset_mono(syms, base as int, (i + 1) as int, n as int);
                assert(syms[i as int] == (address, encode_utf8(name@)));
            }
            let mut entry: Vec<u8> = Vec::new();
            push_u64(&mut entry, address as u64);
            push_u32(&mut entry, #[verifier::truncate] (soff as u32));
            push_u32(&mut entry, #[verifier::truncate] (bytes.len() as u32));
            proof {
                lemma_le_bytes_len(address as u64 as nat, 8);
                lemma_le_bytes_len((#[verifier::truncate] (soff as u32)) as nat, 4);
                lemma_le_bytes_len((#[verifier::truncate] (bytes.len() as u32)) as nat, 4);
                assert(entry@ == entry_bytes(address, soff as int, bytes@.len() as int));
                assert(16 * i + 16 <= 16 * n) by (nonlinear_arith)
                    requires i < n;
            }
            let blen = self.mobj.size();
            put_bytes(self.mobj.as_mut_slice(), HEADER_SIZE + ENTRY_SIZE * i, entry.as_slice());
            put_bytes(self.mobj.as_mut_slice(), soff, bytes);
            soff = soff + bytes.len();
            i = i + 1;
        }
    }

    /// The SymBlock that was built.
    pub fn build(self) -> (r: SymBlock)
        ensures
            r@ == self@,
    {
        SymBlock { mobj: self.mobj }
    }
}


impl SymBlock {
    /// Creates a SymBlock from a BTreeMap of address-to-name entries.
    /// The BTreeMap ensures entries are sorted by address.
    pub fn build(entries: &BTreeMap<usize, String>) -> (r: SymBlock)
        requires
            object_size(map_symbols(entries@)) <= usize::MAX,
        ensures
            r@ == sym_image(map_symbols(entries@)),
            is_listing(entries@, listing(entries@)),
    {
        let ghost syms = map_symbols(entries@);
        let pairs = sorted_pairs(entries);
        let ghost v = pairs@.map_values(|p: (usize, &String)| (p.0, *p.1));
        proof {
            lemma_listing_unique(entries@, v, listing(entries@));
            lemma_listing_len(entries@, v);
        }
        let n = pairs.len();
        let ghost base = strings_start(n as nat);
        proof {
            lemma_name_offset_mono(syms, base, 0, n as int);
            lemma_name_offset_shift(syms, base, n as int);
            lemma_align_up_bounds(used_size(syms), PAGE_SIZE as int);
            lemma_name_offset_mono(syms, 0, 0, n as int);
        }
        let entries_size = n * ENTRY_SIZE;
        let mut strings_size: usize = 0;
        let mut i: usize = 0;
        while i < n
            invariant
                n == pairs@.len(),
                n == syms.len(),
                syms == symbols_of(pairs@.map_values(|p: (usize, &String)| (p.0, *p.1))),
                i <= n,
                base == strings_start(n as nat),
                base + name_offset(syms, 0, n as int) <= usize::MAX,
                strings_size == name_offset(syms, 0, i as int),
            decreases n - i,
        {
            proof {
                lemma_name_offset_mono(syms, 0, (i + 1) as int, n as int);
            }
            let name: &String = pairs[i].1;
            proof {
                let w = pairs@.map_values(|p: (usize, &String)| (p.0, *p.1));
                assert(w[i as int] == (pairs@[i as int].0, *pairs@[i as int].1));
                assert(syms[i as int].1 == encode_utf8(name@));
            }
            let nbytes = name.as_str().as_bytes();
            proof {
                assert(nbytes@ == syms[i as int].1);
                assert(name_offset(syms, 0, (i + 1) as int) == name_offset(syms, 0, i as int) + syms[i as int].1.len());
            }
            strings_size = strings_size + nbytes.len();
            i = i + 1;
        }
        let total_size = HEADER_SIZE + entries_size + strings_size;
        let strings_offset = HEADER_SIZE + entries_size;
        let mut builder = SymBlockBuilder::new(total_size);
        builder.set_header(VERSION, #[verifier::truncate] (n as u32), #[verifier::truncate] (strings_offset as u32));
        proof {
            lemma_name_offset_shift(syms, names_start(n as nat), n as int);
            lemma_le_bytes_len(VERSION as nat, 4);
        }
        builder.add_entries(entries);
        builder.build()
    }
}

/// The facts read back from entry `j` of a built block.
proof fn lemma_sym_entry(syms: Seq<SymbolBytes>, b: SymBlock, j: int)
    requires
        b@ == sym_image(syms),
        used_size(syms) <= u32::MAX,
        0 <= j < syms.len(),
    ensures
        b.entry_address(j) == syms[j].0 as u64,
        b.entry_string_offset(j) == name_offset(syms, strings_start(syms.len()), j),
        b.entry_string_len(j) == syms[j].1.len(),
        b.entry_string_offset(j) + b.entry_string_len(j) <= used_size(syms),
        b.name_bytes(j) == syms[j].1,
{
    let n = syms.len();
    let base = strings_start(n);
    let osize = object_size(syms);
    lemma_name_offset_mono(syms, base, 0, n as int);
    lemma_name_offset_mono(syms, base, j, j + 1);
    lemma_name_offset_mono(syms, base, j + 1, n as int);
    lemma_align_up_bounds(used_size(syms), PAGE_SIZE as int);
    lemma_le_bytes_len(VERSION as nat, 4);
    lemma_le_bytes_len(n as u32 as nat, 4);
    lemma_le_bytes_len(base as u32 as nat, 4);
    let zeros = Seq::new(osize as nat, |i: int| 0u8);
    let h = splice(zeros, 0, header_bytes(VERSION, n as u32, base as u32));
    assert(names_start(n) == base);
    lemma_write_symbols_reads(h, syms, 0, j);
    let img = b@;
    let e = HEADER_SIZE + ENTRY_SIZE * j;
    let o = name_offset(syms, base, j);
    let name = syms[j].1;
    let eb = entry_bytes(syms[j].0, o, name.len() as int);
    assert(16 * j + 16 <= 16 * n) by (nonlinear_arith)
        requires j < n;
    lemma_name_offset_mono(syms, base, 0, j);
    lemma_write_symbols_frame(h, syms, 0, 0);
    assert(0 <= o <= u32::MAX);
    assert((o as u32) as int == o);
    assert(img.subrange(e, e + 16) == eb);
    lemma_le_bytes_len(syms[j].0 as u64 as nat, 8);
    lemma_le_bytes_len(o as u32 as nat, 4);
    lemma_le_bytes_len(name.len() as u32 as nat, 4);
    lemma_write_symbols_frame(h, syms, 0, 0);
    assert(img.len() == osize);
    assert(img.subrange(e, e + 8) =~= eb.subrange(0, 8));
    assert(eb.subrange(0, 8) =~= u64_bytes(syms[j].0 as u64));
    lemma_read_u64_at(img, e, syms[j].0 as u64);
    assert(img.subrange(e + 8, e + 12) =~= eb.subrange(8, 12));
    assert(eb.subrange(8, 12) =~= u32_bytes(o as u32));
    lemma_read_u32_at(img, e + 8, o as u32);
    assert(img.subrange(e + 12, e + 16) =~= eb.subrange(12, 16));
    assert(eb.subrange(12, 16) =~= u32_bytes(name.len() as u32));
    lemma_read_u32_at(img, e + 12, name.len() as u32);
}

/// Building a SymBlock from a map and loading it back: the block is well
/// formed, sorted, and its entries are the symbols of the map by increasing
/// address.
pub proof fn lemma_sym_build_then_load(m: Map<usize, String>, s: Seq<(usize, String)>, b: SymBlock)
    requires
        is_listing(m, s),
        b@ == sym_image(map_symbols(m)),
        used_size(map_symbols(m)) <= u32::MAX,
        object_size(map_symbols(m)) + 8 <= usize::MAX,
    ensures
        b.version() == VERSION,
        b.count() == s.len(),
        b.wf(),
        b.sorted(),
        b.entries() == s.map_values(|p: (usize, String)| (p.0 as u64, p.1@)),
{
    lemma_listing_unique(m, s, listing(m));
    let syms = map_symbols(m);
    let n = syms.len();
    let base = strings_start(n);
    let osize = object_size(syms);
    lemma_name_offset_mono(syms, base, 0, n as int);
    lemma_align_up_bounds(used_size(syms), PAGE_SIZE as int);
    lemma_le_bytes_len(VERSION as nat, 4);
    lemma_le_bytes_len(n as u32 as nat, 4);
    lemma_le_bytes_len(base as u32 as nat, 4);
    let zeros = Seq::new(osize as nat, |i: int| 0u8);
    let hb = header_bytes(VERSION, n as u32, base as u32);
    let h = splice(zeros, 0, hb);
    assert(names_start(n) == base);
    let img = b@;
    assert forall|p: int| 0 <= p < 12 implies img[p] == hb[p] by {
        lemma_write_symbols_frame(h, syms, 0, p);
    }
    lemma_write_symbols_frame(h, syms, 0, 0);
    assert(img.subrange(0, 4) =~= u32_bytes(VERSION));
    lemma_read_u32_at(img, 0, VERSION);
    assert(img.subrange(4, 8) =~= u32_bytes(n as u32));
    lemma_read_u32_at(img, 4, n as u32);
    assert(b.count() == n);
    assert(HEADER_SIZE + ENTRY_SIZE * b.count() <= img.len());
    assert forall|i: int| 0 <= i < b.count() implies {
        &&& #[trigger] b.entry_string_offset(i) + b.entry_string_len(i) <= b@.len()
        &&& valid_utf8(b.name_bytes(i))
    } by {
        lemma_sym_entry(syms, b, i);
        lemma_utf8_roundtrip(s[i].1@);
    }
    assert forall|i: int, j: int| 0 <= i <= j < b.count() implies b.entry_address(i) <= b.entry_address(j) by {
        lemma_sym_entry(syms, b, i);
        lemma_sym_entry(syms, b, j);
    }
    assert(b.entries() =~= s.map_values(|p: (usize, String)| (p.0 as u64, p.1@))) by {
        assert forall|i: int| 0 <= i < n implies b.entries()[i] == (s[i].0 as u64, s[i].1@) by {
            lemma_sym_entry(syms, b, i);
            lemma_utf8_roundtrip(s[i].1@);
        }
    }
}

/// Looking up an address in the block built from the map `m` answers nothing
/// exactly when every address of `m` lies above it; otherwise it answers the
/// largest address of `m` at or below it, with its name.
pub proof fn lemma_lookup_of_built(
    m: Map<usize, String>,
    b: SymBlock,
    address: u64,
    found: Option<(u64, Seq<char>)>,
)
    requires
        is_listing(m, listing(m)),
        b@ == sym_image(map_symbols(m)),
        used_size(map_symbols(m)) <= u32::MAX,
        object_size(map_symbols(m)) + 8 <= usize::MAX,
        lookup_answer(b, address, found),
    ensures
        found is None <==> forall|k: usize| #[trigger] m.contains_key(k) ==> k as u64 > address,
        found matches Some(f) ==> exists|k: usize| {
            &&& #[trigger] m.contains_key(k)
            &&& k as u64 <= address
            &&& f == (k as u64, m[k]@)
            &&& forall|k2: usize| #[trigger] m.contains_key(k2) && k2 as u64 <= address ==> k2 <= k
        },
{
    let s = listing(m);
    lemma_sym_build_then_load(m, s, b);
    assert forall|i: int| 0 <= i < b.count() implies #[trigger] b.entry_address(i) == s[i].0 as u64 && b.entries()[i] == (s[i].0 as u64, s[i].1@) by {
        assert(b.entries()[i] == s.map_values(|p: (usize, String)| (p.0 as u64, p.1@))[i]);
    }
    if found is None {
        assert forall|k: usize| #[trigger] m.contains_key(k) implies k as u64 > address by {
            let i = choose|i: int| 0 <= i < s.len() && s[i].0 == k;
            assert(b.entry_address(i) > address);
        }
    } else {
        let f = found.unwrap();
        let i = choose|i: int| 0 <= i < b.count()
            && #[trigger] b.entries()[i] == f
            && forall|k: int| i < k < b.count() ==> #[trigger] b.entry_address(k) > address;
        let k = s[i].0;
        assert(m.contains_key(k));
        assert(f == (k as u64, m[k]@));
        assert(f.0 <= address) by {
            let i0 = choose|i0: int| 0 <= i0 < b.count() && #[trigger] b.entries()[i0] == f && f.0 <= address;
        }
        assert forall|k2: usize| #[trigger] m.contains_key(k2) && k2 as u64 <= address implies k2 <= k by {
            let j = choose|j: int| 0 <= j < s.len() && s[j].0 == k2;
            if j > i {
                assert(b.entry_address(j) > address);
            } else if j < i {
                assert(s[j].0 < s[i].0);
            }
        }
        assert(!(forall|k: usize| #[trigger] m.contains_key(k) ==> k as u64 > address)) by {
            assert(m.contains_key(k));
        }
    }
}

pub proof fn lemma_name_offset_mono(syms: Seq<SymbolBytes>, base: int, j: int, k: int)
    requires
        0 <= j <= k,
    ensures
        name_offset(syms, base, j) <= name_offset(syms, base, k),
    decreases k,
{
    if j < k {
        lemma_name_offset_mono(syms, base, j, k - 1);
    }
}

/// Writing the symbols from index `i` keeps the length and leaves alone the
/// header, the earlier entries, and the earlier names.
pub proof fn lemma_write_symbols_frame(buf: Seq<u8>, syms: Seq<SymbolBytes>, i: nat, p: int)
    requires
        i <= syms.len(),
        strings_start(syms.len()) <= name_offset(syms, strings_start(syms.len()), i as int),
        used_size(syms) <= buf.len(),
        0 <= p < buf.len(),
        p < HEADER_SIZE + ENTRY_SIZE * i || (strings_start(syms.len()) <= p < name_offset(syms, strings_start(syms.len()), i as int)),
    ensures
        write_symbols(buf, syms, i, name_offset(syms, strings_start(syms.len()), i as int)).len() == buf.len(),
        write_symbols(buf, syms, i, name_offset(syms, strings_start(syms.len()), i as int))[p] == buf[p],
    decreases syms.len() - i,
{
    let n = syms.len();
    let base = strings_start(n);
    if i < n {
        let soff = name_offset(syms, base, i as int);
        let name = syms[i as int].1;
        lemma_le_bytes_len(syms[i as int].0 as u64 as nat, 8);
        lemma_le_bytes_len(soff as u32 as nat, 4);
        lemma_le_bytes_len(name.len() as u32 as nat, 4);
        let eb = entry_bytes(syms[i as int].0, soff, name.len() as int);
        assert(eb.len() == 16);
        lemma_name_offset_mono(syms, base, (i + 1) as int, n as int);
        let b1 = splice(buf, HEADER_SIZE + ENTRY_SIZE * i, eb);
        let b2 = splice(b1, soff, name);
        assert(HEADER_SIZE + ENTRY_SIZE * i + 16 <= base);
        assert(b2.len() == buf.len());
        assert(b2[p] == buf[p]);
        lemma_write_symbols_frame(b2, syms, i + 1, p);
    }
}

/// Reading back: after writing the symbols from index `i`, every later entry
/// and name holds what was written.
pub proof fn lemma_write_symbols_reads(buf: Seq<u8>, syms: Seq<SymbolBytes>, i: nat, j: int)
    requires
        i <= j < syms.len(),
        strings_start(syms.len()) <= name_offset(syms, strings_start(syms.len()), i as int),
        used_size(syms) <= buf.len(),
    ensures
        ({
            let base = strings_start(syms.len());
            let fin = write_symbols(buf, syms, i, name_offset(syms, base, i as int));
            let e = HEADER_SIZE + ENTRY_SIZE * j;
            let o = name_offset(syms, base, j);
            &&& fin.subrange(e, e + 16) == entry_bytes(syms[j].0, o, syms[j].1.len() as int)
            &&& fin.subrange(o, o + syms[j].1.len()) == syms[j].1
        }),
    decreases syms.len() - i,
{
    let n = syms.len();
    let base = strings_start(n);
    let soff = name_offset(syms, base, i as int);
    let name = syms[i as int].1;
    lemma_le_bytes_len(syms[i as int].0 as u64 as nat, 8);
    lemma_le_bytes_len(soff as u32 as nat, 4);
    lemma_le_bytes_len(name.len() as u32 as nat, 4);
    let eb = entry_bytes(syms[i as int].0, soff, name.len() as int);
    lemma_name_offset_mono(syms, base, (i + 1) as int, n as int);
    let b1 = splice(buf, HEADER_SIZE + ENTRY_SIZE * i, eb);
    let b2 = splice(b1, soff, name);
    assert(HEADER_SIZE + ENTRY_SIZE * i + 16 <= base);
    let fin = write_symbols(buf, syms, i, soff);
    assert(fin == write_symbols(b2, syms, i + 1, soff + name.len()));
    if j == i {
        let e = HEADER_SIZE + ENTRY_SIZE * i;
        assert(b1.len() == buf.len());
        assert(eb.len() == 16);
        lemma_write_symbols_frame(b2, syms, i + 1, e);
        assert(fin.len() == buf.len());
        assert forall|k: int| 0 <= k < 16 implies fin.subrange(e, e + 16)[k] == eb[k] by {
            lemma_write_symbols_frame(b2, syms, i + 1, e + k);
            assert(b1[e + k] == eb[k]);
            assert(b2[e + k] == b1[e + k]);
        }
        assert(fin.subrange(e, e + 16) =~= eb);
        assert forall|k: int| 0 <= k < name.len() implies fin.subrange(soff, soff + name.len())[k] == name[k] by {
            lemma_write_symbols_frame(b2, syms, i + 1, soff + k);
            assert(b2[soff + k] == name[k]);
        }
        assert(fin.subrange(soff, soff + name.len()) =~= name);
    } else {
        lemma_write_symbols_reads(b2, syms, i + 1, j);
    }
}

} // verus!
