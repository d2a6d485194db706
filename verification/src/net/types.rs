//! Types shared by the network interfaces.
use vstd::prelude::*;
use crate::kobject::MemoryObject;
use crate::layout::{PAGE_SIZE, spec_align_down, align_down};
use crate::text::{str_from_utf8, lemma_str_of_bytes};
use vstd::utf8::{is_ascii_chars, is_ascii_chars_encode_utf8, encode_utf8, encode_utf8_valid_utf8, encode_utf8_decode_utf8};

verus! {

/// A MAC address.
#[derive(Debug, Clone, Copy, PartialEq, Eq)]
pub struct MacAddress([u8; 6]);

impl MacAddress {
    /// The six bytes of the address.
    pub closed spec fn bytes(&self) -> Seq<u8> {
        self.0@
    }

    /// The all-zero address.
    pub fn null() -> (r: Self)
        ensures
            r.bytes() == Seq::new(6, |i: int| 0u8),
    {
        let r = Self([0u8; 6]);
        proof {
            assert(r.bytes() =~= Seq::new(6, |i: int| 0u8));
        }
        r
    }

    /// Whether this is the all-zero address.
    pub fn is_null(&self) -> (r: bool)
        ensures
            r == (self.bytes() == Seq::new(6, |i: int| 0u8)),
    {
        let b = &self.0;
        let r = b[0] == 0 && b[1] == 0 && b[2] == 0 && b[3] == 0 && b[4] == 0 && b[5] == 0;
        proof {
            if r {
                assert(self.bytes() =~= Seq::new(6, |i: int| 0u8));
            } else {
                assert(self.bytes() != Seq::new(6, |i: int| 0u8) ) by {
                    if self.bytes() == Seq::new(6, |i: int| 0u8) {
                        assert(self.bytes()[0] == 0 && self.bytes()[1] == 0 && self.bytes()[2] == 0);
                        assert(self.bytes()[3] == 0 && self.bytes()[4] == 0 && self.bytes()[5] == 0);
                    }
                }
            }
        }
        r
    }

    /// The bytes of the address.
    pub fn as_bytes(&self) -> (r: &[u8; 6])
        ensures
            r@ == self.bytes(),
    {
        &self.0
    }

    /// The address as text: the six bytes in two lowercase hexadecimal digits
    /// each, separated by colons.
    pub fn to_string(&self) -> (r: String)
        ensures
            r@ == mac_text(self.bytes()),
            r@.len() == 17,
            forall|i: int| 0 <= i < 5 ==> #[trigger] r@[3 * i + 2] == ':',
            forall|i: int| 0 <= i < 6 ==> {
                &&& is_lower_hex_digit(#[trigger] r@[3 * i])
                &&& is_lower_hex_digit(r@[3 * i + 1])
                &&& 16 * hex_digit_value(r@[3 * i]) + hex_digit_value(r@[3 * i + 1]) == self.bytes()[i]
            },
    {
        proof {
            lemma_mac_text(self.bytes());
        }
        let mut bytes: Vec<u8> = Vec::new();
        let mut i: usize = 0;
        while i < 6
            invariant
                i <= 6,
                self.0@.len() == 6,
                bytes@.len() == if i == 0 { 0 } else { 3 * i - 1 },
                forall|j: int| 0 <= j < bytes@.len() ==> bytes@[j] == #[trigger] mac_text(self.bytes())[j] as u8,
            decreases 6 - i,
        {
            let b = self.0[i];
            if i > 0 {
                bytes.push(58u8);
            }
            bytes.push(hex_digit_byte(b / 16));
            bytes.push(hex_digit_byte(b % 16));
            proof {
                let t = mac_text(self.bytes());
                assert forall|j: int| 0 <= j < bytes@.len() implies bytes@[j] == #[trigger] t[j] as u8 by {
                    if j >= 3 * i - 1 || i == 0 {
                        if i > 0 && j == 3 * i - 1 {
                            assert(j % 3 == 2);
                        } else {
                            assert(j / 3 == i);
                        }
                    }
                }
            }
            i = i + 1;
        }
        let ghost text = mac_text(self.bytes());
        proof {
            assert(is_ascii_chars(text)) by {
                assert forall|j: int| 0 <= j < text.len() implies '\0' <= #[trigger] text[j] <= '\u{7f}' by {
                    lemma_hex_char_ascii(self.bytes()[j / 3] / 16);
                    lemma_hex_char_ascii(self.bytes()[j / 3] % 16);
                }
            }
            is_ascii_chars_encode_utf8(text);
            assert(encode_utf8(text) =~= bytes@);
            encode_utf8_valid_utf8(text);
        }
        let s = str_from_utf8(bytes.as_slice()).unwrap();
        proof {
            lemma_str_of_bytes(s, bytes@);
            encode_utf8_decode_utf8(text);
        }
        s.to_owned()
    }
}

/// The hexadecimal digit of `n` (below 16), in lowercase.
pub open spec fn hex_char(n: u8) -> char {
    if n < 10 { (48 + n) as char } else { (87 + n) as char }
}

proof fn lemma_hex_char_ascii(n: u8)
    requires
        n < 16,
    ensures
        '\0' <= hex_char(n) <= '\u{7f}',
        hex_char(n) as u8 == hex_digit_byte_spec(n),
{
}

pub open spec fn hex_digit_byte_spec(n: u8) -> u8 {
    if n < 10 { (48 + n) as u8 } else { (87 + n) as u8 }
}

fn hex_digit_byte(n: u8) -> (r: u8)
    requires
        n < 16,
    ensures
        r == hex_digit_byte_spec(n),
        r == hex_char(n) as u8,
{
    proof {
        lemma_hex_char_ascii(n);
    }
    if n < 10 { 48 + n } else { 87 + n }
}

/// A lowercase hexadecimal digit: `0` to `9` or `a` to `f`.
pub open spec fn is_lower_hex_digit(c: char) -> bool {
    ('0' <= c && c <= '9') || ('a' <= c && c <= 'f')
}

/// The value of a lowercase hexadecimal digit.
pub open spec fn hex_digit_value(c: char) -> int {
    if '0' <= c && c <= '9' { c as int - '0' as int } else { c as int - 'a' as int + 10 }
}

/// The text of a MAC address is seventeen characters: for each of the six
/// bytes, two lowercase hexadecimal digits whose values are the high and the
/// low four bits of the byte, the pairs separated by `:`. Reading the digits
/// back gives the bytes.
pub proof fn lemma_mac_text(b: Seq<u8>)
    requires
        b.len() == 6,
    ensures
        mac_text(b).len() == 17,
        forall|i: int| 0 <= i < 5 ==> #[trigger] mac_text(b)[3 * i + 2] == ':',
        forall|i: int| 0 <= i < 6 ==> {
            &&& is_lower_hex_digit(#[trigger] mac_text(b)[3 * i])
            &&& is_lower_hex_digit(mac_text(b)[3 * i + 1])
            &&& hex_digit_value(mac_text(b)[3 * i]) == b[i] / 16
            &&& hex_digit_value(mac_text(b)[3 * i + 1]) == b[i] % 16
            &&& 16 * hex_digit_value(mac_text(b)[3 * i]) + hex_digit_value(mac_text(b)[3 * i + 1]) == b[i]
        },
{
    let t = mac_text(b);
    assert forall|i: int| 0 <= i < 5 implies #[trigger] t[3 * i + 2] == ':' by {
        assert((3 * i + 2) % 3 == 2);
    }
    assert forall|i: int| 0 <= i < 6 implies {
        &&& is_lower_hex_digit(#[trigger] t[3 * i])
        &&& is_lower_hex_digit(t[3 * i + 1])
        &&& hex_digit_value(t[3 * i]) == b[i] / 16
        &&& hex_digit_value(t[3 * i + 1]) == b[i] % 16
        &&& 16 * hex_digit_value(t[3 * i]) + hex_digit_value(t[3 * i + 1]) == b[i]
    } by {
        assert((3 * i) % 3 == 0 && (3 * i) / 3 == i);
        assert((3 * i + 1) % 3 == 1 && (3 * i + 1) / 3 == i);
        lemma_hex_char_digit(b[i] / 16);
        lemma_hex_char_digit(b[i] % 16);
    }
}

/// The digit of a four-bit value is a lowercase hexadecimal digit of that value.
proof fn lemma_hex_char_digit(n: u8)
    requires
        n < 16,
    ensures
        is_lower_hex_digit(hex_char(n)),
        hex_digit_value(hex_char(n)) == n,
{
}

/// The text of a MAC address: each byte as two lowercase hexadecimal digits,
/// the six pairs separated by colons.
pub open spec fn mac_text(b: Seq<u8>) -> Seq<char> {
    Seq::new(17, |j: int|
        if j % 3 == 2 { ':' } else if j % 3 == 0 { hex_char(b[j / 3] / 16) } else { hex_char(b[j / 3] % 16) })
}

impl From<[u8; 6]> for MacAddress {
    fn from(bytes: [u8; 6]) -> (r: Self) {
        Self(bytes)
    }
}

impl vstd::std_specs::convert::FromSpecImpl<[u8; 6]> for MacAddress {
    open spec fn obeys_from_spec() -> bool {
        true
    }

    closed spec fn from_spec(bytes: [u8; 6]) -> MacAddress {
        MacAddress(bytes)
    }
}

/// An IP address.
#[derive(Debug, Clone, Copy, PartialEq, Eq)]
pub enum IpAddress {
    V4([u8; 4]),
    V6([u8; 16]),
}

/// An IP network: an address and the length of its prefix in bits.
#[derive(Debug, Clone, Copy, PartialEq, Eq)]
pub struct IpPrefix {
    pub address: IpAddress,
    pub prefix_len: u8,
}

impl IpPrefix {
    /// The length of the prefix in bits.
    pub fn len(&self) -> (r: u8)
        ensures
            r == self.prefix_len,
    {
        self.prefix_len
    }
}

/// A pool of equally sized network buffers held in one memory object.
pub struct BufferPool {
    /// The number of buffers in the pool.
    pub buffer_count: usize,

    /// The size of each buffer in bytes.
    pub buffer_size: usize,

    /// The memory object backing the buffer pool.
    pub mobj: MemoryObject,
}

impl BufferPool {
    /// A constant representing an invalid buffer index.
    pub const INVALID_INDEX: usize = 0xffff_ffff;
}

/// A physical address.
#[derive(Debug, Clone, Copy, PartialEq, Eq, Hash, Structural)]
pub struct PhysAddr(u64);

impl PhysAddr {
    /// The address as a number.
    pub closed spec fn value(&self) -> u64 {
        self.0
    }

    /// The null address.
    pub fn null() -> (r: Self)
        ensures
            r.value() == 0,
    {
        Self(0)
    }

    /// The address as a number.
    pub fn as_u64(&self) -> (r: u64)
        ensures
            r == self.value(),
    {
        self.0
    }

    /// The address of the given number.
    pub fn from_u64(value: u64) -> (r: Self)
        ensures
            r.value() == value,
    {
        Self(value)
    }
}

impl From<u64> for PhysAddr {
    fn from(value: u64) -> (r: Self) {
        Self(value)
    }
}

impl vstd::std_specs::convert::FromSpecImpl<u64> for PhysAddr {
    open spec fn obeys_from_spec() -> bool {
        true
    }

    closed spec fn from_spec(value: u64) -> PhysAddr {
        PhysAddr(value)
    }
}

/// A hashbrown map from buffer addresses to buffer indexes.
#[verifier::external_body]
struct AddressIndex {
    map: hashbrown::HashMap<u64, usize>,
}

/// The entries of an address index.
pub uninterp spec fn index_entries(index: AddressIndex) -> Map<u64, usize>;

/// Calls `hashbrown::HashMap::with_capacity`: an empty map.
#[verifier::external_body]
fn index_with_capacity(capacity: usize) -> (index: AddressIndex)
    ensures
        index_entries(index).dom() == Set::<u64>::empty(),
{
    AddressIndex { map: hashbrown::HashMap::with_capacity(capacity) }
}

/// Calls `hashbrown::HashMap::insert`: afterwards `key` maps to `value`, and
/// every other key keeps its value.
#[verifier::external_body]
fn index_insert(index: &mut AddressIndex, key: u64, value: usize)
    ensures
        index_entries(*final(index)) == index_entries(*old(index)).insert(key, value),
{
    index.map.insert(key, value);
}

/// Calls `hashbrown::HashMap::get`: the value of `key`, if the map holds it.
#[verifier::external_body]
fn index_get(index: &AddressIndex, key: u64) -> (r: Option<usize>)
    ensures
        index_entries(*index).contains_key(key) ==> r == Some(index_entries(*index)[key]),
        !index_entries(*index).contains_key(key) ==> r is None,
{
    index.map.get(&key).copied()
}

/// The index map built from a list of buffer addresses: each address maps to
/// its position, a later position winning over an earlier one.
pub open spec fn indexes_of(addresses: Seq<PhysAddr>) -> Map<u64, usize>
    decreases addresses.len(),
{
    if addresses.len() == 0 {
        Map::empty()
    } else {
        indexes_of(addresses.drop_last()).insert(
            addresses.last().value(),
            (addresses.len() - 1) as usize,
        )
    }
}

/// Physical access to the buffers of a pool: from an index to the physical
/// address of its buffer, and back.
pub struct PhysBufferPoolAccess {
    /// The size of each buffer in bytes.
    buffer_size: usize,

    /// The physical addresses of the buffers in the pool.
    addresses: Vec<PhysAddr>,

    /// A mapping from physical addresses to buffer indexes.
    indexes: AddressIndex,
}

impl PhysBufferPoolAccess {
    pub closed spec fn spec_buffer_size(&self) -> usize {
        self.buffer_size
    }

    pub closed spec fn spec_addresses(&self) -> Seq<PhysAddr> {
        self.addresses@
    }

    #[verifier::type_invariant]
    closed spec fn inv(&self) -> bool {
        &&& self.buffer_size > 0
        &&& index_entries(self.indexes) == indexes_of(self.addresses@)
    }

    /// Creates the access for a pool whose buffers are `buffer_size` bytes,
    /// from the physical address of each buffer, in index order, as the kernel
    /// reports them for the pool's memory object.
    pub fn new(buffer_size: usize, addresses: &[PhysAddr]) -> (r: Self)
        requires
            buffer_size > 0,
            buffer_size & ((buffer_size - 1) as usize) == 0,
            buffer_size <= PAGE_SIZE,
        ensures
            r.spec_buffer_size() == buffer_size,
            r.spec_addresses() == addresses@,
    {
        let mut list: Vec<PhysAddr> = Vec::with_capacity(addresses.len());
        let mut indexes = index_with_capacity(addresses.len());
        let mut index: usize = 0;
        while index < addresses.len()
            invariant
                index <= addresses@.len(),
                list@ == addresses@.take(index as int),
                index_entries(indexes) == indexes_of(list@),
            decreases addresses@.len() - index,
        {
            let addr = addresses[index];
            list.push(addr);
            index_insert(&mut indexes, addr.as_u64(), index);
            proof {
                assert(list@ =~= addresses@.take(index + 1));
                assert(list@.drop_last() =~= addresses@.take(index as int));
            }
            index = index + 1;
        }
        proof {
            assert(addresses@.take(addresses@.len() as int) =~= addresses@);
        }
        Self { buffer_size, addresses: list, indexes }
    }

    /// Returns the physical address of the buffer at the given index, or `None` if the index is invalid.
    pub fn address_of(&self, index: usize) -> (r: Option<PhysAddr>)
        ensures
            index < self.spec_addresses().len() ==> r == Some(self.spec_addresses()[index as int]),
            index >= self.spec_addresses().len() ==> r is None,
    {
        if index < self.addresses.len() {
            Some(self.addresses[index])
        } else {
            None
        }
    }

    /// Returns the buffer index and offset for the given physical address, or `None` if the address is not part of any buffer in the pool.
    pub fn index_of(&self, addr: PhysAddr) -> (r: Option<(usize, usize)>)
        requires
            addr.value() <= usize::MAX,
        ensures
            ({
                let base = spec_align_down(addr.value() as int, self.spec_buffer_size() as int) as u64;
                let map = indexes_of(self.spec_addresses());
                &&& map.contains_key(base) ==> r == Some((map[base], (addr.value() - base) as usize))
                &&& !map.contains_key(base) ==> r is None
            }),
    {
        proof {
            use_type_invariant(self);
        }
        let buffer_addr = align_down(addr.as_u64() as usize, self.buffer_size) as u64;
        let offset = (addr.as_u64() - buffer_addr) as usize;
        match index_get(&self.indexes, buffer_addr) {
            Some(index) => Some((index, offset)),
            None => None,
        }
    }
}

/// Each buffer address, when no other buffer shares it, maps back to its own index.
pub proof fn lemma_indexes_of_distinct(addresses: Seq<PhysAddr>, i: int)
    requires
        0 <= i < addresses.len(),
        addresses.len() <= usize::MAX + 1,
        forall|j: int| 0 <= j < addresses.len() && j != i ==> addresses[j].value() != addresses[i].value(),
    ensures
        indexes_of(addresses).contains_key(addresses[i].value()),
        indexes_of(addresses)[addresses[i].value()] == i,
    decreases addresses.len(),
{
    if i < addresses.len() - 1 {
        let init = addresses.drop_last();
        assert forall|j: int| 0 <= j < init.len() && j != i implies init[j].value() != init[i].value() by {
            assert(init[j] == addresses[j]);
        }
        lemma_indexes_of_distinct(init, i);
        assert(addresses.last().value() != addresses[i].value());
    }
}

/// An address inside a buffer (the buffer's address, aligned to the buffer
/// size and not shared with another buffer, plus an offset below the buffer
/// size) is found again as that buffer's index and the offset.
pub proof fn lemma_index_of_address(access: PhysBufferPoolAccess, i: int, offset: int)
    requires
        0 <= i < access.spec_addresses().len(),
        access.spec_addresses().len() <= usize::MAX,
        access.spec_buffer_size() > 0,
        0 <= offset < access.spec_buffer_size(),
        access.spec_addresses()[i].value() + offset <= usize::MAX,
        access.spec_addresses()[i].value() as int % (access.spec_buffer_size() as int) == 0,
        forall|j: int| 0 <= j < access.spec_addresses().len() && j != i
            ==> access.spec_addresses()[j].value() != access.spec_addresses()[i].value(),
    ensures
        ({
            let a = access.spec_addresses()[i].value();
            let base = spec_align_down(a + offset, access.spec_buffer_size() as int) as u64;
            &&& base == a
            &&& a + offset - base == offset
            &&& indexes_of(access.spec_addresses()).contains_key(base)
            &&& indexes_of(access.spec_addresses())[base] == i
        }),
{
    let a = access.spec_addresses()[i].value() as int;
    let bs = access.spec_buffer_size() as int;
    assert((a + offset) % bs == offset) by (nonlinear_arith)
        requires
            a % bs == 0,
            0 <= offset < bs,
            a >= 0,
    {
        vstd::arithmetic::div_mod::lemma_fundamental_div_mod(a, bs);
        vstd::arithmetic::div_mod::lemma_mod_multiples_vanish(a / bs, offset, bs);
    }
    lemma_indexes_of_distinct(access.spec_addresses(), i);
}

} // verus!
