//! Buffer descriptors exchanged with network devices, each packed in a `u64`.
use vstd::prelude::*;
use bit_field::BitField;

verus! {

/// The mask of the `width` lowest bits.
pub open spec fn low_mask(width: u64) -> u64 {
    if width >= 64 {
        0xffff_ffff_ffff_ffffu64
    } else {
        ((1u64 << width) - 1) as u64
    }
}

/// Bits `start..end` of `value`, shifted down to bit 0.
pub open spec fn spec_get_bits(value: u64, start: u64, end: u64) -> u64 {
    if start == end {
        0
    } else {
        (value >> start) & low_mask((end - start) as u64)
    }
}

/// `value` with bits `start..end` replaced by `bits`.
pub open spec fn spec_set_bits(value: u64, start: u64, end: u64, bits: u64) -> u64 {
    if start == end {
        value
    } else {
        (value & !(low_mask((end - start) as u64) << start)) | (bits << start)
    }
}

/// Calls `BitField::get_bits` of bit_field on a `u64` with the range
/// `start..end`: the bits from `start` up to `end` (excluded), shifted down to
/// bit 0. bit_field panics unless `start < 64`, `end <= 64` and `start <= end`.
#[verifier::external_body]
fn get_bits(value: u64, start: usize, end: usize) -> (r: u64)
    requires
        start < 64,
        end <= 64,
        start <= end,
    ensures
        r == spec_get_bits(value, start as u64, end as u64),
{
    value.get_bits(start..end)
}

/// Calls `BitField::set_bits` of bit_field on a `u64` with the range
/// `start..end`: replaces those bits by the low bits of `bits`, keeping the
/// others. bit_field panics on a range out of bounds, or when `bits` has ones
/// above the width of the range.
#[verifier::external_body]
fn set_bits(value: &mut u64, start: usize, end: usize, bits: u64)
    requires
        start < 64,
        end <= 64,
        start <= end,
        bits & !low_mask((end - start) as u64) == 0,
        start == end ==> bits == 0,
    ensures
        *final(value) == spec_set_bits(*old(value), start as u64, end as u64, bits),
{
    value.set_bits(start..end, bits);
}

/// Calls `BitField::get_bit` of bit_field on a `u64`: whether bit `bit` is
/// set. bit_field panics unless `bit < 64`.
#[verifier::external_body]
fn get_bit(value: u64, bit: usize) -> (r: bool)
    requires
        bit < 64,
    ensures
        r == (value & (1u64 << (bit as u64)) != 0),
{
    value.get_bit(bit)
}

/// Calls `BitField::set_bit` of bit_field on a `u64`: sets bit `bit` to one
/// when `on`, to zero otherwise. bit_field panics unless `bit < 64`.
#[verifier::external_body]
fn set_bit(value: &mut u64, bit: usize, on: bool)
    requires
        bit < 64,
    ensures
        *final(value) == if on {
            *old(value) | (1u64 << (bit as u64))
        } else {
            *old(value) & !(1u64 << (bit as u64))
        },
{
    value.set_bit(bit, on);
}

/// The buffer index stored by `new` for an invalid buffer.
pub const INVALID_INDEX: usize = 0xffff_ffff;

/// A compact descriptor for a buffer slice, fitting in exactly 8 bytes.
///
/// Layout (64 bits):
/// - bits 0-31: buffer_index (32 bits, can index 4B buffers)
/// - bits 32-42: offset (11 bits, 0-2047 for 2048-byte buffer)
/// - bits 43-53: length (11 bits, 0-2047)
/// - bit 54: end_of_packet flag
/// - bits 55-63: reserved (9 bits for future use)
#[derive(Debug, Clone, Copy)]
pub struct TxBufferDescriptor(u64);

impl TxBufferDescriptor {
    /// The packed value.
    pub closed spec fn raw(&self) -> u64 {
        self.0
    }

    pub open spec fn spec_buffer_index(&self) -> u64 {
        self.raw() & 0xffff_ffff
    }

    pub open spec fn spec_offset(&self) -> u64 {
        (self.raw() >> 32u64) & 0x7ff
    }

    pub open spec fn spec_length(&self) -> u64 {
        (self.raw() >> 43u64) & 0x7ff
    }

    pub open spec fn spec_end_of_packet(&self) -> bool {
        (self.raw() >> 54u64) & 1 == 1
    }

    /// Create a new buffer descriptor.
    pub fn new(buffer_index: usize, offset: usize, length: usize, end_of_packet: bool) -> (r: Self)
        requires
            buffer_index <= u32::MAX,
            offset < 2048,
            length < 2048,
        ensures
            r.spec_buffer_index() == buffer_index,
            r.spec_offset() == offset,
            r.spec_length() == length,
            r.spec_end_of_packet() == end_of_packet,
            r.raw() >> 55u64 == 0,
    {
        let bi = buffer_index as u64;
        let off = offset as u64;
        let len = length as u64;
        let mut value = 0u64;
        proof {
            assert(bi & !low_mask(32) == 0) by (bit_vector) requires bi <= 0xffff_ffffu64;
            assert(off & !low_mask(11) == 0) by (bit_vector) requires off < 2048u64;
            assert(len & !low_mask(11) == 0) by (bit_vector) requires len < 2048u64;
        }
        set_bits(&mut value, 0, 32, bi);
        set_bits(&mut value, 32, 43, off);
        set_bits(&mut value, 43, 54, len);
        set_bit(&mut value, 54, end_of_packet);
        let r = TxBufferDescriptor(value);
        proof {
            let v1 = (0u64 & !(low_mask(32) << 0u64)) | (bi << 0u64);
            let v2 = (v1 & !(low_mask(11) << 32u64)) | (off << 32u64);
            let v3 = (v2 & !(low_mask(11) << 43u64)) | (len << 43u64);
            assert(v3 == bi | (off << 32u64) | (len << 43u64)) by (bit_vector)
                requires
                    bi <= 0xffff_ffffu64,
                    off < 2048u64,
                    len < 2048u64,
                    v1 == (0u64 & !(low_mask(32) << 0u64)) | (bi << 0u64),
                    v2 == (v1 & !(low_mask(11) << 32u64)) | (off << 32u64),
                    v3 == (v2 & !(low_mask(11) << 43u64)) | (len << 43u64);
            let w = bi | (off << 32u64) | (len << 43u64);
            let e: u64 = if end_of_packet { 1 } else { 0 };
            let v4 = if end_of_packet { w | (1u64 << 54u64) } else { w & !(1u64 << 54u64) };
            assert(v4 == w | (e << 54u64)) by (bit_vector)
                requires
                    w == bi | (off << 32u64) | (len << 43u64),
                    bi <= 0xffff_ffffu64,
                    off < 2048u64,
                    len < 2048u64,
                    e == 0 || e == 1,
                    v4 == if e == 1 { w | (1u64 << 54u64) } else { w & !(1u64 << 54u64) };
            assert({
                &&& v4 & 0xffff_ffff == bi
                &&& (v4 >> 32u64) & 0x7ff == off
                &&& (v4 >> 43u64) & 0x7ff == len
                &&& (v4 >> 54u64) & 1 == e
                &&& v4 >> 55u64 == 0
            }) by (bit_vector)
                requires
                    v4 == bi | (off << 32u64) | (len << 43u64) | (e << 54u64),
                    bi <= 0xffff_ffffu64,
                    off < 2048u64,
                    len < 2048u64,
                    e == 0 || e == 1;
        }
        r
    }

    /// Get the buffer index.
    pub fn buffer_index(&self) -> (r: usize)
        ensures
            r == self.spec_buffer_index(),
    {
        let v = get_bits(self.0, 0, 32);
        proof {
            let raw = self.0;
            assert((raw >> 0u64) & low_mask(32) == raw & 0xffff_ffff) by (bit_vector);
            assert(raw & 0xffff_ffff <= 0xffff_ffff) by (bit_vector);
        }
        v as usize
    }

    /// Get the offset within the buffer.
    pub fn offset(&self) -> (r: usize)
        ensures
            r == self.spec_offset(),
    {
        let v = get_bits(self.0, 32, 43);
        proof {
            let raw = self.0;
            assert((raw >> 32u64) & low_mask(11) == (raw >> 32u64) & 0x7ff) by (bit_vector);
            assert((raw >> 32u64) & 0x7ff <= 0x7ff) by (bit_vector);
        }
        v as usize
    }

    /// Get the length of data in the buffer.
    pub fn length(&self) -> (r: usize)
        ensures
            r == self.spec_length(),
    {
        let v = get_bits(self.0, 43, 54);
        proof {
            let raw = self.0;
            assert((raw >> 43u64) & low_mask(11) == (raw >> 43u64) & 0x7ff) by (bit_vector);
            assert((raw >> 43u64) & 0x7ff <= 0x7ff) by (bit_vector);
        }
        v as usize
    }

    /// Check if this is the end of packet.
    pub fn end_of_packet(&self) -> (r: bool)
        ensures
            r == self.spec_end_of_packet(),
    {
        let b = get_bit(self.0, 54);
        proof {
            let raw = self.0;
            assert((raw & (1u64 << 54u64) != 0) == ((raw >> 54u64) & 1 == 1)) by (bit_vector);
        }
        b
    }
}

impl Default for TxBufferDescriptor {
    /// The descriptor of no buffer.
    fn default() -> (r: Self)
        ensures
            r.spec_buffer_index() == INVALID_INDEX,
            r.spec_offset() == 0,
            r.spec_length() == 0,
            !r.spec_end_of_packet(),
    {
        Self::new(INVALID_INDEX, 0, 0, false)
    }
}

/// A compact descriptor for a receive buffer, fitting in exactly 8 bytes.
///
/// Layout (64 bits):
/// - bits 0-31: buffer_index (32 bits)
/// - bits 32-42: length (11 bits, 0-2047 for 2048-byte buffer)
/// - bit 43: end_of_packet flag
/// - bit 44: error flag (indicates if there was an error receiving into this buffer)
/// - bits 45-63: reserved (19 bits for future use)
#[derive(Debug, Clone, Copy)]
pub struct RxBufferDescriptor(u64);

impl RxBufferDescriptor {
    /// The packed value.
    pub closed spec fn raw(&self) -> u64 {
        self.0
    }

    pub open spec fn spec_buffer_index(&self) -> u64 {
        self.raw() & 0xffff_ffff
    }

    pub open spec fn spec_length(&self) -> u64 {
        (self.raw() >> 32u64) & 0x7ff
    }

    pub open spec fn spec_end_of_packet(&self) -> bool {
        (self.raw() >> 43u64) & 1 == 1
    }

    pub open spec fn spec_error(&self) -> bool {
        (self.raw() >> 44u64) & 1 == 1
    }

    /// Create a new RX buffer descriptor.
    ///
    /// A length of 2048 does not fit in the 11-bit field: bit_field then
    /// panics, so the length must stay below it.
    pub fn new(buffer_index: usize, length: usize, end_of_packet: bool, error: bool) -> (r: Self)
        requires
            buffer_index <= u32::MAX,
            length < 2048,
        ensures
            r.spec_buffer_index() == buffer_index,
            r.spec_length() == length,
            r.spec_end_of_packet() == end_of_packet,
            r.spec_error() == error,
            r.raw() >> 45u64 == 0,
    {
        let bi = buffer_index as u64;
        let len = length as u64;
        let mut value = 0u64;
        proof {
            assert(bi & !low_mask(32) == 0) by (bit_vector) requires bi <= 0xffff_ffffu64;
            assert(len & !low_mask(11) == 0) by (bit_vector) requires len < 2048u64;
        }
        set_bits(&mut value, 0, 32, bi);
        set_bits(&mut value, 32, 43, len);
        set_bit(&mut value, 43, end_of_packet);
        set_bit(&mut value, 44, error);
        let r = RxBufferDescriptor(value);
        proof {
            let v1 = (0u64 & !(low_mask(32) << 0u64)) | (bi << 0u64);
            let v2 = (v1 & !(low_mask(11) << 32u64)) | (len << 32u64);
            assert(v2 == bi | (len << 32u64)) by (bit_vector)
                requires
                    bi <= 0xffff_ffffu64,
                    len < 2048u64,
                    v1 == (0u64 & !(low_mask(32) << 0u64)) | (bi << 0u64),
                    v2 == (v1 & !(low_mask(11) << 32u64)) | (len << 32u64);
            let e: u64 = if end_of_packet { 1 } else { 0 };
            let f: u64 = if error { 1 } else { 0 };
            let v3 = if end_of_packet { v2 | (1u64 << 43u64) } else { v2 & !(1u64 << 43u64) };
            let v4 = if error { v3 | (1u64 << 44u64) } else { v3 & !(1u64 << 44u64) };
            assert({
                &&& v4 & 0xffff_ffff == bi
                &&& (v4 >> 32u64) & 0x7ff == len
                &&& (v4 >> 43u64) & 1 == e
                &&& (v4 >> 44u64) & 1 == f
                &&& v4 >> 45u64 == 0
            }) by (bit_vector)
                requires
                    v2 == bi | (len << 32u64),
                    bi <= 0xffff_ffffu64,
                    len < 2048u64,
                    e == 0 || e == 1,
                    f == 0 || f == 1,
                    v3 == if e == 1 { v2 | (1u64 << 43u64) } else { v2 & !(1u64 << 43u64) },
                    v4 == if f == 1 { v3 | (1u64 << 44u64) } else { v3 & !(1u64 << 44u64) };
        }
        r
    }

    /// Get the buffer index.
    pub fn buffer_index(&self) -> (r: usize)
        ensures
            r == self.spec_buffer_index(),
    {
        let v = get_bits(self.0, 0, 32);
        proof {
            let raw = self.0;
            assert((raw >> 0u64) & low_mask(32) == raw & 0xffff_ffff) by (bit_vector);
            assert(raw & 0xffff_ffff <= 0xffff_ffff) by (bit_vector);
        }
        v as usize
    }

    /// Get the length of data in the buffer.
    pub fn length(&self) -> (r: usize)
        ensures
            r == self.spec_length(),
    {
        let v = get_bits(self.0, 32, 43);
        proof {
            let raw = self.0;
            assert((raw >> 32u64) & low_mask(11) == (raw >> 32u64) & 0x7ff) by (bit_vector);
            assert((raw >> 32u64) & 0x7ff <= 0x7ff) by (bit_vector);
        }
        v as usize
    }

    /// Check if this is the end of packet.
    pub fn end_of_packet(&self) -> (r: bool)
        ensures
            r == self.spec_end_of_packet(),
    {
        let b = get_bit(self.0, 43);
        proof {
            let raw = self.0;
            assert((raw & (1u64 << 43u64) != 0) == ((raw >> 43u64) & 1 == 1)) by (bit_vector);
        }
        b
    }

    /// Check if there was an error receiving into this buffer.
    pub fn error(&self) -> (r: bool)
        ensures
            r == self.spec_error(),
    {
        let b = get_bit(self.0, 44);
        proof {
            let raw = self.0;
            assert((raw & (1u64 << 44u64) != 0) == ((raw >> 44u64) & 1 == 1)) by (bit_vector);
        }
        b
    }
}

impl Default for RxBufferDescriptor {
    /// The descriptor of no buffer.
    fn default() -> (r: Self)
        ensures
            r.spec_buffer_index() == INVALID_INDEX,
            r.spec_length() == 0,
            !r.spec_end_of_packet(),
            !r.spec_error(),
    {
        Self::new(INVALID_INDEX, 0, false, false)
    }
}

} // verus!
