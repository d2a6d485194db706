//! Messages of the time server.
use vstd::prelude::*;
use crate::layout::{le_bytes, le_value, u128_to_le, u128_from_le, lemma_le_roundtrip, lemma_le_bytes_len, pow256};


verus! {
/// Name of the IPC port for the time server.
pub const PORT_NAME: &'static str = "time";

/// Version of the time management messages.
pub const VERSION: u16 = 1;

/// Types of messages used in time management.
#[derive(Debug, Clone, Copy, PartialEq, Eq, Structural)]
pub enum Type {
    GetWallTime,
}


/// Errors used by the time server.
#[derive(Debug, Clone, Copy, PartialEq, Eq, Structural)]
pub enum TimeServerError {
    InvalidArgument,
    RuntimeError,
}


/// Parameters for the GetWallTime message.
#[derive(Debug, Clone, Copy)]
pub struct GetWallTimeQueryParameters {}

/// Reply for the GetWallTime message.
#[derive(Debug, Clone, Copy)]
pub struct GetWallTimeReply {
    /// Timestamp in nanoseconds since the Unix epoch (January 1, 1970).
    ///
    /// Since IPC data structures are 8-bytes aligned, we use an unaligned byte array to store the i128 timestamp.
    pub timestamp: Timestamp,
}

impl From<Type> for u16 {
    fn from(value: Type) -> (r: u16) {
        match value {
            Type::GetWallTime => 1,
        }
    }
}

impl vstd::std_specs::convert::FromSpecImpl<Type> for u16 {
    open spec fn obeys_from_spec() -> bool {
        true
    }

    open spec fn from_spec(value: Type) -> u16 {
        match value {
            Type::GetWallTime => 1,
        }
    }
}


/// A timestamp in nanoseconds as sixteen little-endian bytes, so that it can
/// travel in messages that are only 8-byte aligned.
#[derive(Debug, Clone, Copy, Default, PartialEq, Eq)]
pub struct Timestamp([u8; 16]);

impl Timestamp {
    /// The bytes of the timestamp.
    pub closed spec fn bytes(&self) -> Seq<u8> {
        self.0@
    }

    /// The timestamp as a number of nanoseconds.
    pub open spec fn nanos(&self) -> i128 {
        le_value(self.bytes(), 0, 16) as u128 as i128
    }
}

impl From<Timestamp> for i128 {
    fn from(value: Timestamp) -> (r: i128) {
        #[verifier::truncate] (u128_from_le(&value.0) as i128)
    }
}

impl vstd::std_specs::convert::FromSpecImpl<Timestamp> for i128 {
    open spec fn obeys_from_spec() -> bool {
        true
    }

    open spec fn from_spec(value: Timestamp) -> i128 {
        value.nanos()
    }
}

impl From<i128> for Timestamp {
    fn from(value: i128) -> (r: Self)
        ensures
            r.nanos() == value,
    {
        let bytes = u128_to_le(#[verifier::truncate] (value as u128));
        proof {
            let target = le_bytes(value as u128 as nat, 16);
            assert(bytes@ == target);
            assert(exists|b: [u8; 16]| #[trigger] b@ == target);
            let c = choose|b: [u8; 16]| b@ == target;
            assert(c =~= bytes) by {
                assert forall|i: int| 0 <= i < 16 implies c[i] == bytes[i] by {
                    assert(c@[i] == bytes@[i]);
                }
            }
        }
        proof {
            lemma_timestamp_roundtrip(value, Timestamp(bytes));
        }
        Timestamp(bytes)
    }
}

impl vstd::std_specs::convert::FromSpecImpl<i128> for Timestamp {
    open spec fn obeys_from_spec() -> bool {
        true
    }

    closed spec fn from_spec(value: i128) -> Timestamp {
        Timestamp(choose|b: [u8; 16]| b@ == le_bytes(value as u128 as nat, 16))
    }
}

/// Storing a number of nanoseconds in a timestamp and reading it back gives it unchanged.
pub proof fn lemma_timestamp_roundtrip(value: i128, t: Timestamp)
    requires
        t.bytes() == le_bytes(value as u128 as nat, 16),
    ensures
        t.nanos() == value,
{
    let e = Seq::<u8>::empty();
    lemma_le_roundtrip(value as u128 as nat, 16, e, e);
    lemma_le_bytes_len(value as u128 as nat, 16);
    assert(e + le_bytes(value as u128 as nat, 16) + e =~= t.bytes());
    reveal_with_fuel(pow256, 17);
    let u = value as u128;
    assert(pow256(16) == 0x1_0000_0000_0000_0000_0000_0000_0000_0000);
    vstd::arithmetic::div_mod::lemma_small_mod(u as nat, pow256(16));
    assert((u as i128) == value) by (bit_vector)
        requires u == value as u128;
}

} // verus!
