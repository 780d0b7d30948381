//! The priority-change request and its wire layout.
//!
//! A write request carries eight bytes: the thread identifier as an unsigned
//! 32-bit value at offset 0 and the priority as a signed 32-bit value at
//! offset 4, both least significant byte first.

use vstd::prelude::*;

verus! {

/// Lowest priority that a request may ask for.
pub const MIN_PRIORITY: i32 = 1;

/// Highest priority that a request may ask for.
pub const MAX_PRIORITY: i32 = 31;

/// Size of the payload in bytes.
pub const PAYLOAD_SIZE: usize = 8;

/// The payload of a write request. It lives for one request only and is
/// never changed by the module.
#[derive(Clone, Copy, Debug, PartialEq, Eq, Structural)]
pub struct ThreadData {
    /// Identifier of the thread in the host's namespace. Whether it names a
    /// live thread is known only once the host has looked it up.
    pub thread_id: u32,
    /// Requested priority; acceptable from 1 to 31 inclusive.
    pub priority: i32,
}

/// The unsigned value of four bytes, least significant first.
pub open spec fn le_value(b0: u8, b1: u8, b2: u8, b3: u8) -> int {
    b0 as int + 0x100 * (b1 as int) + 0x1_0000 * (b2 as int) + 0x100_0000 * (b3 as int)
}

/// The two's complement reading of an unsigned 32-bit value.
pub open spec fn signed_value(raw: int) -> int {
    if raw < 0x8000_0000 {
        raw
    } else {
        raw - 0x1_0000_0000
    }
}

/// The unsigned 32-bit value whose two's complement reading is `value`.
pub open spec fn raw_value(value: int) -> int {
    if value >= 0 {
        value
    } else {
        value + 0x1_0000_0000
    }
}

/// Byte `index` (0 is the least significant) of an unsigned value.
pub open spec fn le_byte(value: int, index: nat) -> int {
    if index == 0 {
        value % 0x100
    } else if index == 1 {
        (value / 0x100) % 0x100
    } else if index == 2 {
        (value / 0x1_0000) % 0x100
    } else {
        (value / 0x100_0000) % 0x100
    }
}

/// What eight payload bytes mean.
pub open spec fn decode_payload(bytes: Seq<u8>) -> ThreadData
    recommends
        bytes.len() == 8,
{
    ThreadData {
        thread_id: le_value(bytes[0], bytes[1], bytes[2], bytes[3]) as u32,
        priority: signed_value(le_value(bytes[4], bytes[5], bytes[6], bytes[7])) as i32,
    }
}

/// The eight bytes that carry a request.
pub open spec fn encode_payload(data: ThreadData) -> Seq<u8> {
    Seq::new(
        8,
        |i: int|
            if i < 4 {
                le_byte(data.thread_id as int, i as nat) as u8
            } else {
                le_byte(raw_value(data.priority as int), (i - 4) as nat) as u8
            },
    )
}

impl ThreadData {
    /// Whether the priority lies in the accepted range.
    pub open spec fn priority_in_range(self) -> bool {
        MIN_PRIORITY <= self.priority <= MAX_PRIORITY
    }

    /// Tells whether the requested priority is one the module accepts.
    #[verifier::when_used_as_spec(priority_in_range)]
    pub fn has_valid_priority(self) -> (ok: bool)
        ensures
            ok == self.priority_in_range(),
    {
        MIN_PRIORITY <= self.priority && self.priority <= MAX_PRIORITY
    }

    /// Reads a request from its wire form.
    pub fn from_bytes(bytes: &[u8; 8]) -> (data: ThreadData)
        ensures
            data == decode_payload(bytes@),
    {
        let id: u32 = join_le(bytes[0], bytes[1], bytes[2], bytes[3]);
        let raw: u32 = join_le(bytes[4], bytes[5], bytes[6], bytes[7]);
        let priority: i32 = if raw < 0x8000_0000 {
            raw as i32
        } else {
            (raw as i64 - 0x1_0000_0000) as i32
        };
        ThreadData { thread_id: id, priority }
    }

    /// Writes the request in its wire form.
    pub fn to_bytes(&self) -> (bytes: [u8; 8])
        ensures
            bytes@ == encode_payload(*self),
            decode_payload(bytes@) == *self,
    {
        let id: u32 = self.thread_id;
        let raw: u32 = if self.priority >= 0 {
            self.priority as u32
        } else {
            (self.priority as i64 + 0x1_0000_0000) as u32
        };
        let bytes: [u8; 8] = [
            (id % 0x100) as u8,
            ((id / 0x100) % 0x100) as u8,
            ((id / 0x1_0000) % 0x100) as u8,
            ((id / 0x100_0000) % 0x100) as u8,
            (raw % 0x100) as u8,
            ((raw / 0x100) % 0x100) as u8,
            ((raw / 0x1_0000) % 0x100) as u8,
            ((raw / 0x100_0000) % 0x100) as u8,
        ];
        proof {
            assert(bytes@ =~= encode_payload(*self));
            lemma_payload_round_trip(*self);
        }
        bytes
    }
}

/// Joins four bytes, least significant first, into one unsigned value.
fn join_le(b0: u8, b1: u8, b2: u8, b3: u8) -> (value: u32)
    ensures
        value == le_value(b0, b1, b2, b3),
{
    b0 as u32 + 0x100 * (b1 as u32) + 0x1_0000 * (b2 as u32) + 0x100_0000 * (b3 as u32)
}

/// Decoding undoes encoding: every request survives the trip over the wire.
pub proof fn lemma_payload_round_trip(data: ThreadData)
    ensures
        encode_payload(data).len() == 8,
        decode_payload(encode_payload(data)) == data,
{
    let bytes = encode_payload(data);
    let id = data.thread_id as int;
    let raw = raw_value(data.priority as int);
    assert(le_value(bytes[0], bytes[1], bytes[2], bytes[3]) == id);
    assert(le_value(bytes[4], bytes[5], bytes[6], bytes[7]) == raw);
}

/// Each byte of a joined value is the byte that went in.
proof fn lemma_bytes_of_le_value(b0: u8, b1: u8, b2: u8, b3: u8)
    ensures
        le_byte(le_value(b0, b1, b2, b3), 0) == b0,
        le_byte(le_value(b0, b1, b2, b3), 1) == b1,
        le_byte(le_value(b0, b1, b2, b3), 2) == b2,
        le_byte(le_value(b0, b1, b2, b3), 3) == b3,
{
    let v = le_value(b0, b1, b2, b3);
    let hi1 = b1 as int + 0x100 * (b2 as int) + 0x1_0000 * (b3 as int);
    let hi2 = b2 as int + 0x100 * (b3 as int);
    assert(v == b0 as int + 0x100 * hi1);
    assert(v / 0x100 == hi1);
    assert(hi1 == b1 as int + 0x100 * hi2);
    assert(v / 0x1_0000 == hi2) by {
        assert(v == b0 as int + 0x100 * (b1 as int) + 0x1_0000 * hi2);
    }
    assert(v / 0x100_0000 == b3 as int);
}

/// Encoding undoes decoding: eight bytes are the wire form of exactly one
/// request.
pub proof fn lemma_bytes_round_trip(bytes: Seq<u8>)
    requires
        bytes.len() == 8,
    ensures
        encode_payload(decode_payload(bytes)) == bytes,
{
    let data = decode_payload(bytes);
    let id = le_value(bytes[0], bytes[1], bytes[2], bytes[3]);
    let raw = le_value(bytes[4], bytes[5], bytes[6], bytes[7]);
    assert(data.thread_id as int == id);
    assert(raw_value(data.priority as int) == raw);
    lemma_bytes_of_le_value(bytes[0], bytes[1], bytes[2], bytes[3]);
    lemma_bytes_of_le_value(bytes[4], bytes[5], bytes[6], bytes[7]);
    let back = encode_payload(data);
    assert forall|i: int| 0 <= i < 8 implies back[i] == bytes[i] by {
        if i < 4 {
            assert(back[i] == le_byte(id, i as nat) as u8);
        } else {
            assert(back[i] == le_byte(raw, (i - 4) as nat) as u8);
        }
    }
    assert(back =~= bytes);
}

} // verus!
