//! The wire image of a frame: a big-endian sequence counter followed by a
//! ramp of bytes that the receiver can check without any shared state.

use crate::stuffing::{runs_are_short, zero_within_run};
use vstd::prelude::*;

verus! {

/// Bytes taken by the sequence counter at the head of a frame.
pub const HEADER_LEN: usize = 4;

/// Period of the ramp `0, 1, .., 15` that fills the payload.
pub const RAMP_LEN: usize = 16;

/// The byte that stands at offset `i` of a payload.
pub open spec fn ramp_byte(i: int) -> u8 {
    (i % 16) as u8
}

/// The payload of `len` bytes: the ramp repeated and cut off at `len`.
pub open spec fn ramp(len: nat) -> Seq<u8> {
    Seq::new(len, |i: int| ramp_byte(i))
}

/// Whether every byte of `payload` is the ramp byte of its offset. A payload
/// cut off in the middle of a period is a ramp too, and so is the empty one.
pub open spec fn is_ramp(payload: Seq<u8>) -> bool {
    forall|i: int| 0 <= i < payload.len() ==> payload[i] == ramp_byte(i)
}

/// The counter after `c`: counters live modulo 2^32.
pub open spec fn next_counter(c: u32) -> u32 {
    if c == u32::MAX {
        0
    } else {
        (c + 1) as u32
    }
}

/// The counter before `c`, modulo 2^32.
pub open spec fn prev_counter(c: u32) -> u32 {
    if c == 0 {
        u32::MAX
    } else {
        (c - 1) as u32
    }
}

/// How far `counter` is ahead of `due`, modulo 2^32: the steps from `due` up
/// to `counter`, through the wrap where `counter` is the smaller number.
pub open spec fn lead(due: u32, counter: u32) -> nat {
    if counter >= due {
        (counter - due) as nat
    } else {
        (counter - due + 0x1_0000_0000) as nat
    }
}

/// Whether `counter` is behind `due`, modulo 2^32: it is, where the way up
/// to it from `due` is half the range or more.
pub open spec fn is_behind(due: u32, counter: u32) -> bool {
    lead(due, counter) >= 0x8000_0000
}

/// The number that four bytes spell in big-endian order.
pub open spec fn be_value(b: Seq<u8>) -> int
    recommends
        b.len() == 4,
{
    b[0] * 0x100_0000 + b[1] * 0x1_0000 + b[2] * 0x100 + b[3]
}

/// The four bytes that spell `v` in big-endian order.
pub open spec fn be_bytes(v: u32) -> Seq<u8> {
    seq![
        (v / 0x100_0000) as u8,
        ((v / 0x1_0000) % 0x100) as u8,
        ((v / 0x100) % 0x100) as u8,
        (v % 0x100) as u8,
    ]
}

/// The frame of `len` bytes that carries `counter`.
pub open spec fn frame_image(counter: u32, len: nat) -> Seq<u8>
    recommends
        len >= 4,
{
    be_bytes(counter) + ramp((len - 4) as nat)
}

/// A frame holds a zero in every sixteen bytes of its payload, so no 254
/// bytes in a row of it are all other than zero.
pub proof fn lemma_image_runs_are_short(counter: u32, len: nat)
    requires
        len >= 4,
    ensures
        runs_are_short(frame_image(counter, len)),
{
    let image = frame_image(counter, len);
    assert forall|from: int| 0 <= from && from + 254 <= image.len() implies zero_within_run(
        image,
        from,
    ) by {
        let first = if from < 4 {
            4
        } else {
            from
        };
        let at = (first - 4 + 15) / 16 * 16 + 4;
        assert(first <= at < first + 16);
        assert((at - 4) % 16 == 0);
        assert(image[at] == ramp_byte(at - 4));
    }
}

/// What a receiver reads off one decoded frame.
#[derive(Clone, Copy, Debug, PartialEq, Eq, Structural)]
pub struct Reading {
    /// The sequence counter in the header.
    pub counter: u32,
    /// Whether the payload is the ramp, byte for byte.
    pub intact: bool,
}

/// What `unit` shows: nothing when it is too short to hold a header.
pub open spec fn reading_of(unit: Seq<u8>) -> Option<Reading> {
    if unit.len() < 4 {
        None
    } else {
        Some(
            Reading {
                counter: be_value(unit.subrange(0, 4)) as u32,
                intact: is_ramp(unit.skip(4)),
            },
        )
    }
}

/// Reads the big-endian counter at the head of `unit`.
pub fn read_counter(unit: &[u8]) -> (counter: u32)
    requires
        unit@.len() >= 4,
    ensures
        counter == be_value(unit@.subrange(0, 4)),
{
    let b0: u32 = unit[0] as u32;
    let b1: u32 = unit[1] as u32;
    let b2: u32 = unit[2] as u32;
    let b3: u32 = unit[3] as u32;
    b0 * 0x100_0000 + b1 * 0x1_0000 + b2 * 0x100 + b3
}

/// Checks the bytes of `unit` from `HEADER_LEN` on against the ramp.
pub fn payload_intact(unit: &[u8]) -> (intact: bool)
    requires
        unit@.len() >= 4,
    ensures
        intact == is_ramp(unit@.skip(4)),
{
    let n: usize = unit.len();
    let mut i: usize = HEADER_LEN;
    while i < n
        invariant
            4 <= i <= n,
            n == unit@.len(),
            forall|j: int| 0 <= j < i - 4 ==> unit@.skip(4)[j] == ramp_byte(j),
        decreases n - i,
    {
        let want: u8 = ((i - HEADER_LEN) % RAMP_LEN) as u8;
        if unit[i] != want {
            assert(unit@.skip(4)[i - 4] != ramp_byte(i - 4));
            return false;
        }
        i += 1;
    }
    true
}

/// Reads the header of a decoded frame and checks its payload.
pub fn inspect(unit: &[u8]) -> (reading: Option<Reading>)
    ensures
        reading == reading_of(unit@),
{
    if unit.len() < HEADER_LEN {
        None
    } else {
        Some(Reading { counter: read_counter(unit), intact: payload_intact(unit) })
    }
}

} // verus!
