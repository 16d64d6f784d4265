//! How frames are told apart on the wire. A datagram holds one frame as it
//! is. On a stream the frame is stuffed, so that it holds no zero byte, and
//! a zero byte closes it.

use vstd::prelude::*;

verus! {

/// The byte that closes a stuffed frame on the wire.
pub const DELIMITER: u8 = 0;

/// Bytes that the stuffing and the delimiter add to a frame of the test
/// traffic. The ramp holds a zero in every sixteen bytes, so no run of the
/// frame is long enough to take a second byte of stuffing.
pub const COBS_OVERHEAD: u16 = 2;

/// How a frame goes on the wire.
#[derive(Clone, Copy, Debug, PartialEq, Eq, Structural)]
pub enum Framing {
    /// As it is: one frame, one datagram.
    Plain,
    /// Stuffed and closed by the delimiter, so that frames can be told
    /// apart in a stream.
    Stuffed,
}

impl Framing {
    /// Bytes that the framing adds to a frame.
    pub open spec fn overhead(self) -> nat {
        match self {
            Framing::Plain => 0,
            Framing::Stuffed => 2,
        }
    }

    /// The fewest bytes a frame takes on the wire: the header and what the
    /// framing adds.
    pub open spec fn least_size(self) -> nat {
        4 + self.overhead()
    }

    /// Bytes that the framing adds to a frame.
    pub fn wire_overhead(&self) -> (bytes: u16)
        ensures
            bytes == self.overhead(),
    {
        match self {
            Framing::Plain => 0,
            Framing::Stuffed => COBS_OVERHEAD,
        }
    }
}

/// The most bytes that the stuffing of `len` bytes can take.
pub open spec fn stuffed_bound(len: nat) -> nat {
    len + len / 254 + 1
}

/// Whether a zero stands among the 254 bytes of `source` from `from` on.
pub open spec fn zero_within_run(source: Seq<u8>, from: int) -> bool {
    exists|at: int| from <= at < from + 254 && #[trigger] source[at] == 0
}

/// Whether no 254 bytes in a row of `source` are all other than zero.
pub open spec fn runs_are_short(source: Seq<u8>) -> bool {
    forall|from: int|
        0 <= from && from + 254 <= source.len() ==> #[trigger] zero_within_run(source, from)
}

/// The stuffed form of `source`, as `cobs::encode` computes it.
pub uninterp spec fn stuffed(source: Seq<u8>) -> Seq<u8>;

/// What `cobs::decode` makes of `source` when it has `room` bytes to write
/// to: the decoded bytes, or nothing where it reports an error.
pub uninterp spec fn unstuffed(source: Seq<u8>, room: nat) -> Option<Seq<u8>>;

/// The stuffed form of `source` with the delimiter that closes it.
pub open spec fn sealed(source: Seq<u8>) -> Seq<u8> {
    stuffed(source).push(0u8)
}

/// Calls `cobs::encode`, which stuffs `source` into the front of `dest` and
/// returns the number of bytes it wrote. The outside function panics when
/// `dest` is too short; with `stuffed_bound` bytes it never runs out, as each
/// source byte takes one byte and each full run of 254 bytes other than zero
/// one more, after the leading one. So a source without such a run, unless
/// it is empty, takes one byte more than it has. The bytes written are never
/// zero.
#[verifier::external_body]
pub(crate) fn stuff(source: &[u8], dest: &mut Vec<u8>) -> (written: usize)
    requires
        old(dest)@.len() >= stuffed_bound(source@.len()),
    ensures
        final(dest)@.len() == old(dest)@.len(),
        written <= stuffed_bound(source@.len()),
        source@.len() > 0 && runs_are_short(source@) ==> written == source@.len() + 1,
        final(dest)@.subrange(0, written as int) == stuffed(source@),
        forall|i: int| 0 <= i < written ==> final(dest)@[i] != 0,
    no_unwind
{
    cobs::encode(source, dest.as_mut_slice())
}

/// Calls `cobs::decode`, which undoes the stuffing of `source` into the front
/// of `dest` and returns the number of bytes decoded, or an error where
/// `source` is no stuffed frame or `dest` is too short for it. It reads up to
/// the first closing zero byte and skips zero bytes that lead.
#[verifier::external_body]
pub(crate) fn unstuff(source: &[u8], dest: &mut Vec<u8>) -> (decoded: Result<usize, ()>)
    ensures
        final(dest)@.len() == old(dest)@.len(),
        match decoded {
            Ok(n) => n <= final(dest)@.len() && unstuffed(source@, old(dest)@.len()) == Some(
                final(dest)@.subrange(0, n as int),
            ),
            Err(_) => unstuffed(source@, old(dest)@.len()) is None,
        },
{
    cobs::decode(source, dest.as_mut_slice())
}

} // verus!
