//! The sender's side: frames of one size with rising counters, built in
//! place.

use crate::clock::Clock;
use crate::frames::wire::{
    frame_image, lemma_image_runs_are_short, next_counter, ramp_byte, HEADER_LEN, RAMP_LEN,
};
use crate::protocols::ConstructionError;
use crate::stuffing::{sealed, stuff, stuffed_bound, Framing, DELIMITER};
use vstd::prelude::*;
use vstd::slice::slice_subrange;

verus! {

/// The least MTU a stuffed frame fits in: the header, the stuffing and the
/// delimiter.
pub const MIN_MTU: u16 = 6;

/// Nanoseconds in a second.
pub const NANOS_PER_SEC: u128 = 1_000_000_000;

/// Kilobits per second that `bytes` bytes sent in `nanos` nanoseconds come
/// to, by whole kilobytes and whole seconds; zero in the first second.
pub open spec fn average_kbps(bytes: nat, nanos: nat) -> nat {
    if nanos / 1_000_000_000 == 0 {
        0
    } else {
        bytes / 1024 * 8 / (nanos / 1_000_000_000)
    }
}

/// The state of a `FrameBuilder`.
pub struct BuilderState {
    /// The counter of the frame built last; `u32::MAX` before the first.
    pub counter: u32,
    /// Bytes of a frame before framing: header and payload.
    pub frame_len: nat,
    /// Bytes built so far, before framing.
    pub total_sent: nat,
    /// How the frames go on the wire.
    pub framing: Framing,
}

impl BuilderState {
    /// The state of a builder made for `mtu`: what the framing adds comes
    /// off the frame, so that the frame takes `mtu` bytes on the wire.
    pub open spec fn initial(mtu: u16, framing: Framing) -> BuilderState
        recommends
            mtu >= framing.least_size(),
    {
        BuilderState {
            counter: u32::MAX,
            frame_len: (mtu - framing.overhead()) as nat,
            total_sent: 0,
            framing,
        }
    }

    /// The state after one more frame.
    pub open spec fn advanced(self) -> BuilderState {
        BuilderState {
            counter: next_counter(self.counter),
            frame_len: self.frame_len,
            total_sent: self.total_sent + self.frame_len,
            framing: self.framing,
        }
    }

    /// Bytes that a frame takes on the wire: the MTU that the builder was
    /// made for.
    pub open spec fn wire_len(self) -> nat {
        self.frame_len + self.framing.overhead()
    }

    /// The frame built at this state, as it goes on the wire: the image of
    /// the counter and the ramp, as it is or stuffed and closed by the
    /// delimiter.
    pub open spec fn wire_frame(self) -> Seq<u8> {
        match self.framing {
            Framing::Plain => frame_image(self.counter, self.frame_len),
            Framing::Stuffed => sealed(frame_image(self.counter, self.frame_len)),
        }
    }
}

/// Builds the frames a sender emits. Every call of `next` hands out the same
/// buffer with the next counter in it.
pub struct FrameBuilder {
    counter: u32,
    buf: Vec<u8>,
    clock: Clock,
    total_send: u64,
    cobs_encoded: Vec<u8>,
    framing: Framing,
}

impl View for FrameBuilder {
    type V = BuilderState;

    closed spec fn view(&self) -> BuilderState {
        BuilderState {
            counter: self.counter,
            frame_len: self.buf@.len(),
            total_sent: self.total_send as nat,
            framing: self.framing,
        }
    }
}

impl FrameBuilder {
    #[verifier::type_invariant]
    spec fn inv(self) -> bool {
        &&& 4 <= self.buf@.len() <= u16::MAX
        &&& forall|i: int| 4 <= i < self.buf@.len() ==> self.buf@[i] == ramp_byte(i - 4)
        &&& self.framing == Framing::Stuffed ==> self.cobs_encoded@.len() > stuffed_bound(
            self.buf@.len(),
        )
    }

    /// A builder of stuffed frames for `mtu`: each takes `mtu` bytes on the
    /// wire, stuffing and delimiter included.
    pub fn new(mtu: u16) -> (builder: Self)
        requires
            mtu >= MIN_MTU,
        ensures
            builder@ == BuilderState::initial(mtu, Framing::Stuffed),
    {
        Self::build(mtu, Framing::Stuffed)
    }

    /// A builder of frames for `mtu` in the given framing, or the error
    /// where `mtu` is too small to hold a frame.
    pub fn with_framing(mtu: u16, framing: Framing) -> (built: Result<Self, ConstructionError>)
        ensures
            match built {
                Ok(builder) => mtu >= framing.least_size() && builder@ == BuilderState::initial(
                    mtu,
                    framing,
                ),
                Err(e) => mtu < framing.least_size() && e == ConstructionError::MtuTooSmall,
            },
    {
        if mtu >= HEADER_LEN as u16 + framing.wire_overhead() {
            Ok(Self::build(mtu, framing))
        } else {
            Err(ConstructionError::MtuTooSmall)
        }
    }

    /// Makes the builder. The payload is filled with the ramp once, here.
    fn build(mtu: u16, framing: Framing) -> (builder: Self)
        requires
            mtu >= framing.least_size(),
        ensures
            builder@ == BuilderState::initial(mtu, framing),
    {
        let len: usize = (mtu - framing.wire_overhead()) as usize;
        let mut buf: Vec<u8> = vec![0u8; len];
        let mut i: usize = HEADER_LEN;
        while i < len
            invariant
                4 <= i <= len,
                buf@.len() == len,
                forall|j: int| 4 <= j < i ==> buf@[j] == ramp_byte(j - 4),
            decreases len - i,
        {
            buf[i] = ((i - HEADER_LEN) % RAMP_LEN) as u8;
            i += 1;
        }
        let room: usize = match framing {
            Framing::Plain => 0,
            Framing::Stuffed => len + len / 254 + 2,
        };
        Self {
            counter: u32::MAX,
            buf,
            clock: Clock::start(),
            total_send: 0,
            cobs_encoded: vec![0u8; room],
            framing,
        }
    }

    /// Whether one more frame can be built without the byte count running
    /// over.
    pub fn can_build(&self) -> (ok: bool)
        ensures
            ok == (self@.total_sent + self@.frame_len <= u64::MAX),
    {
        self.buf.len() as u64 <= u64::MAX - self.total_send
    }

    /// Builds the next frame and hands it out as it goes on the wire, where
    /// it takes the MTU that the builder was made for. The counter goes up
    /// by one, modulo 2^32. Of a stuffed frame no byte but the last is zero.
    pub fn next(&mut self) -> (frame: &[u8])
        requires
            old(self)@.total_sent + old(self)@.frame_len <= u64::MAX,
        ensures
            final(self)@ == old(self)@.advanced(),
            frame@ == final(self)@.wire_frame(),
            frame@.len() == final(self)@.wire_len(),
            old(self)@.framing == Framing::Stuffed ==> forall|i: int|
                0 <= i < frame@.len() - 1 ==> frame@[i] != 0,
    {
        proof {
            use_type_invariant(&*self);
        }
        self.counter = self.counter.wrapping_add(1);
        let c: u32 = self.counter;
        self.buf[0] = (c / 0x100_0000) as u8;
        self.buf[1] = ((c / 0x1_0000) % 0x100) as u8;
        self.buf[2] = ((c / 0x100) % 0x100) as u8;
        self.buf[3] = (c % 0x100) as u8;
        assert(self.buf@ =~= frame_image(c, self.buf@.len()));
        proof {
            lemma_image_runs_are_short(c, self.buf@.len());
        }
        self.total_send = self.total_send + self.buf.len() as u64;
        match self.framing {
            Framing::Plain => self.buf.as_slice(),
            Framing::Stuffed => {
                let written: usize = stuff(self.buf.as_slice(), &mut self.cobs_encoded);
                self.cobs_encoded[written] = DELIMITER;
                let frame: &[u8] = slice_subrange(self.cobs_encoded.as_slice(), 0, written + 1);
                assert(frame@ =~= self@.wire_frame());
                frame
            },
        }
    }

    /// Nanoseconds since the builder was made.
    pub fn elapsed(&self) -> (nanos: u128) {
        self.clock.nanos()
    }

    /// The average rate of what was built, in kbps, at the present moment.
    pub fn get_avg_kbps(&self) -> (rate: u64)
        ensures
            exists|elapsed: nat| rate == average_kbps(self@.total_sent, elapsed),
    {
        let elapsed: u128 = self.elapsed();
        let rate: u64 = self.get_avg_kbps_after(elapsed);
        assert(rate == average_kbps(self@.total_sent, elapsed as nat));
        rate
    }

    /// The average rate of what was built, in kbps, `elapsed` nanoseconds
    /// after the builder was made.
    pub fn get_avg_kbps_after(&self, elapsed: u128) -> (rate: u64)
        ensures
            rate == average_kbps(self@.total_sent, elapsed as nat),
    {
        let secs: u128 = elapsed / NANOS_PER_SEC;
        if secs == 0 {
            return 0;
        }
        let scaled: u128 = (self.total_send / 1024 * 8) as u128;
        assert(scaled / secs <= scaled) by (nonlinear_arith)
            requires
                secs >= 1,
                scaled >= 0,
        ;
        (scaled / secs) as u64
    }
}

} // verus!
