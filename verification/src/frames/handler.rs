//! The receiver's side: every unit that arrives is told apart and counted.

use crate::frames::speed_measurer::{mean, Gauge, SpeedMeasurer};
use crate::frames::statistics::{FrameStatistics, Tally};
use crate::frames::wire::{
    inspect, is_behind, lead, next_counter, prev_counter, reading_of, Reading,
};
use crate::stuffing::{unstuff, unstuffed, Framing};
use vstd::prelude::*;
use vstd::slice::slice_subrange;

verus! {

/// Bytes a handler has for one decoded frame: the largest datagram.
pub const MAX_FRAME_SIZE: usize = 65536;

/// The value of the expected counter before any frame of the session.
pub const NO_FRAME_YET: u32 = u32::MAX;

/// Half the range of a counter: a frame this far ahead, or further, is
/// behind.
pub const HALF_RANGE: u32 = 0x8000_0000;

/// What a handler knows of the sequence: the counter of the frame it saw
/// last, or took as its baseline, and the counters of the session.
pub struct Ledger {
    pub expected: u32,
    pub tally: Tally,
}

impl Ledger {
    /// The ledger at the start of session `session_id`.
    pub open spec fn fresh(session_id: nat) -> Ledger {
        Ledger { expected: u32::MAX, tally: Tally::zero(session_id) }
    }

    /// Whether no frame of the session has been placed in the sequence yet,
    /// as far as the ledger can tell.
    pub open spec fn awaiting(self) -> bool {
        self.expected == u32::MAX
    }

    /// The ledger after a unit that holds no frame.
    pub open spec fn rejected(self) -> Ledger {
        Ledger { tally: Tally { invalid: self.tally.invalid + 1, ..self.tally }, ..self }
    }

    /// The ledger after a frame with `counter` was placed in the sequence.
    /// The counter due is the one after the last, and the two are compared
    /// modulo 2^32. A frame behind the one due is out of order: it takes back
    /// one presumed loss, and the expectation stays where it was. A frame
    /// ahead of it leaves the counters between presumed lost and becomes the
    /// new baseline.
    pub open spec fn placed(self, counter: u32) -> Ledger {
        let due = next_counter(self.expected);
        if is_behind(due, counter) {
            Ledger {
                expected: prev_counter(due),
                tally: Tally {
                    out_of_order: self.tally.out_of_order + 1,
                    lost: if self.tally.lost == 0 {
                        0
                    } else {
                        (self.tally.lost - 1) as nat
                    },
                    ..self.tally
                },
            }
        } else if counter == due {
            Ledger { expected: due, ..self }
        } else {
            Ledger {
                expected: counter,
                tally: Tally { lost: self.tally.lost + lead(due, counter), ..self.tally },
            }
        }
    }

    /// The ledger after the payload of a placed frame was checked.
    pub open spec fn judged(self, intact: bool) -> Ledger {
        if intact {
            Ledger { tally: Tally { valid: self.tally.valid + 1, ..self.tally }, ..self }
        } else {
            Ledger {
                tally: Tally { internally_bad: self.tally.internally_bad + 1, ..self.tally },
                ..self
            }
        }
    }

    /// The ledger after one unit, given what was read off it.
    pub open spec fn recorded(self, reading: Option<Reading>) -> Ledger {
        match reading {
            Some(r) => self.placed(r.counter).judged(r.intact),
            None => self.rejected(),
        }
    }

    /// The ledger at the start of the next session.
    pub open spec fn restarted(self) -> Ledger {
        Ledger::fresh(self.tally.session_id + 1)
    }
}

/// What was read off a unit after decoding: nothing where decoding failed.
pub open spec fn reading_of_decoded(decoded: Option<Seq<u8>>) -> Option<Reading> {
    match decoded {
        Some(unit) => reading_of(unit),
        None => None,
    }
}

/// `unit` without the one zero byte that may lead it.
pub open spec fn without_leading_zero(unit: Seq<u8>) -> Seq<u8> {
    if unit.len() > 0 && unit[0] == 0 {
        unit.skip(1)
    } else {
        unit
    }
}

/// The state of a `FrameHandler`.
pub struct HandlerState {
    /// The sequence and the counters.
    pub ledger: Ledger,
    /// The throughput and latency figures.
    pub gauge: Gauge,
    /// Bytes the handler has for one decoded frame.
    pub room: nat,
    /// How the frames come on the wire.
    pub framing: Framing,
}

impl HandlerState {
    /// The state of a handler that has seen nothing, at the start of
    /// session `session_id`.
    pub open spec fn fresh(session_id: nat, room: nat, framing: Framing) -> HandlerState {
        HandlerState { ledger: Ledger::fresh(session_id), gauge: Gauge::idle(), room, framing }
    }

    /// The state at the start of the next session.
    pub open spec fn restarted(self) -> HandlerState {
        HandlerState {
            ledger: self.ledger.restarted(),
            gauge: self.gauge.restarted(),
            room: self.room,
            framing: self.framing,
        }
    }

    /// Whether a unit of `len` bytes can be counted without a counter
    /// running over.
    pub open spec fn can_take(self, len: nat) -> bool {
        self.ledger.tally.has_room() && self.gauge.session_bytes + len <= u64::MAX
    }

    /// What is read off `unit` as it came from the transport. A plain unit
    /// is inspected as it is. A stuffed one is un-stuffed first, without the
    /// zero byte that may lead it, and shows nothing where that fails.
    pub open spec fn reading(self, unit: Seq<u8>) -> Option<Reading> {
        match self.framing {
            Framing::Plain => reading_of(unit),
            Framing::Stuffed => reading_of_decoded(
                unstuffed(without_leading_zero(unit), self.room),
            ),
        }
    }

    /// The state after `unit` arrived at `now`.
    pub open spec fn received(self, unit: Seq<u8>, now: nat) -> HandlerState {
        HandlerState {
            ledger: self.ledger.recorded(self.reading(unit)),
            gauge: self.gauge.arrived(unit.len(), now),
            room: self.room,
            framing: self.framing,
        }
    }
}

/// Tells every received unit apart and keeps the statistics of the session.
pub struct FrameHandler {
    counter: u32,
    statistics: FrameStatistics,
    buf: Vec<u8>,
    speed_handler: SpeedMeasurer,
    framing: Framing,
}

impl View for FrameHandler {
    type V = HandlerState;

    closed spec fn view(&self) -> HandlerState {
        HandlerState {
            ledger: Ledger { expected: self.counter, tally: self.statistics@ },
            gauge: self.speed_handler@,
            room: self.buf@.len(),
            framing: self.framing,
        }
    }
}

/// Drops the one zero byte that may lead `unit`.
pub fn strip_leading_zero(unit: &[u8]) -> (rest: &[u8])
    ensures
        rest@ == without_leading_zero(unit@),
{
    if unit.len() > 0 && unit[0] == 0 {
        let rest = slice_subrange(unit, 1, unit.len());
        assert(rest@ =~= unit@.skip(1));
        rest
    } else {
        unit
    }
}

impl FrameHandler {
    /// A handler of stuffed frames at the start of session 1, with nothing
    /// seen.
    pub fn new() -> (handler: Self)
        ensures
            handler@ == HandlerState::fresh(1, MAX_FRAME_SIZE as nat, Framing::Stuffed),
    {
        Self::with_framing(Framing::Stuffed)
    }

    /// A handler of frames in the given framing at the start of session 1,
    /// with nothing seen.
    pub fn with_framing(framing: Framing) -> (handler: Self)
        ensures
            handler@ == HandlerState::fresh(1, MAX_FRAME_SIZE as nat, framing),
    {
        Self {
            counter: NO_FRAME_YET,
            statistics: FrameStatistics::new(1),
            buf: vec![0u8; MAX_FRAME_SIZE],
            speed_handler: SpeedMeasurer::new(),
            framing,
        }
    }

    /// Starts the next session: the counters go back to zero under the next
    /// session number, no frame is expected yet, and the measurer starts a
    /// new session too.
    pub fn reset(&mut self)
        requires
            old(self)@.ledger.tally.session_id < u64::MAX,
        ensures
            final(self)@ == old(self)@.restarted(),
    {
        self.counter = NO_FRAME_YET;
        self.statistics = FrameStatistics::new(self.statistics.session_id + 1);
        self.speed_handler.reset();
    }

    /// Whether one more session can be begun without the session number
    /// running over.
    pub fn can_reset(&self) -> (ok: bool)
        ensures
            ok == (self@.ledger.tally.session_id < u64::MAX),
    {
        self.statistics.session_id < u64::MAX
    }

    /// Whether a unit of `len` bytes can be handled without a counter
    /// running over.
    pub fn can_take(&self, len: usize) -> (ok: bool)
        ensures
            ok == self@.can_take(len as nat),
    {
        self.statistics.has_room() && self.speed_handler.has_room(len)
    }

    /// Counts one unit, given what decoding made of it: `None` where it
    /// could not be decoded. The measurer is not touched.
    pub fn account(&mut self, decoded: Option<&[u8]>)
        requires
            old(self)@.ledger.tally.has_room(),
        ensures
            final(self)@.ledger == old(self)@.ledger.recorded(
                reading_of_decoded(
                    match decoded {
                        Some(unit) => Some(unit@),
                        None => None,
                    },
                ),
            ),
            final(self)@.gauge == old(self)@.gauge,
            final(self)@.room == old(self)@.room,
            final(self)@.framing == old(self)@.framing,
    {
        let reading: Option<Reading> = match decoded {
            Some(unit) => inspect(unit),
            None => None,
        };
        self.record(reading);
    }

    /// Counts one unit, given what was read off it.
    pub fn record(&mut self, reading: Option<Reading>)
        requires
            old(self)@.ledger.tally.has_room(),
        ensures
            final(self)@.ledger == old(self)@.ledger.recorded(reading),
            final(self)@.gauge == old(self)@.gauge,
            final(self)@.room == old(self)@.room,
            final(self)@.framing == old(self)@.framing,
    {
        match reading {
            None => {
                self.statistics.invalid = self.statistics.invalid + 1;
            },
            Some(r) => {
                let due: u32 = self.counter.wrapping_add(1);
                let ahead: u32 = r.counter.wrapping_sub(due);
                if ahead >= HALF_RANGE {
                    self.statistics.out_of_order = self.statistics.out_of_order + 1;
                    self.counter = due.wrapping_sub(1);
                    self.statistics.lost = self.statistics.lost.saturating_sub(1);
                } else if ahead == 0 {
                    self.counter = due;
                } else {
                    self.statistics.lost = self.statistics.lost + ahead as u64;
                    self.counter = r.counter;
                }
                if r.intact {
                    self.statistics.valid = self.statistics.valid + 1;
                } else {
                    self.statistics.internally_bad = self.statistics.internally_bad + 1;
                }
            },
        }
    }

    /// Handles one unit as it came from the transport, at the present
    /// moment.
    pub fn handle(&mut self, frame: &[u8])
        requires
            old(self)@.can_take(frame@.len()),
        ensures
            exists|now: nat| final(self)@ == old(self)@.received(frame@, now),
    {
        let now: u128 = self.speed_handler.now();
        self.handle_at(frame, now);
        assert(self@ == old(self)@.received(frame@, now as nat));
    }

    /// Handles one unit as it came from the transport, at `now`, a reading
    /// of the measurer's clock. The measurer counts its length whatever it
    /// holds; then it is taken out of its framing and counted.
    pub fn handle_at(&mut self, frame: &[u8], now: u128)
        requires
            old(self)@.can_take(frame@.len()),
        ensures
            final(self)@ == old(self)@.received(frame@, now as nat),
    {
        self.speed_handler.handle_at(frame.len(), now);
        match self.framing {
            Framing::Plain => self.account(Some(frame)),
            Framing::Stuffed => {
                let unit: &[u8] = strip_leading_zero(frame);
                // the buffer is lent out while the handler counts what is in it
                let mut buf: Vec<u8> = Vec::new();
                std::mem::swap(&mut buf, &mut self.buf);
                match unstuff(unit, &mut buf) {
                    Ok(n) => self.account(Some(slice_subrange(buf.as_slice(), 0, n))),
                    Err(_) => self.account(None),
                }
                std::mem::swap(&mut buf, &mut self.buf);
            },
        }
    }

    /// The statistics of the session, once a frame has been placed in the
    /// sequence: nothing while the expected counter is still the one that
    /// stands for "no frame yet".
    pub fn get_statistics(&self) -> (statistics: Option<&FrameStatistics>)
        ensures
            match statistics {
                Some(s) => !self@.ledger.awaiting() && s@ == self@.ledger.tally,
                None => self@.ledger.awaiting(),
            },
    {
        if self.counter == NO_FRAME_YET {
            return None;
        }
        Some(&self.statistics)
    }

    /// The session's average rate and the rate of the last completed window,
    /// in kbps, at the present moment.
    pub fn get_speeds(&self) -> (speeds: (u64, u64))
        ensures
            exists|now: nat| (speeds.0 as nat, speeds.1 as nat) == self@.gauge.speeds(now),
    {
        self.speed_handler.get_speeds()
    }

    /// The session's average rate and the rate of the last completed window,
    /// in kbps, at `now`, a reading of the measurer's clock.
    pub fn get_speeds_at(&self, now: u128) -> (speeds: (u64, u64))
        ensures
            (speeds.0 as nat, speeds.1 as nat) == self@.gauge.speeds(now as nat),
    {
        self.speed_handler.get_speeds_at(now)
    }

    /// A reading of the measurer's clock.
    pub fn now(&self) -> (now: u128) {
        self.speed_handler.now()
    }

    /// The mean gap between arrivals of the current burst, in microseconds.
    pub fn get_latency(&self) -> (latency: u128)
        ensures
            latency == mean(self@.gauge.latencies),
    {
        self.speed_handler.get_latency()
    }
}

} // verus!
