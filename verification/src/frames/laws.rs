//! What holds of the accounting, for every sequence of frames.

use crate::frames::builder::BuilderState;
use crate::frames::handler::{without_leading_zero, HandlerState, Ledger};
use crate::frames::statistics::Tally;
use crate::stuffing::{sealed, unstuffed, Framing};
use crate::frames::wire::{
    be_bytes, be_value, frame_image, is_ramp, next_counter, ramp, ramp_byte, reading_of, Reading,
};
use vstd::prelude::*;

verus! {

/// The counter `k` steps after `c`, modulo 2^32.
pub open spec fn counter_after(c: u32, k: nat) -> u32 {
    ((c + k) % 0x1_0000_0000) as u32
}

/// The ledger after the units that showed `readings`, in their order.
pub open spec fn replay(ledger: Ledger, readings: Seq<Option<Reading>>) -> Ledger
    decreases readings.len(),
{
    if readings.len() == 0 {
        ledger
    } else {
        replay(ledger, readings.drop_last()).recorded(readings.last())
    }
}

/// Whether `readings` are those of intact frames with consecutive counters,
/// the first of them the one after `last`.
pub open spec fn in_order_after(last: u32, readings: Seq<Option<Reading>>) -> bool {
    forall|i: int|
        0 <= i < readings.len() ==> readings[i] == Some(
            Reading { counter: counter_after(last, (i + 1) as nat), intact: true },
        )
}

/// Big-endian bytes spell the number they were made from.
pub proof fn lemma_be_round_trip(v: u32)
    ensures
        be_bytes(v).len() == 4,
        be_value(be_bytes(v)) == v,
{
}

/// A frame reads back as it was built: its counter, and an intact payload.
pub proof fn lemma_image_reads_back(counter: u32, len: nat)
    requires
        len >= 4,
    ensures
        frame_image(counter, len).len() == len,
        reading_of(frame_image(counter, len)) == Some(Reading { counter, intact: true }),
{
    let image = frame_image(counter, len);
    lemma_be_round_trip(counter);
    assert(image.subrange(0, 4) =~= be_bytes(counter));
    assert(image.skip(4) =~= ramp((len - 4) as nat));
}

/// A frame with one payload byte changed still shows its counter, and a
/// payload that is not intact.
pub proof fn lemma_flipped_byte_shows(unit: Seq<u8>, at: int, byte: u8)
    requires
        4 <= at < unit.len(),
        is_ramp(unit.skip(4)),
        byte != unit[at],
    ensures
        reading_of(unit.update(at, byte)) == Some(
            Reading { counter: reading_of(unit).unwrap().counter, intact: false },
        ),
{
    let flipped = unit.update(at, byte);
    assert(flipped.subrange(0, 4) =~= unit.subrange(0, 4));
    assert(unit.skip(4)[at - 4] == ramp_byte(at - 4));
    assert(flipped.skip(4)[at - 4] == byte);
}

/// Every unit is told apart in exactly one way: one of `valid`, `invalid`
/// and `internally_bad` goes up by one and the other two stay. No counter but
/// `lost` ever goes down, and the session number stays.
pub proof fn lemma_one_class_per_unit(ledger: Ledger, reading: Option<Reading>)
    ensures
        ({
            let before = ledger.tally;
            let after = ledger.recorded(reading).tally;
            &&& after.classified() == before.classified() + 1
            &&& after.valid >= before.valid
            &&& after.invalid >= before.invalid
            &&& after.internally_bad >= before.internally_bad
            &&& after.out_of_order >= before.out_of_order
            &&& after.session_id == before.session_id
            &&& (reading is None <==> after.invalid == before.invalid + 1)
            &&& (reading matches Some(r) && r.intact <==> after.valid == before.valid + 1)
            &&& (reading matches Some(r) && !r.intact <==> after.internally_bad
                == before.internally_bad + 1)
        }),
{
}

/// Frames with consecutive counters that arrive in order and intact are all
/// valid: none is lost and none is out of order, however many they are and
/// whether or not the counter wraps on the way.
pub proof fn lemma_in_order_run(ledger: Ledger, readings: Seq<Option<Reading>>)
    requires
        in_order_after(ledger.expected, readings),
    ensures
        replay(ledger, readings).tally == (Tally {
            valid: ledger.tally.valid + readings.len(),
            ..ledger.tally
        }),
        replay(ledger, readings).expected == counter_after(ledger.expected, readings.len()),
    decreases readings.len(),
{
    if readings.len() > 0 {
        let front = readings.drop_last();
        assert forall|i: int| 0 <= i < front.len() implies front[i] == Some(
            Reading { counter: counter_after(ledger.expected, (i + 1) as nat), intact: true },
        ) by {
            assert(front[i] == readings[i]);
        }
        lemma_in_order_run(ledger, front);
        let before = replay(ledger, front);
        assert(readings.last() == readings[readings.len() - 1]);
        assert(next_counter(before.expected) == counter_after(
            ledger.expected,
            readings.len(),
        ));
    }
}

/// In a new session, `n` frames that count up from zero and arrive in order
/// and intact leave `valid == n`, `lost == 0` and `out_of_order == 0`. The
/// handler shows these statistics unless `n` is a multiple of 2^32: then the
/// last counter is `u32::MAX`, which is also the mark of "no frame yet".
pub proof fn lemma_in_order_from_start(session_id: nat, readings: Seq<Option<Reading>>)
    requires
        in_order_after(u32::MAX, readings),
    ensures
        replay(Ledger::fresh(session_id), readings).tally == (Tally {
            valid: readings.len(),
            ..Tally::zero(session_id)
        }),
        readings.len() > 0 ==> readings[0] == Some(Reading { counter: 0, intact: true }),
        replay(Ledger::fresh(session_id), readings).awaiting() <==> readings.len()
            % 0x1_0000_0000 == 0,
{
    lemma_in_order_run(Ledger::fresh(session_id), readings);
}

/// Two neighbours that swap places: where frame `k` is due and frame `k + 1`
/// arrives before it, one frame is out of order once both are in, and the
/// loss that was presumed in between is taken back, so that `lost` ends
/// where it began. The later of the two is the new baseline.
pub proof fn lemma_swapped_neighbours(ledger: Ledger)
    ensures
        ({
            let k = next_counter(ledger.expected);
            let early = Some(Reading { counter: next_counter(k), intact: true });
            let late = Some(Reading { counter: k, intact: true });
            let after = ledger.recorded(early).recorded(late);
            &&& ledger.recorded(early).tally.lost == ledger.tally.lost + 1
            &&& after.tally == (Tally {
                out_of_order: ledger.tally.out_of_order + 1,
                valid: ledger.tally.valid + 2,
                ..ledger.tally
            })
            &&& after.expected == next_counter(k)
        }),
{
}

/// A gap of `gap` frames: where the counter jumps ahead past `gap` frames,
/// `lost` goes up by exactly `gap` on that frame, and frames that follow it
/// in order leave `lost` where it is. A jump of half the range or more is no
/// gap: such a frame is behind.
pub proof fn lemma_gap_is_lost(
    ledger: Ledger,
    gap: nat,
    intact: bool,
    followers: Seq<Option<Reading>>,
)
    requires
        gap < 0x7fff_ffff,
        in_order_after(counter_after(ledger.expected, gap + 1), followers),
    ensures
        ({
            let landed = counter_after(ledger.expected, gap + 1);
            let jump = Some(Reading { counter: landed, intact });
            &&& ledger.recorded(jump).tally.lost == ledger.tally.lost + gap
            &&& ledger.recorded(jump).tally.out_of_order == ledger.tally.out_of_order
            &&& ledger.recorded(jump).expected == landed
            &&& replay(ledger.recorded(jump), followers).tally.lost == ledger.tally.lost + gap
        }),
{
    let landed = counter_after(ledger.expected, gap + 1);
    let jump = Some(Reading { counter: landed, intact });
    lemma_in_order_run(ledger.recorded(jump), followers);
}

/// A frame that is due but damaged counts as internally bad and as nothing
/// else: the sequence moves on by one, and `lost`, `out_of_order`, `valid`
/// and `invalid` stay.
pub proof fn lemma_damaged_in_order(ledger: Ledger)
    ensures
        ({
            let due = next_counter(ledger.expected);
            let after = ledger.recorded(Some(Reading { counter: due, intact: false }));
            &&& after.tally == (Tally {
                internally_bad: ledger.tally.internally_bad + 1,
                ..ledger.tally
            })
            &&& after.expected == due
        }),
{
}

/// The same for the bytes: a frame that is due, with one byte of its payload
/// changed, counts as internally bad and leaves the other counters alone.
pub proof fn lemma_flipped_byte_in_order(ledger: Ledger, len: nat, at: int, byte: u8)
    requires
        4 <= at < len,
        byte != frame_image(next_counter(ledger.expected), len)[at],
    ensures
        ({
            let due = next_counter(ledger.expected);
            let damaged = frame_image(due, len).update(at, byte);
            &&& ledger.recorded(reading_of(damaged)).tally == (Tally {
                internally_bad: ledger.tally.internally_bad + 1,
                ..ledger.tally
            })
            &&& ledger.recorded(reading_of(damaged)).expected == due
        }),
{
    let due = next_counter(ledger.expected);
    lemma_image_reads_back(due, len);
    lemma_flipped_byte_shows(frame_image(due, len), at, byte);
    lemma_damaged_in_order(ledger);
}

/// The state of a builder after `n` more frames.
pub open spec fn advanced_by(builder: BuilderState, n: nat) -> BuilderState
    decreases n,
{
    if n == 0 {
        builder
    } else {
        advanced_by(builder, (n - 1) as nat).advanced()
    }
}

/// The state of a handler after it was handed, one by one, the frames that a
/// builder built from `builder` on. The frames arrive at `times`, and there
/// are as many of them.
pub open spec fn relayed(builder: BuilderState, handler: HandlerState, times: Seq<nat>) -> HandlerState
    decreases times.len(),
{
    if times.len() == 0 {
        handler
    } else {
        relayed(builder, handler, times.drop_last()).received(
            advanced_by(builder, times.len()).wire_frame(),
            times.last(),
        )
    }
}

/// A builder keeps the size and the framing of its frames, and counts up by
/// one with each.
pub proof fn lemma_advanced_by(builder: BuilderState, n: nat)
    ensures
        advanced_by(builder, n).counter == counter_after(builder.counter, n),
        advanced_by(builder, n).frame_len == builder.frame_len,
        advanced_by(builder, n).framing == builder.framing,
        advanced_by(builder, n).total_sent == builder.total_sent + n * builder.frame_len,
    decreases n,
{
    if n > 0 {
        lemma_advanced_by(builder, (n - 1) as nat);
        assert(n * builder.frame_len == (n - 1) * builder.frame_len + builder.frame_len)
            by (nonlinear_arith);
    }
}

/// The counter after the one `k` steps after `c` is the one `k + 1` steps
/// after `c`.
pub proof fn lemma_counter_after_next(c: u32, k: nat)
    ensures
        next_counter(counter_after(c, k)) == counter_after(c, k + 1),
        counter_after(c, 0) == c,
{
}

/// A plain frame that is due, handed to a handler of plain frames, is valid
/// and moves the sequence on by one.
pub proof fn lemma_plain_frame_due(handler: HandlerState, len: nat, now: nat)
    requires
        handler.framing == Framing::Plain,
        len >= 4,
    ensures
        ({
            let due = next_counter(handler.ledger.expected);
            let after = handler.received(frame_image(due, len), now);
            &&& after.ledger.tally == (Tally {
                valid: handler.ledger.tally.valid + 1,
                ..handler.ledger.tally
            })
            &&& after.ledger.expected == due
            &&& after.framing == Framing::Plain
        }),
{
    lemma_image_reads_back(next_counter(handler.ledger.expected), len);
}

/// Plain frames come out as they went in. Where a handler of plain frames
/// expects the frame that a builder of plain frames builds next, as a new
/// handler does of a new builder, every frame that is handed over is valid,
/// however many there are and whenever they arrive: nothing is invalid,
/// damaged, lost or out of order.
pub proof fn lemma_plain_round_trip(builder: BuilderState, handler: HandlerState, times: Seq<nat>)
    requires
        builder.framing == Framing::Plain,
        handler.framing == Framing::Plain,
        builder.frame_len >= 4,
        handler.ledger.expected == builder.counter,
    ensures
        relayed(builder, handler, times).ledger.tally == (Tally {
            valid: handler.ledger.tally.valid + times.len(),
            ..handler.ledger.tally
        }),
        relayed(builder, handler, times).ledger.expected == counter_after(
            builder.counter,
            times.len(),
        ),
        relayed(builder, handler, times).framing == Framing::Plain,
    decreases times.len(),
{
    if times.len() > 0 {
        let n = times.len();
        let before = relayed(builder, handler, times.drop_last());
        lemma_plain_round_trip(builder, handler, times.drop_last());
        lemma_advanced_by(builder, n);
        lemma_counter_after_next(builder.counter, (n - 1) as nat);
        lemma_plain_frame_due(before, builder.frame_len, times.last());
        assert(advanced_by(builder, n).wire_frame() == frame_image(
            next_counter(before.ledger.expected),
            builder.frame_len,
        ));
    } else {
        lemma_counter_after_next(builder.counter, 0);
    }
}

/// Whether un-stuffing, with `room` bytes to write to, gives back `image`
/// from its stuffed and sealed form.
pub open spec fn comes_back(image: Seq<u8>, room: nat) -> bool {
    unstuffed(without_leading_zero(sealed(image)), room) == Some(image)
}

/// Whether the next `n` frames of a builder come back from their stuffed
/// form with `room` bytes to write to.
pub open spec fn frames_come_back(builder: BuilderState, n: nat, room: nat) -> bool {
    forall|k: nat|
        1 <= k <= n ==> #[trigger] comes_back(
            frame_image(counter_after(builder.counter, k), builder.frame_len),
            room,
        )
}

/// A stuffed frame that is due and comes back from its stuffed form, handed
/// to a handler of stuffed frames, is valid and moves the sequence on by
/// one.
pub proof fn lemma_stuffed_frame_due(handler: HandlerState, len: nat, now: nat)
    requires
        handler.framing == Framing::Stuffed,
        len >= 4,
    ensures
        ({
            let due = next_counter(handler.ledger.expected);
            let after = handler.received(sealed(frame_image(due, len)), now);
            comes_back(frame_image(due, len), handler.room) ==> {
                &&& after.ledger.tally == (Tally {
                    valid: handler.ledger.tally.valid + 1,
                    ..handler.ledger.tally
                })
                &&& after.ledger.expected == due
            }
        }),
{
    lemma_image_reads_back(next_counter(handler.ledger.expected), len);
}

/// Stuffed frames come out as they went in, as far as the stuffing lets
/// them. Where a handler of stuffed frames expects the frame that a builder
/// of stuffed frames builds next, as a new handler does of a new builder,
/// and un-stuffing gives back each frame that was stuffed, every frame that
/// is handed over is valid: nothing is invalid, damaged, lost or out of
/// order. That un-stuffing undoes stuffing is here supposed, not shown.
pub proof fn lemma_stuffed_round_trip(
    builder: BuilderState,
    handler: HandlerState,
    times: Seq<nat>,
)
    requires
        builder.framing == Framing::Stuffed,
        handler.framing == Framing::Stuffed,
        builder.frame_len >= 4,
        handler.ledger.expected == builder.counter,
    ensures
        relayed(builder, handler, times).framing == Framing::Stuffed,
        relayed(builder, handler, times).room == handler.room,
        frames_come_back(builder, times.len(), handler.room) ==> {
            &&& relayed(builder, handler, times).ledger.tally == (Tally {
                valid: handler.ledger.tally.valid + times.len(),
                ..handler.ledger.tally
            })
            &&& relayed(builder, handler, times).ledger.expected == counter_after(
                builder.counter,
                times.len(),
            )
        },
    decreases times.len(),
{
    if times.len() > 0 {
        let n = times.len();
        let before = relayed(builder, handler, times.drop_last());
        lemma_stuffed_round_trip(builder, handler, times.drop_last());
        lemma_advanced_by(builder, n);
        lemma_counter_after_next(builder.counter, (n - 1) as nat);
        lemma_stuffed_frame_due(before, builder.frame_len, times.last());
        if frames_come_back(builder, n, handler.room) {
            assert(frames_come_back(builder, (n - 1) as nat, handler.room)) by {
                assert forall|k: nat| 1 <= k <= n - 1 implies #[trigger] comes_back(
                    frame_image(counter_after(builder.counter, k), builder.frame_len),
                    handler.room,
                ) by {
                    assert(1 <= k <= n);
                }
            }
            assert(comes_back(
                frame_image(counter_after(builder.counter, n), builder.frame_len),
                handler.room,
            ));
            assert(advanced_by(builder, n).wire_frame() == sealed(
                frame_image(next_counter(before.ledger.expected), builder.frame_len),
            ));
        }
    } else {
        lemma_counter_after_next(builder.counter, 0);
    }
}

/// A reset in a session that has seen nothing changes the session number
/// and nothing else, and the handler still awaits its first frame.
pub proof fn lemma_reset_when_fresh(session_id: nat, room: nat, framing: Framing)
    ensures
        HandlerState::fresh(session_id, room, framing).restarted() == HandlerState::fresh(
            session_id + 1,
            room,
            framing,
        ),
        HandlerState::fresh(session_id, room, framing).restarted().ledger.tally == (Tally {
            session_id: session_id + 1,
            ..HandlerState::fresh(session_id, room, framing).ledger.tally
        }),
        HandlerState::fresh(session_id, room, framing).restarted().ledger.awaiting(),
{
}

/// A handler that awaits its first frame goes on awaiting it through units
/// that hold no frame, and stops at the first that holds one with a counter
/// in the lower half of the range. A first frame from the upper half is
/// behind the zero that is due, so the expectation stays at `u32::MAX`,
/// which is also the mark of "no frame yet".
pub proof fn lemma_awaits_first_frame(ledger: Ledger, readings: Seq<Option<Reading>>, r: Reading)
    requires
        ledger.awaiting(),
        forall|i: int| 0 <= i < readings.len() ==> readings[i] is None,
    ensures
        replay(ledger, readings).awaiting(),
        replay(ledger, readings).tally == (Tally {
            invalid: ledger.tally.invalid + readings.len(),
            ..ledger.tally
        }),
        replay(ledger, readings).recorded(Some(r)).awaiting() <==> r.counter >= 0x8000_0000,
    decreases readings.len(),
{
    if readings.len() > 0 {
        let front = readings.drop_last();
        assert forall|i: int| 0 <= i < front.len() implies front[i] is None by {
            assert(front[i] == readings[i]);
        }
        lemma_awaits_first_frame(ledger, front, r);
        assert(readings.last() == readings[readings.len() - 1]);
    }
}

} // verus!
