//! The steps of the two loops. A loop does the waiting, the sending and the
//! printing itself; what it does next is decided here.

use crate::args::Proto;
use crate::frames::builder::FrameBuilder;
use crate::frames::handler::{FrameHandler, HandlerState};
use crate::frames::speed_measurer::{mean, span};
use crate::frames::wire::HEADER_LEN;
use crate::protocols::{
    is_multicast, multicast_group, ConstructionError, IoFault, PeerAddr, ProtoError, Receiver,
    Sender,
};
use crate::speed_controllers::{BurstLimiter, Limiter, Pause, UnLimiter};
use crate::speed_controllers::burst::BurstState;
use vstd::prelude::*;

verus! {

/// Nanoseconds in a second.
pub const NANOS_PER_SEC: u128 = 1_000_000_000;

/// Bytes that a frame may take on the wire with `proto` and `mtu`, if that
/// is enough for a frame at all: the MTU less the headers of the transport.
pub open spec fn wire_budget(proto: Proto, mtu: u16) -> Option<u16> {
    if mtu >= proto.overhead() + proto.framing_of().least_size() {
        Some((mtu - proto.overhead()) as u16)
    } else {
        None
    }
}

/// Computes the bytes that a frame may take on the wire; fails where the
/// MTU leaves less than the least frame.
pub fn frame_budget(proto: Proto, mtu: u16) -> (budget: Result<u16, ConstructionError>)
    ensures
        match budget {
            Ok(bytes) => wire_budget(proto, mtu) == Some(bytes) && bytes
                >= proto.framing_of().least_size(),
            Err(e) => wire_budget(proto, mtu) is None && e == ConstructionError::MtuTooSmall,
        },
{
    let overhead: u16 = proto.header_overhead();
    let least: u16 = HEADER_LEN as u16 + proto.framing().wire_overhead();
    if mtu >= overhead && mtu - overhead >= least {
        Ok(mtu - overhead)
    } else {
        Err(ConstructionError::MtuTooSmall)
    }
}

/// Checks the IPv4 address that traffic goes to, or is expected at, against
/// the transport: a multicast transport needs a multicast group.
pub fn check_target(proto: Proto, ip: u32) -> (checked: Result<(), ConstructionError>)
    ensures
        checked is Ok <==> (proto == Proto::Multicast ==> multicast_group(ip)),
        checked is Err ==> checked == Err::<(), ConstructionError>(
            ConstructionError::NotMulticast,
        ),
{
    match proto {
        Proto::Multicast => {
            if is_multicast(ip) {
                Ok(())
            } else {
                Err(ConstructionError::NotMulticast)
            }
        },
        _ => Ok(()),
    }
}

/// The limiter a sender runs with, chosen once from the configuration.
pub enum Pacer {
    /// No cap was asked for.
    Unlimited(UnLimiter),
    /// A cap was asked for: frames go out in bursts.
    Burst(BurstLimiter),
}

/// Chooses the limiter for a cap of `bandwidth` kilobits per second, where
/// zero stands for no cap. Datagram transports get a window that fits the
/// frame rate, a stream a window of a second.
pub fn choose_pacer(proto: Proto, bandwidth: u32, mtu: u16) -> (pacer: Pacer)
    requires
        mtu > 0,
    ensures
        bandwidth == 0 ==> pacer is Unlimited,
        bandwidth != 0 ==> (pacer matches Pacer::Burst(b) && b@ == BurstState::configured(
            bandwidth,
            mtu,
            proto != Proto::TCP,
        )),
{
    if bandwidth == 0 {
        Pacer::Unlimited(UnLimiter::new())
    } else {
        Pacer::Burst(BurstLimiter::new(bandwidth, mtu, !proto.is_stream()))
    }
}

impl Limiter for Pacer {
    /// The chosen limiter was asked, and stays the chosen one.
    open spec fn asked(before: &Self, after: &Self, pause: Pause) -> bool {
        match (*before, *after) {
            (Pacer::Unlimited(b), Pacer::Unlimited(a)) => UnLimiter::asked(&b, &a, pause),
            (Pacer::Burst(b), Pacer::Burst(a)) => BurstLimiter::asked(&b, &a, pause),
            _ => false,
        }
    }

    /// The pause that the chosen limiter asks for.
    fn sleep_interval(&mut self) -> (pause: Pause) {
        match self {
            Pacer::Unlimited(limiter) => limiter.sleep_interval(),
            Pacer::Burst(limiter) => limiter.sleep_interval(),
        }
    }
}

/// What a sender does after it tried to send a frame.
#[derive(Clone, Copy, Debug, PartialEq, Eq, Structural)]
pub enum NextMove {
    /// The loop ends: the frame could not be sent, and nothing is tried
    /// again.
    Stop,
    /// The loop sleeps this long and goes on.
    Wait(Pause),
    /// No frame was built: the count of bytes sent has no room for another.
    Spent,
}

/// Decides what a sender does after it tried to send a frame. A failure
/// ends the loop and the limiter is not asked; after a success the limiter
/// is asked once, and the loop sleeps as long as it says.
pub fn after_send<L: Limiter>(limiter: &mut L, sent: Result<(), ProtoError>) -> (next: NextMove)
    ensures
        sent is Err ==> next == NextMove::Stop && *final(limiter) == *old(limiter),
        sent is Ok ==> exists|pause: Pause|
            next == NextMove::Wait(pause) && L::asked(&*old(limiter), &*final(limiter), pause),
{
    match sent {
        Err(_) => NextMove::Stop,
        Ok(_) => NextMove::Wait(limiter.sleep_interval()),
    }
}

/// One turn of a sender: the next frame is built and sent, and the limiter
/// is asked how long to sleep. Where the builder has no room for another
/// frame, nothing is built or sent. What the transport makes of the frame is
/// its own affair; a frame that was built counts as built whether or not it
/// went out. A failure to send ends the loop with the limiter unasked; after
/// a success the limiter is asked once and the loop sleeps as long as it
/// says.
pub fn send_step<S: Sender, L: Limiter>(
    socket: &mut S,
    builder: &mut FrameBuilder,
    limiter: &mut L,
) -> (next: NextMove)
    ensures
        next == NextMove::Spent <==> old(builder)@.total_sent + old(builder)@.frame_len
            > u64::MAX,
        next == NextMove::Spent ==> final(builder)@ == old(builder)@,
        next != NextMove::Spent ==> final(builder)@ == old(builder)@.advanced(),
        next == NextMove::Spent || next == NextMove::Stop ==> *final(limiter) == *old(limiter),
        next matches NextMove::Wait(pause) ==> L::asked(&*old(limiter), &*final(limiter), pause),
{
    if !builder.can_build() {
        return NextMove::Spent;
    }
    let sent: Result<(), ProtoError> = socket.send(builder.next());
    after_send(limiter, sent)
}

/// Fires once every so often, on readings of one clock.
pub struct Ticker {
    every: u128,
    last: u128,
}

impl Ticker {
    /// The reading at which the ticker fired last, or from which it counts.
    pub closed spec fn last(&self) -> nat {
        self.last as nat
    }

    /// Nanoseconds between two firings.
    pub closed spec fn every(&self) -> nat {
        self.every as nat
    }

    /// Whether the ticker is due at `now`.
    pub open spec fn due(&self, now: nat) -> bool {
        span(self.last(), now) >= self.every()
    }

    /// A ticker that fires every `secs` seconds, counting from the reading
    /// zero.
    pub fn every_secs(secs: u8) -> (ticker: Self)
        ensures
            ticker.last() == 0,
            ticker.every() == secs * 1_000_000_000,
    {
        Self { every: secs as u128 * NANOS_PER_SEC, last: 0 }
    }

    /// Tells whether the ticker is due at `now`.
    pub fn is_due(&self, now: u128) -> (due: bool)
        ensures
            due == self.due(now as nat),
    {
        let elapsed: u128 = if now >= self.last {
            now - self.last
        } else {
            0
        };
        elapsed >= self.every
    }

    /// Fires if the ticker is due at `now`, and counts from `now` on if it
    /// did.
    pub fn tick(&mut self, now: u128) -> (fired: bool)
        ensures
            fired == old(self).due(now as nat),
            final(self).every() == old(self).every(),
            final(self).last() == if fired {
                now as nat
            } else {
                old(self).last()
            },
    {
        if self.is_due(now) {
            self.last = now;
            true
        } else {
            false
        }
    }
}

/// What a receiver tells its user after one receive.
#[derive(Clone, Copy, Debug, PartialEq, Eq, Structural)]
pub enum Notice {
    /// A unit was handled; nothing to tell.
    Handled,
    /// A peer has connected.
    PeerConnected(PeerAddr),
    /// The peer has disconnected; a new session has begun.
    PeerDisconnected(PeerAddr),
    /// A datagram from someone other than the peer was ignored.
    DatagramIgnored(PeerAddr),
    /// Nothing was there to read; the loop may rest a moment.
    Idle,
    /// The operating system reported an error; the loop goes on.
    Fault,
    /// What was received was left aside: a counter of the handler has no
    /// room for it.
    Full,
}

/// What a receive `event` asks of the handler, before it is acted on: room
/// for the unit, or for one more session.
pub open spec fn can_act(state: HandlerState, event: Result<&[u8], ProtoError>) -> bool {
    match event {
        Ok(unit) => state.can_take(unit@.len()),
        Err(ProtoError::Disconnected(_)) => state.ledger.tally.session_id < u64::MAX,
        Err(_) => true,
    }
}

/// What is told of `event`.
pub open spec fn notice_of(event: Result<&[u8], ProtoError>) -> Notice {
    match event {
        Ok(_) => Notice::Handled,
        Err(ProtoError::Connected(peer)) => Notice::PeerConnected(peer),
        Err(ProtoError::Disconnected(peer)) => Notice::PeerDisconnected(peer),
        Err(ProtoError::ConflictingClient(peer)) => Notice::DatagramIgnored(peer),
        Err(ProtoError::IOErr(IoFault::WouldBlock)) => Notice::Idle,
        Err(ProtoError::IOErr(IoFault::Other)) => Notice::Fault,
    }
}

/// Tells whether the handler has room for what `event` asks of it.
pub fn ready_for(handler: &FrameHandler, event: &Result<&[u8], ProtoError>) -> (ready: bool)
    ensures
        ready == can_act(handler@, *event),
{
    match event {
        Ok(unit) => handler.can_take(unit.len()),
        Err(ProtoError::Disconnected(_)) => handler.can_reset(),
        Err(_) => true,
    }
}

/// Acts on what a receive gave: data is handled, a disconnect starts a new
/// session, and everything else leaves the handler as it is and is only
/// told.
pub fn on_receive(handler: &mut FrameHandler, event: Result<&[u8], ProtoError>) -> (notice: Notice)
    requires
        can_act(old(handler)@, event),
    ensures
        notice == notice_of(event),
        match event {
            Ok(unit) => exists|now: nat| final(handler)@ == old(handler)@.received(unit@, now),
            Err(ProtoError::Disconnected(_)) => final(handler)@ == old(handler)@.restarted(),
            Err(_) => final(handler)@ == old(handler)@,
        },
{
    match event {
        Ok(unit) => {
            handler.handle(unit);
            Notice::Handled
        },
        Err(ProtoError::Connected(peer)) => Notice::PeerConnected(peer),
        Err(ProtoError::Disconnected(peer)) => {
            handler.reset();
            Notice::PeerDisconnected(peer)
        },
        Err(ProtoError::ConflictingClient(peer)) => Notice::DatagramIgnored(peer),
        Err(ProtoError::IOErr(IoFault::WouldBlock)) => Notice::Idle,
        Err(ProtoError::IOErr(IoFault::Other)) => Notice::Fault,
    }
}

/// How a turn of a receiver on `event` relates the handler before and after
/// it to what is told. Where the handler has room for what `event` asks of
/// it, the turn is told as `notice_of` says: a unit was handled, as it
/// arrived at some moment; a disconnect began a new session; anything else
/// left the handler as it was. Where the handler has no room, `Full` is told
/// and the handler is as it was.
pub open spec fn acted(
    before: HandlerState,
    event: Result<&[u8], ProtoError>,
    after: HandlerState,
    notice: Notice,
) -> bool {
    if can_act(before, event) {
        &&& notice == notice_of(event)
        &&& match event {
            Ok(unit) => exists|now: nat| after == before.received(unit@, now),
            Err(ProtoError::Disconnected(_)) => after == before.restarted(),
            Err(_) => after == before,
        }
    } else {
        notice == Notice::Full && after == before
    }
}

/// One turn of a receiver: a unit or a signal is taken from the transport
/// and acted on. Where the handler has no room for what came, it is left
/// aside and the handler stays as it was. What the transport gives is its
/// own affair: the turn is the one that `acted` describes, for something
/// that a transport can give.
pub fn receive_step<R: Receiver>(socket: &mut R, handler: &mut FrameHandler) -> (notice: Notice)
    ensures
        exists|event: Result<&[u8], ProtoError>|
            #[trigger] acted(old(handler)@, event, final(handler)@, notice),
{
    let event: Result<&[u8], ProtoError> = socket.recv();
    let notice: Notice = if ready_for(handler, &event) {
        on_receive(handler, event)
    } else {
        Notice::Full
    };
    assert(acted(old(handler)@, event, handler@, notice));
    notice
}

/// The figures of one report.
#[derive(Clone, Copy, Debug, PartialEq, Eq, Structural)]
pub struct Report {
    /// Whether the column header goes before this report: it does before
    /// the first report, and again after a time with nothing to report.
    pub with_header: bool,
    /// The session's number.
    pub session_id: u64,
    /// The mean latency of the current burst, in microseconds.
    pub latency_micros: u128,
    /// The rate of the last completed window, in kbps.
    pub instant_kbps: u64,
    /// The session's average rate, in kbps.
    pub average_kbps: u64,
    /// Units that held no frame.
    pub invalid: u64,
    /// Frames with a damaged payload.
    pub internally_bad: u64,
    /// Frames presumed lost.
    pub lost: u64,
    /// All frames accounted for: valid, invalid, lost and internally bad.
    pub total: u128,
}

impl Report {
    /// Whether these are the figures that `state` gives at `now`, a reading
    /// of the handler's clock.
    pub open spec fn shows(self, state: HandlerState, now: nat) -> bool {
        let tally = state.ledger.tally;
        &&& self.session_id == tally.session_id
        &&& self.latency_micros == mean(state.gauge.latencies)
        &&& self.average_kbps == state.gauge.speeds(now).0
        &&& self.instant_kbps == state.gauge.speeds(now).1
        &&& self.invalid == tally.invalid
        &&& self.internally_bad == tally.internally_bad
        &&& self.lost == tally.lost
        &&& self.total == tally.valid + tally.invalid + tally.lost + tally.internally_bad
    }
}

/// Decides when a receiver reports, and whether under a header.
pub struct Reporter {
    ticker: Ticker,
    header_due: bool,
}

impl Reporter {
    /// The ticker that times the reports.
    pub closed spec fn ticker(&self) -> Ticker {
        self.ticker
    }

    /// Whether the next report goes under a header.
    pub closed spec fn header_due(&self) -> bool {
        self.header_due
    }

    /// A reporter that reports every `report_interval` seconds, the first
    /// time under a header.
    pub fn new(report_interval: u8) -> (reporter: Self)
        ensures
            reporter.header_due(),
            reporter.ticker().last() == 0,
            reporter.ticker().every() == report_interval * 1_000_000_000,
    {
        Self { ticker: Ticker::every_secs(report_interval), header_due: true }
    }

    /// The report that is due at the present moment, if one is.
    pub fn poll(&mut self, handler: &FrameHandler) -> (report: Option<Report>)
        ensures
            exists|now: nat| Self::polled(*old(self), handler@, now, *final(self), report),
    {
        let now: u128 = handler.now();
        let report: Option<Report> = self.poll_at(handler, now);
        assert(Self::polled(*old(self), handler@, now as nat, *self, report));
        report
    }

    /// How a poll at `now` relates the reporter before and after it and the
    /// report. Before the interval is over nothing happens. Once it is over,
    /// a handler with statistics gives a report, under a header if one is
    /// due, and the interval starts anew; a handler without any gives none,
    /// and the next report goes under a header.
    pub open spec fn polled(
        before: Reporter,
        state: HandlerState,
        now: nat,
        after: Reporter,
        report: Option<Report>,
    ) -> bool {
        &&& after.ticker().every() == before.ticker().every()
        &&& if !before.ticker().due(now) {
            &&& report is None
            &&& after.header_due() == before.header_due()
            &&& after.ticker().last() == before.ticker().last()
        } else if state.ledger.awaiting() {
            &&& report is None
            &&& after.header_due()
            &&& after.ticker().last() == before.ticker().last()
        } else {
            &&& report matches Some(r)
            &&& r.with_header == before.header_due()
            &&& r.shows(state, now)
            &&& !after.header_due()
            &&& after.ticker().last() == now
        }
    }

    /// The report that is due at `now`, a reading of the handler's clock, if
    /// one is.
    pub fn poll_at(&mut self, handler: &FrameHandler, now: u128) -> (report: Option<Report>)
        ensures
            Self::polled(*old(self), handler@, now as nat, *final(self), report),
    {
        if !self.ticker.is_due(now) {
            return None;
        }
        match handler.get_statistics() {
            None => {
                self.header_due = true;
                None
            },
            Some(stats) => {
                let (average_kbps, instant_kbps): (u64, u64) = handler.get_speeds_at(now);
                let report = Report {
                    with_header: self.header_due,
                    session_id: stats.session_id,
                    latency_micros: handler.get_latency(),
                    instant_kbps,
                    average_kbps,
                    invalid: stats.invalid,
                    internally_bad: stats.internally_bad,
                    lost: stats.lost,
                    total: stats.valid as u128 + stats.invalid as u128 + stats.lost as u128
                        + stats.internally_bad as u128,
                };
                self.header_due = false;
                self.ticker.tick(now);
                Some(report)
            },
        }
    }
}

} // verus!
