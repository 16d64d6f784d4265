//! The counters a receiver keeps over one session.

use vstd::prelude::*;

verus! {

/// The counters of one session, cumulative since it began.
#[derive(Debug)]
pub struct FrameStatistics {
    /// The session's number: one more with every reset.
    pub session_id: u64,
    /// Frames with a header and an intact payload.
    pub valid: u64,
    /// Units that could not be decoded or are too short for a header.
    pub invalid: u64,
    /// Frames that came behind the counter expected of them.
    pub out_of_order: u64,
    /// Frames with a header whose payload is damaged.
    pub internally_bad: u64,
    /// Frames presumed lost: counters that were skipped and have not turned
    /// up since.
    pub lost: u64,
}

/// The counters as natural numbers.
pub struct Tally {
    pub session_id: nat,
    pub valid: nat,
    pub invalid: nat,
    pub out_of_order: nat,
    pub internally_bad: nat,
    pub lost: nat,
}

impl Tally {
    /// The counters at the start of session `session_id`.
    pub open spec fn zero(session_id: nat) -> Tally {
        Tally { session_id, valid: 0, invalid: 0, out_of_order: 0, internally_bad: 0, lost: 0 }
    }

    /// Whether the counters leave room for one more unit of any kind: each
    /// can grow by one, and `lost` by the widest gap a frame can leave, which
    /// is short of half the range of a counter.
    pub open spec fn has_room(self) -> bool {
        &&& self.valid < u64::MAX
        &&& self.invalid < u64::MAX
        &&& self.out_of_order < u64::MAX
        &&& self.internally_bad < u64::MAX
        &&& self.lost + 0x7fff_ffff <= u64::MAX
    }

    /// The units that were told apart so far: each is valid, invalid or
    /// internally bad.
    pub open spec fn classified(self) -> nat {
        self.valid + self.invalid + self.internally_bad
    }
}

impl View for FrameStatistics {
    type V = Tally;

    open spec fn view(&self) -> Tally {
        Tally {
            session_id: self.session_id as nat,
            valid: self.valid as nat,
            invalid: self.invalid as nat,
            out_of_order: self.out_of_order as nat,
            internally_bad: self.internally_bad as nat,
            lost: self.lost as nat,
        }
    }
}

impl FrameStatistics {
    /// The counters at the start of session `session_id`: all zero.
    pub fn new(session_id: u64) -> (statistics: Self)
        ensures
            statistics@ == Tally::zero(session_id as nat),
    {
        Self { session_id, valid: 0, invalid: 0, out_of_order: 0, internally_bad: 0, lost: 0 }
    }

    /// Whether the counters leave room for one more unit of any kind.
    pub fn has_room(&self) -> (room: bool)
        ensures
            room == self@.has_room(),
    {
        self.valid < u64::MAX && self.invalid < u64::MAX && self.out_of_order < u64::MAX
            && self.internally_bad < u64::MAX && self.lost <= u64::MAX - 0x7fff_ffff
    }
}

} // verus!
