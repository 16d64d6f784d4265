//! The choices a run is configured with, as far as the core reads them.

use crate::stuffing::Framing;
use vstd::prelude::*;

verus! {

/// Bytes that IP and UDP headers take of the MTU.
pub const UDP_OVERHEAD: u16 = 28;

/// Bytes that IP and TCP headers take of the MTU.
pub const TCP_OVERHEAD: u16 = 40;

/// The transport that test traffic goes over.
#[derive(Clone, Copy, Debug, PartialEq, Eq, Structural)]
pub enum Proto {
    /// Datagrams to a multicast group.
    Multicast,
    /// Datagrams to one host.
    Unicast,
    /// One stream to one host.
    TCP,
}

impl Proto {
    /// Bytes that the headers of this transport take of the MTU.
    pub open spec fn overhead(self) -> nat {
        match self {
            Proto::Multicast => 28,
            Proto::Unicast => 28,
            Proto::TCP => 40,
        }
    }

    /// How frames go on the wire of this transport: stuffed on a stream, as
    /// they are in datagrams.
    pub open spec fn framing_of(self) -> Framing {
        match self {
            Proto::TCP => Framing::Stuffed,
            _ => Framing::Plain,
        }
    }

    /// How frames go on the wire of this transport.
    pub fn framing(&self) -> (framing: Framing)
        ensures
            framing == self.framing_of(),
    {
        match self {
            Proto::TCP => Framing::Stuffed,
            _ => Framing::Plain,
        }
    }

    /// Whether the transport delivers a stream of bytes, not datagrams.
    pub fn is_stream(&self) -> (stream: bool)
        ensures
            stream == (*self == Proto::TCP),
    {
        match self {
            Proto::TCP => true,
            _ => false,
        }
    }

    /// Bytes that the headers of this transport take of the MTU.
    pub fn header_overhead(&self) -> (bytes: u16)
        ensures
            bytes == self.overhead(),
    {
        match self {
            Proto::TCP => TCP_OVERHEAD,
            _ => UDP_OVERHEAD,
        }
    }
}

} // verus!
