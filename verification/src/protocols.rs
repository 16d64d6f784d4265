//! What the transports decide: whom a datagram is from, when a peer has
//! come or gone, and what becomes of a unit read off a stream. The sockets
//! themselves are the caller's; here are the rules they are used by.

use std::collections::VecDeque;
use vstd::prelude::*;

verus! {

/// Bytes a receiver has for one unit: the largest datagram.
pub const RECV_BUF: usize = 65536;

/// The byte that, alone in a datagram or a stream unit, says that the
/// sender leaves.
pub const DISCONNECT: u8 = 0;

/// The address a peer is known by.
#[derive(Clone, Copy, Debug, PartialEq, Eq, Structural)]
pub enum PeerAddr {
    /// An IPv4 address, as the number its four octets spell, and a port.
    V4 { ip: u32, port: u16 },
    /// An IPv6 address, as the number its sixteen octets spell, a port, and
    /// the flow and scope that are part of a socket address.
    V6 { ip6: u128, port: u16, flowinfo: u32, scope_id: u32 },
}

/// What a loop needs to know of an error of the operating system.
#[derive(Clone, Copy, Debug, PartialEq, Eq, Structural)]
pub enum IoFault {
    /// Nothing was there to read yet, or the wait timed out.
    WouldBlock,
    /// Anything else.
    Other,
}

/// What a transport reports in place of data. Only `IOErr` is a failure;
/// the others are signals of the connection's life.
#[derive(Clone, Copy, Debug, PartialEq, Eq, Structural)]
pub enum ProtoError {
    /// A new peer was seen.
    Connected(PeerAddr),
    /// The peer has left, or its stream broke.
    Disconnected(PeerAddr),
    /// A datagram came from someone other than the peer; it was dropped.
    ConflictingClient(PeerAddr),
    /// The operating system reported an error.
    IOErr(IoFault),
}

/// The sending side of a transport.
pub trait Sender {
    /// Sends `data` as one unit, or says why it could not.
    fn send(&mut self, data: &[u8]) -> Result<(), ProtoError>;
}

/// The receiving side of a transport.
pub trait Receiver {
    /// Waits for the next unit, for a bounded time, and hands it out; or
    /// reports a signal or an error in its place.
    fn recv(&mut self) -> Result<&[u8], ProtoError>;
}

/// What stops a transport or a builder from being made.
#[derive(Clone, Copy, Debug, PartialEq, Eq, Structural)]
pub enum ConstructionError {
    /// The MTU leaves no room for a frame beside the headers.
    MtuTooSmall,
    /// A multicast transport was asked for with an address that is no
    /// multicast group.
    NotMulticast,
}

/// Whether the IPv4 address `ip` is a multicast group: one of 224.0.0.0 to
/// 239.255.255.255.
pub open spec fn multicast_group(ip: u32) -> bool {
    0xE000_0000 <= ip <= 0xEFFF_FFFF
}

/// Tells whether the IPv4 address `ip` is a multicast group.
pub fn is_multicast(ip: u32) -> (group: bool)
    ensures
        group == multicast_group(ip),
{
    0xE000_0000 <= ip && ip <= 0xEFFF_FFFF
}

/// Whether `unit` is the notice that the sender leaves: one zero byte.
pub open spec fn is_farewell(unit: Seq<u8>) -> bool {
    unit.len() == 1 && unit[0] == 0
}

/// What a datagram receiver makes of a datagram from `from`, given the peer
/// it tracks: the peer it tracks afterwards, and what it reports. With no
/// peer tracked the sender becomes the peer; the datagram itself was only
/// looked at and is read again. A datagram from anyone else is dropped. The
/// peer's farewell ends the tracking. `Ok` stands for a datagram that is
/// handed on.
pub open spec fn datagram_step(peer: Option<PeerAddr>, from: PeerAddr, datagram: Seq<u8>) -> (
    Option<PeerAddr>,
    Result<(), ProtoError>,
) {
    match peer {
        None => (Some(from), Err(ProtoError::Connected(from))),
        Some(p) => {
            if p != from {
                (peer, Err(ProtoError::ConflictingClient(from)))
            } else if is_farewell(datagram) {
                (None, Err(ProtoError::Disconnected(from)))
            } else {
                (peer, Ok(()))
            }
        },
    }
}

/// The receiving side of a datagram transport: it tracks one peer at a
/// time.
pub struct UdpSession {
    client: Option<PeerAddr>,
}

impl View for UdpSession {
    type V = Option<PeerAddr>;

    closed spec fn view(&self) -> Option<PeerAddr> {
        self.client
    }
}

impl UdpSession {
    /// A session that tracks no peer yet.
    pub fn new() -> (session: Self)
        ensures
            session@ is None,
    {
        Self { client: None }
    }

    /// Whether the next datagram is to be looked at without taking it off
    /// the socket: so it is while no peer is tracked.
    pub fn wants_peek(&self) -> (peek: bool)
        ensures
            peek == (self@ is None),
    {
        self.client.is_none()
    }

    /// Decides what becomes of a datagram from `from`.
    pub fn on_datagram(&mut self, from: PeerAddr, datagram: &[u8]) -> (verdict: Result<
        (),
        ProtoError,
    >)
        ensures
            (final(self)@, verdict) == datagram_step(old(self)@, from, datagram@),
    {
        match self.client {
            None => {
                self.client = Some(from);
                Err(ProtoError::Connected(from))
            },
            Some(p) => {
                if p != from {
                    Err(ProtoError::ConflictingClient(from))
                } else if datagram.len() == 1 && datagram[0] == DISCONNECT {
                    self.client = None;
                    Err(ProtoError::Disconnected(from))
                } else {
                    Ok(())
                }
            },
        }
    }
}

/// Whether a unit read off a stream is handed on: the read succeeded and
/// the unit is neither empty, as at the end of the stream, nor the lone
/// delimiter that is the sender's farewell.
pub open spec fn stream_delivers(read_ok: bool, unit: Seq<u8>) -> bool {
    read_ok && unit.len() > 0 && unit[0] != 0
}

/// The receiving side of a stream transport: the peers whose streams are
/// open, in the order they were accepted. The caller keeps the streams in
/// the same order.
pub struct TcpRoster {
    peers: VecDeque<PeerAddr>,
}

impl View for TcpRoster {
    type V = Seq<PeerAddr>;

    closed spec fn view(&self) -> Seq<PeerAddr> {
        self.peers@
    }
}

impl TcpRoster {
    /// A roster with no stream open.
    pub fn new() -> (roster: Self)
        ensures
            roster@ == Seq::<PeerAddr>::empty(),
    {
        Self { peers: VecDeque::new() }
    }

    /// The number of streams that are open.
    pub fn len(&self) -> (n: usize)
        ensures
            n == self@.len(),
    {
        self.peers.len()
    }

    /// Whether a new stream is accepted: only while none is open.
    pub fn accepting(&self) -> (open: bool)
        ensures
            open == (self@.len() == 0),
    {
        self.peers.len() == 0
    }

    /// Enters a stream that was accepted from `peer`, behind the others.
    pub fn on_accept(&mut self, peer: PeerAddr) -> (signal: ProtoError)
        ensures
            final(self)@ == old(self)@.push(peer),
            signal == ProtoError::Connected(peer),
    {
        self.peers.push_back(peer);
        ProtoError::Connected(peer)
    }

    /// Decides what becomes of a unit read off the stream at `index`: it is
    /// handed on, or the stream is torn down and leaves the roster, the
    /// others keeping their order.
    pub fn on_read(&mut self, index: usize, read_ok: bool, unit: &[u8]) -> (verdict: Result<
        (),
        ProtoError,
    >)
        requires
            index < old(self)@.len(),
        ensures
            stream_delivers(read_ok, unit@) ==> verdict is Ok && final(self)@ == old(self)@,
            !stream_delivers(read_ok, unit@) ==> verdict == Err::<(), ProtoError>(
                ProtoError::Disconnected(old(self)@[index as int]),
            ) && final(self)@ == old(self)@.remove(index as int),
    {
        if read_ok && unit.len() > 0 && unit[0] != DISCONNECT {
            Ok(())
        } else {
            let peer: PeerAddr = self.peers[index];
            let _ = self.peers.remove(index);
            Err(ProtoError::Disconnected(peer))
        }
    }
}

/// What a stream sender reports of a write to `peer`: a write that failed
/// means the peer is gone.
pub fn stream_write_verdict(written: bool, peer: PeerAddr) -> (verdict: Result<(), ProtoError>)
    ensures
        written ==> verdict is Ok,
        !written ==> verdict == Err::<(), ProtoError>(ProtoError::Disconnected(peer)),
{
    if written {
        Ok(())
    } else {
        Err(ProtoError::Disconnected(peer))
    }
}

} // verus!
