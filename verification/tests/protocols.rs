use loss_tester_rs::protocols::{
    is_multicast, stream_write_verdict, IoFault, PeerAddr, ProtoError, TcpRoster, UdpSession,
    DISCONNECT, RECV_BUF,
};

fn peer(last: u32, port: u16) -> PeerAddr {
    PeerAddr::V4 { ip: 0xC0A8_0000 + last, port }
}

#[test]
fn multicast_groups() {
    assert!(!is_multicast(0));
    assert!(!is_multicast(u32::from_be_bytes([223, 255, 255, 255])));
    assert!(is_multicast(u32::from_be_bytes([224, 0, 0, 0])));
    assert!(is_multicast(u32::from_be_bytes([224, 0, 0, 251])));
    assert!(is_multicast(u32::from_be_bytes([239, 255, 255, 255])));
    assert!(!is_multicast(u32::from_be_bytes([240, 0, 0, 0])));
    assert!(!is_multicast(u32::from_be_bytes([192, 168, 1, 1])));
    assert!(!is_multicast(u32::MAX));
}

#[test]
fn multicast_groups_by_first_octet() {
    for first in 0..=255u8 {
        for rest in [0u8, 1, 128, 255] {
            let ip = u32::from_be_bytes([first, rest, rest, rest]);
            assert_eq!(is_multicast(ip), (224..=239).contains(&first), "{first}.{rest}");
        }
    }
}

#[test]
fn buffer_and_farewell() {
    assert_eq!(RECV_BUF, 65536);
    assert_eq!(DISCONNECT, 0);
}

#[test]
fn first_datagram_connects_and_is_read_again() {
    let mut session = UdpSession::new();
    assert!(session.wants_peek());
    assert_eq!(session.on_datagram(peer(1, 5000), &[1, 2, 3]), Err(ProtoError::Connected(peer(1, 5000))));
    assert!(!session.wants_peek());
    assert_eq!(session.on_datagram(peer(1, 5000), &[1, 2, 3]), Ok(()));
    assert_eq!(session.on_datagram(peer(1, 5000), &[4]), Ok(()));
}

#[test]
fn datagram_from_another_source_is_refused() {
    let mut session = UdpSession::new();
    let _ = session.on_datagram(peer(1, 5000), &[1]);
    assert_eq!(
        session.on_datagram(peer(2, 5000), &[1, 2]),
        Err(ProtoError::ConflictingClient(peer(2, 5000)))
    );
    assert_eq!(
        session.on_datagram(peer(1, 5001), &[1, 2]),
        Err(ProtoError::ConflictingClient(peer(1, 5001)))
    );
    // the farewell of a stranger is refused like anything of theirs
    assert_eq!(
        session.on_datagram(peer(2, 5000), &[0]),
        Err(ProtoError::ConflictingClient(peer(2, 5000)))
    );
    assert!(!session.wants_peek());
    assert_eq!(session.on_datagram(peer(1, 5000), &[1, 2]), Ok(()));
}

#[test]
fn farewell_ends_the_tracking() {
    let mut session = UdpSession::new();
    let _ = session.on_datagram(peer(1, 5000), &[1]);
    assert_eq!(session.on_datagram(peer(1, 5000), &[0]), Err(ProtoError::Disconnected(peer(1, 5000))));
    assert!(session.wants_peek());
    assert_eq!(session.on_datagram(peer(2, 6000), &[9]), Err(ProtoError::Connected(peer(2, 6000))));
    assert_eq!(session.on_datagram(peer(2, 6000), &[9]), Ok(()));
    assert_eq!(
        session.on_datagram(peer(1, 5000), &[9]),
        Err(ProtoError::ConflictingClient(peer(1, 5000)))
    );
}

#[test]
fn only_a_lone_zero_is_a_farewell() {
    let mut session = UdpSession::new();
    let _ = session.on_datagram(peer(1, 5000), &[1]);
    assert_eq!(session.on_datagram(peer(1, 5000), &[]), Ok(()));
    assert_eq!(session.on_datagram(peer(1, 5000), &[0, 0]), Ok(()));
    assert_eq!(session.on_datagram(peer(1, 5000), &[1]), Ok(()));
    assert_eq!(session.on_datagram(peer(1, 5000), &[0, 1]), Ok(()));
    assert!(!session.wants_peek());
}

#[test]
fn farewell_as_first_datagram() {
    let mut session = UdpSession::new();
    assert_eq!(session.on_datagram(peer(1, 5000), &[0]), Err(ProtoError::Connected(peer(1, 5000))));
    assert_eq!(session.on_datagram(peer(1, 5000), &[0]), Err(ProtoError::Disconnected(peer(1, 5000))));
    assert!(session.wants_peek());
}

#[test]
fn addresses_differ_by_family_and_by_every_part() {
    let mut session = UdpSession::new();
    let v6 = PeerAddr::V6 { ip6: 1, port: 5000, flowinfo: 0, scope_id: 0 };
    let _ = session.on_datagram(v6, &[1]);
    assert_eq!(session.on_datagram(v6, &[1]), Ok(()));
    for other in [
        PeerAddr::V4 { ip: 1, port: 5000 },
        PeerAddr::V6 { ip6: 2, port: 5000, flowinfo: 0, scope_id: 0 },
        PeerAddr::V6 { ip6: 1, port: 5001, flowinfo: 0, scope_id: 0 },
        PeerAddr::V6 { ip6: 1, port: 5000, flowinfo: 1, scope_id: 0 },
        PeerAddr::V6 { ip6: 1, port: 5000, flowinfo: 0, scope_id: 1 },
    ] {
        assert_eq!(session.on_datagram(other, &[1]), Err(ProtoError::ConflictingClient(other)));
    }
}

#[test]
fn roster_accepts_only_while_empty() {
    let mut roster = TcpRoster::new();
    assert!(roster.accepting());
    assert_eq!(roster.len(), 0);
    assert_eq!(roster.on_accept(peer(1, 4000)), ProtoError::Connected(peer(1, 4000)));
    assert!(!roster.accepting());
    assert_eq!(roster.len(), 1);
}

#[test]
fn unit_off_a_stream_is_handed_on() {
    let mut roster = TcpRoster::new();
    roster.on_accept(peer(1, 4000));
    assert_eq!(roster.on_read(0, true, &[3, 1, 2, 0]), Ok(()));
    assert_eq!(roster.on_read(0, true, &[3, 1, 2]), Ok(()));
    assert_eq!(roster.on_read(0, true, &[7]), Ok(()));
    assert_eq!(roster.len(), 1);
}

#[test]
fn stream_is_torn_down_on_farewell_end_and_error() {
    for (read_ok, unit) in [(true, &[0u8][..]), (true, &[][..]), (false, &[3, 1, 2, 0][..]), (false, &[][..])] {
        let mut roster = TcpRoster::new();
        roster.on_accept(peer(1, 4000));
        assert_eq!(
            roster.on_read(0, read_ok, unit),
            Err(ProtoError::Disconnected(peer(1, 4000)))
        );
        assert_eq!(roster.len(), 0);
        assert!(roster.accepting());
    }
}

#[test]
fn streams_are_torn_down_one_by_one() {
    let mut roster = TcpRoster::new();
    for i in 0..4 {
        roster.on_accept(peer(i, 4000));
    }
    assert_eq!(roster.len(), 4);
    assert_eq!(roster.on_read(1, false, &[]), Err(ProtoError::Disconnected(peer(1, 4000))));
    assert_eq!(roster.len(), 3);
    // the others keep their order
    assert_eq!(roster.on_read(1, true, &[0]), Err(ProtoError::Disconnected(peer(2, 4000))));
    assert_eq!(roster.on_read(1, true, &[0]), Err(ProtoError::Disconnected(peer(3, 4000))));
    assert_eq!(roster.on_read(0, true, &[1, 0]), Ok(()));
    assert_eq!(roster.on_read(0, true, &[0]), Err(ProtoError::Disconnected(peer(0, 4000))));
    assert!(roster.accepting());
}

#[test]
fn failed_write_means_the_peer_is_gone() {
    assert_eq!(stream_write_verdict(true, peer(1, 4000)), Ok(()));
    assert_eq!(
        stream_write_verdict(false, peer(1, 4000)),
        Err(ProtoError::Disconnected(peer(1, 4000)))
    );
}

#[test]
fn faults_are_told_apart() {
    assert_ne!(ProtoError::IOErr(IoFault::WouldBlock), ProtoError::IOErr(IoFault::Other));
    assert_ne!(ProtoError::Connected(peer(1, 1)), ProtoError::Disconnected(peer(1, 1)));
}
