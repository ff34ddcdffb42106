use vp2pn::connection::AddrProtocol;
use vp2pn::session::{SessionAction, SessionEvent, TunnelSession};

#[test]
fn packet_without_peer_is_dropped() {
    let mut s: TunnelSession<u64> = TunnelSession::new();
    assert!(matches!(
        s.step(SessionEvent::TunPacket(vec![1, 2])),
        SessionAction::DropPacket
    ));
}

#[test]
fn packet_goes_to_connected_peer() {
    let mut s: TunnelSession<u64> = TunnelSession::new();
    assert!(matches!(s.step(SessionEvent::ConnectionEstablished(7)), SessionAction::Log));
    assert_eq!(s.remote_peer(), Some(7));
    match s.step(SessionEvent::TunPacket(vec![1, 2, 3])) {
        SessionAction::SendRequest { peer, packet } => {
            assert_eq!(peer, 7);
            assert_eq!(packet, vec![1, 2, 3]);
        }
        _ => panic!("packet not sent"),
    }
}

#[test]
fn later_connection_replaces_peer() {
    let mut s: TunnelSession<u64> = TunnelSession::new();
    s.step(SessionEvent::ConnectionEstablished(1));
    s.step(SessionEvent::ConnectionEstablished(2));
    assert!(matches!(
        s.step(SessionEvent::TunPacket(vec![0])),
        SessionAction::SendRequest { peer: 2, .. }
    ));
}

#[test]
fn closed_connection_stops_forwarding() {
    let mut s: TunnelSession<u64> = TunnelSession::new();
    s.step(SessionEvent::ConnectionEstablished(7));
    s.step(SessionEvent::ConnectionClosed(7));
    assert_eq!(s.remote_peer(), None);
    assert!(matches!(
        s.step(SessionEvent::TunPacket(vec![1])),
        SessionAction::DropPacket
    ));
}

#[test]
fn inbound_request_is_delivered_and_acked() {
    let mut s: TunnelSession<u64> = TunnelSession::new();
    match s.step(SessionEvent::InboundRequest(vec![4, 5])) {
        SessionAction::DeliverAndAck(packet) => assert_eq!(packet, vec![4, 5]),
        _ => panic!("request not delivered"),
    }
}

#[test]
fn interrupt_and_tun_close_stop_the_loop() {
    let mut s: TunnelSession<u64> = TunnelSession::new();
    assert!(matches!(s.step(SessionEvent::Interrupted), SessionAction::Stop));
    assert!(matches!(s.step(SessionEvent::TunClosed), SessionAction::Stop));
    assert!(matches!(s.step(SessionEvent::Other), SessionAction::Log));
}

#[test]
fn direct_listen_addr_gets_peer_id() {
    let mut s: TunnelSession<u64> = TunnelSession::new();
    let direct = vec![AddrProtocol::Other, AddrProtocol::Other, AddrProtocol::Other];
    assert!(matches!(
        s.step(SessionEvent::ListenAddr(direct)),
        SessionAction::AnnounceListenAddr { append_local_peer_id: true }
    ));
}

#[test]
fn circuit_listen_addr_keeps_its_peer_id() {
    let mut s: TunnelSession<u64> = TunnelSession::new();
    let circuit = vec![
        AddrProtocol::Other,
        AddrProtocol::P2p,
        AddrProtocol::P2pCircuit,
        AddrProtocol::P2p,
    ];
    assert!(matches!(
        s.step(SessionEvent::ListenAddr(circuit)),
        SessionAction::AnnounceListenAddr { append_local_peer_id: false }
    ));
}

#[test]
fn only_connection_events_change_the_peer() {
    let mut s: TunnelSession<u64> = TunnelSession::new();
    s.step(SessionEvent::ConnectionEstablished(3));
    s.step(SessionEvent::TunPacket(vec![1]));
    s.step(SessionEvent::InboundRequest(vec![2]));
    s.step(SessionEvent::ListenAddr(vec![AddrProtocol::Other]));
    s.step(SessionEvent::Other);
    s.step(SessionEvent::Interrupted);
    assert_eq!(s.remote_peer(), Some(3));
}
