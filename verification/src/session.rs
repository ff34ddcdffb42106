//! The decisions of the tunnel's event loop. The loop itself (the swarm, the
//! TUN channels, Ctrl-C) runs outside; it hands each event to
//! [`TunnelSession::step`] and performs the action it gets back.
//!
//! The session is generic over the peer identifier, which it only stores and
//! hands back.

use vstd::prelude::*;
use crate::connection::{AddrProtocol, needs_peer_suffix, spec_needs_peer_suffix};

verus! {

/// What happened, as the event loop sees it.
pub enum SessionEvent<P> {
    /// Ctrl-C.
    Interrupted,
    /// The channel from the TUN reader closed.
    TunClosed,
    /// A packet read from the TUN device.
    TunPacket(Vec<u8>),
    /// The swarm listens on a new address, with these protocols.
    ListenAddr(Vec<AddrProtocol>),
    /// A connection to `P` is up.
    ConnectionEstablished(P),
    /// A connection to `P` went down.
    ConnectionClosed(P),
    /// The peer sent a packet.
    InboundRequest(Vec<u8>),
    /// Anything else: responses, failed connections, other protocol events.
    Other,
}

/// What the event loop does next.
pub enum SessionAction<P> {
    /// Leave the loop and shut the TUN tasks down.
    Stop,
    /// Send `packet` to `peer` as a request.
    SendRequest { peer: P, packet: Vec<u8> },
    /// No peer is connected: the packet is dropped.
    DropPacket,
    /// Hand `packet` to the TUN writer and acknowledge the request.
    DeliverAndAck(Vec<u8>),
    /// Print the listen address, with `/p2p/<local peer id>` appended when
    /// `append_local_peer_id` holds.
    AnnounceListenAddr { append_local_peer_id: bool },
    /// Log the event; nothing else.
    Log,
}

/// One step of the event loop: the remote peer after the event, and the
/// action.
pub open spec fn session_step<P>(remote: Option<P>, event: SessionEvent<P>) -> (
    Option<P>,
    SessionAction<P>,
) {
    match event {
        SessionEvent::Interrupted => (remote, SessionAction::Stop),
        SessionEvent::TunClosed => (remote, SessionAction::Stop),
        SessionEvent::TunPacket(packet) => match remote {
            Some(peer) => (remote, SessionAction::SendRequest { peer, packet }),
            None => (remote, SessionAction::DropPacket),
        },
        SessionEvent::ListenAddr(protocols) => (
            remote,
            SessionAction::AnnounceListenAddr {
                append_local_peer_id: spec_needs_peer_suffix(protocols@),
            },
        ),
        SessionEvent::ConnectionEstablished(peer) => (Some(peer), SessionAction::Log),
        SessionEvent::ConnectionClosed(_) => (None, SessionAction::Log),
        SessionEvent::InboundRequest(packet) => (remote, SessionAction::DeliverAndAck(packet)),
        SessionEvent::Other => (remote, SessionAction::Log),
    }
}

/// The event loop's state: the peer that packets from the TUN device go to.
pub struct TunnelSession<P> {
    remote: Option<P>,
}

impl<P: Copy> TunnelSession<P> {
    /// The peer that packets from the TUN device go to, if one is connected.
    pub closed spec fn remote(&self) -> Option<P> {
        self.remote
    }

    /// A session with no peer connected.
    pub fn new() -> (s: Self)
        ensures
            s.remote() is None,
    {
        TunnelSession { remote: None }
    }

    /// The peer that packets from the TUN device go to, if one is connected.
    pub fn remote_peer(&self) -> (r: Option<P>)
        ensures
            r == self.remote(),
    {
        self.remote
    }

    /// Takes one event and says what to do with it.
    pub fn step(&mut self, event: SessionEvent<P>) -> (action: SessionAction<P>)
        ensures
            (final(self).remote(), action) == session_step(old(self).remote(), event),
    {
        match event {
            SessionEvent::Interrupted => SessionAction::Stop,
            SessionEvent::TunClosed => SessionAction::Stop,
            SessionEvent::TunPacket(packet) => match self.remote {
                Some(peer) => SessionAction::SendRequest { peer, packet },
                None => SessionAction::DropPacket,
            },
            SessionEvent::ListenAddr(protocols) => SessionAction::AnnounceListenAddr {
                append_local_peer_id: needs_peer_suffix(protocols.as_slice()),
            },
            SessionEvent::ConnectionEstablished(peer) => {
                self.remote = Some(peer);
                SessionAction::Log
            },
            SessionEvent::ConnectionClosed(_) => {
                self.remote = None;
                SessionAction::Log
            },
            SessionEvent::InboundRequest(packet) => SessionAction::DeliverAndAck(packet),
            SessionEvent::Other => SessionAction::Log,
        }
    }
}

/// Once a connection to `peer` is up, a packet read from the TUN device is
/// sent to `peer`, unchanged.
pub proof fn law_packets_go_to_connected_peer<P>(remote: Option<P>, peer: P, packet: Vec<u8>)
    ensures
        ({
            let (after, _) = session_step(remote, SessionEvent::ConnectionEstablished(peer));
            session_step(after, SessionEvent::TunPacket(packet)) == (
                Some(peer),
                SessionAction::SendRequest { peer, packet },
            )
        }),
{
}

/// Once the connection went down, a packet read from the TUN device is
/// dropped, until a connection is up again.
pub proof fn law_no_peer_after_close<P>(remote: Option<P>, peer: P, packet: Vec<u8>)
    ensures
        ({
            let (after, _) = session_step(remote, SessionEvent::ConnectionClosed(peer));
            session_step(after, SessionEvent::TunPacket(packet)) == (
                None::<P>,
                SessionAction::<P>::DropPacket,
            )
        }),
{
}

/// A packet from the peer is always handed to the TUN writer unchanged and
/// acknowledged, whether or not a peer is recorded.
pub proof fn law_inbound_always_delivered<P>(remote: Option<P>, packet: Vec<u8>)
    ensures
        session_step(remote, SessionEvent::InboundRequest(packet)) == (
            remote,
            SessionAction::<P>::DeliverAndAck(packet),
        ),
{
}

/// The loop stops on Ctrl-C or when the TUN reader is gone, and on nothing
/// else.
pub proof fn law_stops_only_on_interrupt_or_tun_closed<P>(remote: Option<P>, event: SessionEvent<P>)
    ensures
        session_step(remote, event).1 is Stop <==> (event is Interrupted || event is TunClosed),
{
}

/// Only connection events change which peer packets go to.
pub proof fn law_peer_changes_only_on_connection_events<P>(
    remote: Option<P>,
    event: SessionEvent<P>,
)
    requires
        !(event is ConnectionEstablished),
        !(event is ConnectionClosed),
    ensures
        session_step(remote, event).0 == remote,
{
}

/// A listen address is announced with the local peer id appended exactly when
/// it does not already end with a `/p2p/` component; the peer is unchanged.
pub proof fn law_listen_addr_announced_dialable<P>(remote: Option<P>, protocols: Vec<AddrProtocol>)
    ensures
        session_step(remote, SessionEvent::ListenAddr(protocols)) == (
            remote,
            SessionAction::<P>::AnnounceListenAddr {
                append_local_peer_id: !(protocols@.len() > 0 && protocols@[protocols@.len() - 1]
                    == AddrProtocol::P2p),
            },
        ),
{
}

/// Connection events and other swarm events are only logged; a connection
/// going up records its peer, one going down forgets it, whichever it was.
pub proof fn law_connection_events_only_logged<P>(remote: Option<P>, peer: P, other: P)
    ensures
        session_step(remote, SessionEvent::ConnectionEstablished(peer)) == (
            Some(peer),
            SessionAction::<P>::Log,
        ),
        session_step(remote, SessionEvent::ConnectionClosed(other)) == (
            None::<P>,
            SessionAction::<P>::Log,
        ),
        session_step(remote, SessionEvent::Other) == (remote, SessionAction::<P>::Log),
{
}

} // verus!
