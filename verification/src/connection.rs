//! What the tunnel decides from the shape of a multiaddr: how many connections
//! each side may hold, and whether a listen address still needs the local
//! peer id to be dialable.

use vstd::prelude::*;

verus! {

/// The protocols of a multiaddr that the tunnel's decisions tell apart.
#[derive(Debug, Clone, Copy, PartialEq, Eq, Structural)]
pub enum AddrProtocol {
    /// `/p2p/<peer-id>`
    P2p,
    /// `/p2p-circuit`: the address goes through a circuit relay.
    P2pCircuit,
    /// Any other protocol (`/ip4`, `/udp`, `/quic-v1`, ...).
    Other,
}

/// How the tunnel starts, with each multiaddr given by its protocols.
#[derive(Debug)]
pub enum Mode {
    /// Listen for incoming peers, directly or through a relay circuit.
    Server { listen_multiaddr: Vec<AddrProtocol> },
    /// Dial a server.
    Client { target: Vec<AddrProtocol> },
}

/// Connection counts that the swarm enforces; `None` is no limit.
#[derive(Debug, Clone, Copy, PartialEq, Eq, Structural)]
pub struct ConnectionLimits {
    pub max_pending_incoming: Option<u32>,
    pub max_pending_outgoing: Option<u32>,
    pub max_established_incoming: Option<u32>,
    pub max_established_outgoing: Option<u32>,
    pub max_established_per_peer: Option<u32>,
    pub max_established_total: Option<u32>,
}

/// No limit at all.
pub open spec fn unlimited() -> ConnectionLimits {
    ConnectionLimits {
        max_pending_incoming: None,
        max_pending_outgoing: None,
        max_established_incoming: None,
        max_established_outgoing: None,
        max_established_per_peer: None,
        max_established_total: None,
    }
}

/// Whether the multiaddr goes through a relay circuit.
pub open spec fn spec_via_relay(protocols: Seq<AddrProtocol>) -> bool {
    protocols.contains(AddrProtocol::P2pCircuit)
}

/// The limits for a mode: a server takes one peer at a time, established or
/// pending; a client holds one outgoing connection, or two when it reaches the
/// server over a circuit (one to the relay, plus the relayed one).
pub open spec fn spec_connection_limits(mode: Mode) -> ConnectionLimits {
    match mode {
        Mode::Server { .. } => ConnectionLimits {
            max_established_incoming: Some(1u32),
            max_pending_incoming: Some(1u32),
            ..unlimited()
        },
        Mode::Client { target } => ConnectionLimits {
            max_established_outgoing: Some(if spec_via_relay(target@) { 2u32 } else { 1u32 }),
            ..unlimited()
        },
    }
}

/// Whether a listen address must get `/p2p/<local peer id>` appended to be
/// dialable: a circuit address already ends with it, a direct one ends at the
/// transport.
pub open spec fn spec_needs_peer_suffix(protocols: Seq<AddrProtocol>) -> bool {
    protocols.len() == 0 || protocols.last() != AddrProtocol::P2p
}

/// Whether the multiaddr goes through a relay circuit.
pub fn via_relay(protocols: &[AddrProtocol]) -> (r: bool)
    ensures
        r == spec_via_relay(protocols@),
{
    let mut i: usize = 0;
    while i < protocols.len()
        invariant
            i <= protocols@.len(),
            forall|j: int| 0 <= j < i ==> protocols@[j] != AddrProtocol::P2pCircuit,
        decreases protocols.len() - i,
    {
        if protocols[i] == AddrProtocol::P2pCircuit {
            assert(protocols@[i as int] == AddrProtocol::P2pCircuit);
            return true;
        }
        i = i + 1;
    }
    false
}

/// The connection limits the swarm runs with in `mode`.
pub fn connection_limits(mode: &Mode) -> (limits: ConnectionLimits)
    ensures
        limits == spec_connection_limits(*mode),
{
    let none = ConnectionLimits {
        max_pending_incoming: None,
        max_pending_outgoing: None,
        max_established_incoming: None,
        max_established_outgoing: None,
        max_established_per_peer: None,
        max_established_total: None,
    };
    match mode {
        Mode::Server { .. } => ConnectionLimits {
            max_established_incoming: Some(1),
            max_pending_incoming: Some(1),
            ..none
        },
        Mode::Client { target } => {
            let outgoing: u32 = if via_relay(target.as_slice()) { 2 } else { 1 };
            ConnectionLimits { max_established_outgoing: Some(outgoing), ..none }
        },
    }
}

/// Whether the listen address with these protocols needs `/p2p/<local peer
/// id>` appended before it is announced.
pub fn needs_peer_suffix(protocols: &[AddrProtocol]) -> (r: bool)
    ensures
        r == spec_needs_peer_suffix(protocols@),
{
    if protocols.len() == 0 {
        true
    } else {
        protocols[protocols.len() - 1] != AddrProtocol::P2p
    }
}

/// An address goes through a relay exactly when `/p2p-circuit` occurs in it,
/// at any position.
pub proof fn law_relay_anywhere(s: Seq<AddrProtocol>, a: Seq<AddrProtocol>, b: Seq<AddrProtocol>)
    ensures
        spec_via_relay(s) <==> exists|j: int| 0 <= j < s.len() && s[j] == AddrProtocol::P2pCircuit,
        spec_via_relay(a + seq![AddrProtocol::P2pCircuit] + b),
{
    let t = a + seq![AddrProtocol::P2pCircuit] + b;
    assert(t[a.len() as int] == AddrProtocol::P2pCircuit);
}

/// A client whose target contains `/p2p-circuit` anywhere may hold two
/// outgoing connections (to the relay, and the relayed one); a client whose
/// target does not holds one; a server takes one established and one pending
/// incoming connection. No other limit is set.
pub proof fn law_connection_budget(
    target: Vec<AddrProtocol>,
    listen: Vec<AddrProtocol>,
    a: Seq<AddrProtocol>,
    b: Seq<AddrProtocol>,
)
    ensures
        target@ == a + seq![AddrProtocol::P2pCircuit] + b ==> spec_connection_limits(
            Mode::Client { target },
        ) == (ConnectionLimits {
            max_pending_incoming: None,
            max_pending_outgoing: None,
            max_established_incoming: None,
            max_established_outgoing: Some(2),
            max_established_per_peer: None,
            max_established_total: None,
        }),
        (forall|j: int| 0 <= j < target@.len() ==> target@[j] != AddrProtocol::P2pCircuit)
            ==> spec_connection_limits(Mode::Client { target }) == (ConnectionLimits {
            max_pending_incoming: None,
            max_pending_outgoing: None,
            max_established_incoming: None,
            max_established_outgoing: Some(1),
            max_established_per_peer: None,
            max_established_total: None,
        }),
        spec_connection_limits(Mode::Server { listen_multiaddr: listen }) == (ConnectionLimits {
            max_pending_incoming: Some(1),
            max_pending_outgoing: None,
            max_established_incoming: Some(1),
            max_established_outgoing: None,
            max_established_per_peer: None,
            max_established_total: None,
        }),
{
    law_relay_anywhere(target@, a, b);
}

/// A listen address needs the local peer id appended exactly when it does not
/// already end with a `/p2p/` component, whatever its length; in particular
/// never when it ends with one.
pub proof fn law_suffix_unless_ending_in_p2p(s: Seq<AddrProtocol>)
    ensures
        spec_needs_peer_suffix(s) <==> !(s.len() > 0 && s[s.len() - 1] == AddrProtocol::P2p),
        !spec_needs_peer_suffix(s.push(AddrProtocol::P2p)),
{
}

} // verus!
