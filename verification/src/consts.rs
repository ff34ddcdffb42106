use vstd::prelude::*;

verus! {

/// Address a server listens on when `--listen-multiaddr` is not given.
pub const DEFAULT_LISTEN_MULTIADDR: &'static str = "/ip4/0.0.0.0/udp/9090/quic-v1";

/// Default TUN MTU. `--mtu` also sets the largest tunneled packet the codec
/// accepts: packets ride over a QUIC stream, so the ceiling is the IP maximum
/// (65535, the `u16` range), not the underlay MTU.
pub const DEFAULT_MTU: u16 = 1400;

/// Size of the buffer a TUN read lands in; `--mtu` must stay below it.
pub const MAX_FRAME_LEN: usize = 2048;

/// Queue depth between the swarm and the TUN tasks, in each direction.
pub const MAX_CHANNEL_BOUND: usize = 2048;

/// Concurrent request-response substreams per connection, in each direction.
/// The library default of 100 drops inbound streams, and therefore packets,
/// well before the tunnel saturates.
pub const MAX_CONCURRENT_STREAMS: usize = 1024;

/// Buffer between a connection task and the swarm. The library defaults (7 up,
/// 32 down) are sized for signalling protocols, not per-packet traffic.
pub const CONNECTION_EVENT_BUFFER: usize = 1024;

/// Yamux substreams per relayed connection. Yamux counts both directions
/// against one limit, so it takes twice the request-response budget; it
/// asserts `max_num_streams * 256 KiB` against a 1 GiB receive window, which
/// makes 4096 the ceiling.
pub const YAMUX_MAX_NUM_STREAMS: usize = MAX_CONCURRENT_STREAMS * 2;

} // verus!
