# vp2pn

A peer-to-peer VPN over libp2p QUIC: each side creates a TUN device and
forwards every IP packet it reads to the other peer as a length-prefixed frame
over a libp2p request-response protocol, directly or through a circuit relay.

## Layout

- `src/` is the verified library.
  - `frame.rs`: the frame format (4-byte big-endian length, then the payload),
    the reader's limit, and the laws that tie reading to writing.
  - `connection.rs`: connection limits per mode and the multiaddr decisions
    (relay circuit or not, whether a listen address needs the local peer id).
  - `session.rs`: the event loop's state and decisions, as a step function
    from event to action, with its laws.
  - `tun.rs`: the decisions of the TUN reader and writer tasks.
  - `consts.rs`: defaults and tuning constants.
- `app/` is the program around it: command-line parsing, the TUN device, the
  libp2p swarm and the async loops that perform the library's actions.
- `tests/` runs the library on concrete values.
