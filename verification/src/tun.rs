//! The decisions of the two TUN tasks. The reader task moves packets from
//! the device to the swarm, the writer task from the swarm to the device; the
//! reads, writes and channel operations themselves run outside.

use vstd::prelude::*;
use vstd::slice::{slice_subrange, slice_to_vec};

verus! {

/// What a TUN read came back with.
pub enum ReaderEvent {
    /// The task was asked to shut down.
    Cancelled,
    /// The read failed; the failure is logged.
    ReadFailed,
    /// The read put this many bytes at the front of the buffer.
    Read(usize),
}

/// What the reader task does next.
pub enum ReaderAction {
    Stop,
    /// Read again.
    Continue,
    /// Send this packet to the swarm, then read again.
    Forward(Vec<u8>),
}

/// What the writer task received.
pub enum WriterEvent {
    /// The task was asked to shut down.
    Cancelled,
    /// The channel from the swarm closed.
    ChannelClosed,
    /// A packet from the peer.
    Packet(Vec<u8>),
}

/// What the writer task does next.
pub enum WriterAction {
    Stop,
    /// Write this packet to the device, then wait for the next one.
    Write(Vec<u8>),
}

/// Decides what the reader task does with the outcome of a read into `buf`:
/// a non-empty read is forwarded as one packet, an empty or failed read is
/// skipped, and a cancellation stops the task.
pub fn reader_step(buf: &[u8], event: ReaderEvent) -> (action: ReaderAction)
    requires
        event matches ReaderEvent::Read(n) ==> n <= buf@.len(),
    ensures
        match event {
            ReaderEvent::Cancelled => action is Stop,
            ReaderEvent::ReadFailed => action is Continue,
            ReaderEvent::Read(n) => if n == 0 {
                action is Continue
            } else {
                action matches ReaderAction::Forward(packet) && packet@ == buf@.take(n as int)
            },
        },
{
    match event {
        ReaderEvent::Cancelled => ReaderAction::Stop,
        ReaderEvent::ReadFailed => ReaderAction::Continue,
        ReaderEvent::Read(n) => {
            if n == 0 {
                ReaderAction::Continue
            } else {
                ReaderAction::Forward(slice_to_vec(slice_subrange(buf, 0, n)))
            }
        },
    }
}

/// Decides what the writer task does with what it received: a packet is
/// written unchanged; a cancellation or a closed channel stops the task.
pub fn writer_step(event: WriterEvent) -> (action: WriterAction)
    ensures
        match event {
            WriterEvent::Packet(packet) => action == WriterAction::Write(packet),
            _ => action is Stop,
        },
{
    match event {
        WriterEvent::Packet(packet) => WriterAction::Write(packet),
        _ => WriterAction::Stop,
    }
}

} // verus!
