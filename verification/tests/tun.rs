use vp2pn::consts::{DEFAULT_MTU, MAX_FRAME_LEN, YAMUX_MAX_NUM_STREAMS};
use vp2pn::tun::{reader_step, writer_step, ReaderAction, ReaderEvent, WriterAction, WriterEvent};

#[test]
fn reader_forwards_what_was_read() {
    let buf = [1u8, 2, 3, 4, 5];
    match reader_step(&buf, ReaderEvent::Read(3)) {
        ReaderAction::Forward(packet) => assert_eq!(packet, vec![1, 2, 3]),
        _ => panic!("packet not forwarded"),
    }
}

#[test]
fn reader_skips_empty_and_failed_reads() {
    let buf = [0u8; 4];
    assert!(matches!(reader_step(&buf, ReaderEvent::Read(0)), ReaderAction::Continue));
    assert!(matches!(reader_step(&buf, ReaderEvent::ReadFailed), ReaderAction::Continue));
    assert!(matches!(reader_step(&buf, ReaderEvent::Cancelled), ReaderAction::Stop));
}

#[test]
fn writer_writes_packets_and_stops_on_close() {
    match writer_step(WriterEvent::Packet(vec![7, 8])) {
        WriterAction::Write(packet) => assert_eq!(packet, vec![7, 8]),
        _ => panic!("packet not written"),
    }
    assert!(matches!(writer_step(WriterEvent::ChannelClosed), WriterAction::Stop));
    assert!(matches!(writer_step(WriterEvent::Cancelled), WriterAction::Stop));
}

#[test]
fn tuning_stays_within_limits() {
    assert!(usize::from(DEFAULT_MTU) < MAX_FRAME_LEN);
    assert_eq!(YAMUX_MAX_NUM_STREAMS, 2048);
    assert!(YAMUX_MAX_NUM_STREAMS * 256 * 1024 <= 1024 * 1024 * 1024);
}
