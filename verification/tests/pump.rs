use yesgrok::error::TunnelError;
use yesgrok::handshake::HandshakeResponse;
use yesgrok::pump::{
    inbound_text, run, ReadEvent, ReadHalf, ReaderAction, ReaderState, WriteEvent, WriteHalf,
    WriterAction, WriterState, KEEPALIVE_INTERVAL_SECS, READ_BUFFER_SIZE,
};
use yesgrok::upgrade::negotiate;

fn halves(agent_id: &str, port: u16) -> (ReadHalf, WriteHalf) {
    let stream = negotiate(HandshakeResponse { status: 101 }).unwrap();
    run(stream, agent_id, port)
}

#[test]
fn pump_constants() {
    assert_eq!(READ_BUFFER_SIZE, 4096);
    assert_eq!(KEEPALIVE_INTERVAL_SECS, 3);
}

#[test]
fn run_starts_both_halves_fresh() {
    let (reader, writer) = halves("128393847599", 8080);
    assert_eq!(reader.state(), ReaderState::Reading);
    assert_eq!(writer.state(), WriterState::Waiting);
    assert_eq!(writer.agent_id(), "128393847599");
    assert_eq!(writer.port(), 8080);
}

#[test]
fn inbound_text_of_valid_bytes() {
    assert_eq!(inbound_text(b"hello"), "hello");
    assert_eq!(inbound_text("caf\u{e9}".as_bytes()), "caf\u{e9}");
    assert_eq!(inbound_text(b""), "");
}

#[test]
fn inbound_text_replaces_invalid_bytes() {
    assert_eq!(inbound_text(&[b'a', 0xff, b'b']), "a\u{fffd}b");
    assert_eq!(inbound_text(&[0xe2, 0x82]), "\u{fffd}");
}

#[test]
fn reader_delivers_what_came_in() {
    let (mut reader, _writer) = halves("id", 1);
    let action = reader.on_read(ReadEvent::Received(b"hello".to_vec()));
    assert_eq!(action, ReaderAction::Deliver(String::from("hello")));
    assert_eq!(reader.state(), ReaderState::Reading);
}

#[test]
fn reader_delivers_invalid_bytes_as_replaced_text() {
    let (mut reader, _writer) = halves("id", 1);
    let action = reader.on_read(ReadEvent::Received(vec![0x68, 0x69, 0x80]));
    assert_eq!(action, ReaderAction::Deliver(String::from("hi\u{fffd}")));
    assert_eq!(reader.state(), ReaderState::Reading);
}

#[test]
fn reader_keeps_reading_while_bytes_come() {
    let (mut reader, _writer) = halves("id", 1);
    for round in 0..50u8 {
        let action = reader.on_read(ReadEvent::Received(vec![b'a' + (round % 26)]));
        assert!(matches!(action, ReaderAction::Deliver(_)));
        assert_eq!(reader.state(), ReaderState::Reading);
    }
}

#[test]
fn reader_takes_a_full_buffer() {
    let (mut reader, _writer) = halves("id", 1);
    let action = reader.on_read(ReadEvent::Received(vec![b'x'; READ_BUFFER_SIZE]));
    assert_eq!(action, ReaderAction::Deliver("x".repeat(4096)));
}

#[test]
fn empty_read_ends_the_reader() {
    let (mut reader, _writer) = halves("id", 1);
    let action = reader.on_read(ReadEvent::Received(Vec::new()));
    assert_eq!(action, ReaderAction::Stop(TunnelError::PeerClosed));
    assert_eq!(reader.state(), ReaderState::Stopped(TunnelError::PeerClosed));
}

#[test]
fn reader_never_reads_again_after_an_empty_read() {
    let (mut reader, _writer) = halves("id", 1);
    reader.on_read(ReadEvent::Received(b"first".to_vec()));
    reader.on_read(ReadEvent::Received(Vec::new()));
    let later = [
        ReadEvent::Received(b"late".to_vec()),
        ReadEvent::Failed,
        ReadEvent::Received(Vec::new()),
        ReadEvent::Received(b"later".to_vec()),
    ];
    for event in later {
        assert_eq!(reader.on_read(event), ReaderAction::Stop(TunnelError::PeerClosed));
        assert_eq!(reader.state(), ReaderState::Stopped(TunnelError::PeerClosed));
    }
}

#[test]
fn failed_read_ends_the_reader() {
    let (mut reader, _writer) = halves("id", 1);
    let action = reader.on_read(ReadEvent::Failed);
    assert_eq!(action, ReaderAction::Stop(TunnelError::StreamIo));
    assert_eq!(reader.state(), ReaderState::Stopped(TunnelError::StreamIo));
    assert_eq!(
        reader.on_read(ReadEvent::Received(b"more".to_vec())),
        ReaderAction::Stop(TunnelError::StreamIo)
    );
}

#[test]
fn writer_sends_the_frame_when_due() {
    let (_reader, mut writer) = halves("128393847599", 8080);
    let action = writer.on_event(WriteEvent::Due);
    assert_eq!(
        action,
        WriterAction::Write(String::from("Ping from agent 128393847599 on port 8080\n"))
    );
    assert_eq!(writer.state(), WriterState::Writing);
}

#[test]
fn writer_pauses_three_seconds_after_a_write() {
    let (_reader, mut writer) = halves("id", 9);
    writer.on_event(WriteEvent::Due);
    assert_eq!(writer.on_event(WriteEvent::Written), WriterAction::Sleep(3));
    assert_eq!(writer.state(), WriterState::Waiting);
}

#[test]
fn writer_goes_round_at_a_fixed_cadence() {
    let (_reader, mut writer) = halves("agent", 65535);
    for _ in 0..100 {
        assert_eq!(
            writer.on_event(WriteEvent::Due),
            WriterAction::Write(String::from("Ping from agent agent on port 65535\n"))
        );
        assert_eq!(writer.on_event(WriteEvent::Written), WriterAction::Sleep(3));
    }
    assert_eq!(writer.agent_id(), "agent");
    assert_eq!(writer.port(), 65535);
}

#[test]
fn failed_write_ends_the_writer() {
    let (_reader, mut writer) = halves("id", 9);
    writer.on_event(WriteEvent::Due);
    assert_eq!(writer.on_event(WriteEvent::Failed), WriterAction::Stop(TunnelError::StreamIo));
    assert_eq!(writer.state(), WriterState::Stopped(TunnelError::StreamIo));
    for event in [WriteEvent::Due, WriteEvent::Written, WriteEvent::Failed, WriteEvent::Due] {
        assert_eq!(writer.on_event(event), WriterAction::Stop(TunnelError::StreamIo));
        assert_eq!(writer.state(), WriterState::Stopped(TunnelError::StreamIo));
    }
}

#[test]
fn writer_ignores_what_does_not_belong() {
    let (_reader, mut writer) = halves("id", 9);
    assert_eq!(writer.on_event(WriteEvent::Written), WriterAction::Ignore);
    assert_eq!(writer.on_event(WriteEvent::Failed), WriterAction::Ignore);
    assert_eq!(writer.state(), WriterState::Waiting);
    writer.on_event(WriteEvent::Due);
    assert_eq!(writer.on_event(WriteEvent::Due), WriterAction::Ignore);
    assert_eq!(writer.state(), WriterState::Writing);
    assert_eq!(writer.on_event(WriteEvent::Written), WriterAction::Sleep(3));
}

#[test]
fn write_failure_leaves_the_reader_reading() {
    let (mut reader, mut writer) = halves("id", 9);
    writer.on_event(WriteEvent::Due);
    assert_eq!(writer.on_event(WriteEvent::Failed), WriterAction::Stop(TunnelError::StreamIo));
    assert_eq!(reader.state(), ReaderState::Reading);
    assert_eq!(
        reader.on_read(ReadEvent::Received(b"still here".to_vec())),
        ReaderAction::Deliver(String::from("still here"))
    );
    assert_eq!(reader.state(), ReaderState::Reading);
}

#[test]
fn read_failure_leaves_the_writer_writing() {
    let (mut reader, mut writer) = halves("id", 9);
    assert_eq!(reader.on_read(ReadEvent::Failed), ReaderAction::Stop(TunnelError::StreamIo));
    assert_eq!(writer.state(), WriterState::Waiting);
    assert_eq!(
        writer.on_event(WriteEvent::Due),
        WriterAction::Write(String::from("Ping from agent id on port 9\n"))
    );
    assert_eq!(writer.on_event(WriteEvent::Written), WriterAction::Sleep(3));
}
