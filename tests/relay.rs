use term_mux::relay::{ReadOutcome, Relay, RelayAction, RelayPhase, WriteOutcome, CHUNK_SIZE};

/// Drives a relay through the given reads, with a destination that takes at
/// most `max_write` bytes per write, and returns what reached it.
fn drive(chunks: &[&[u8]], max_write: usize) -> Vec<u8> {
    let mut relay = Relay::new();
    let mut captured = Vec::new();
    let mut reads = chunks.iter();
    let mut action = RelayAction::Read;
    loop {
        action = match action {
            RelayAction::Read => {
                let mut buf = [0u8; CHUNK_SIZE];
                match reads.next() {
                    Some(chunk) => {
                        buf[..chunk.len()].copy_from_slice(chunk);
                        relay.on_read(&buf, ReadOutcome::Data(chunk.len()))
                    }
                    None => relay.on_read(&buf, ReadOutcome::Data(0)),
                }
            }
            RelayAction::Write(bytes) => {
                let n = bytes.len().min(max_write);
                captured.extend_from_slice(&bytes[..n]);
                relay.on_write(WriteOutcome::Wrote(n))
            }
            RelayAction::Flush => relay.on_flush(true),
            RelayAction::AwaitReadable | RelayAction::AwaitWritable => relay.on_ready(),
            RelayAction::Stop => break,
        }
    }
    assert_eq!(relay.phase(), RelayPhase::Closed);
    captured
}

#[test]
fn bytes_arrive_in_order_and_whole() {
    let chunks: [&[u8]; 3] = [b"hello ", b"\x00\xff\x1b[2J", b"world"];
    assert_eq!(drive(&chunks, CHUNK_SIZE), b"hello \x00\xff\x1b[2Jworld".to_vec());
}

#[test]
fn partial_writes_lose_nothing() {
    let chunks: [&[u8]; 2] = [b"abcdefg", b"hij"];
    assert_eq!(drive(&chunks, 3), b"abcdefghij".to_vec());
    assert_eq!(drive(&chunks, 1), b"abcdefghij".to_vec());
}

#[test]
fn empty_source_sends_nothing() {
    assert_eq!(drive(&[], 5), Vec::<u8>::new());
}

#[test]
fn read_hands_on_exactly_the_bytes_read() {
    let mut relay = Relay::new();
    let buf = *b"abcdef";
    assert_eq!(relay.on_read(&buf, ReadOutcome::Data(4)), RelayAction::Write(b"abcd".to_vec()));
    assert_eq!(relay.phase(), RelayPhase::Writing);
}

#[test]
fn no_data_yet_waits_instead_of_ending() {
    let mut relay = Relay::new();
    let buf = [0u8; 8];
    assert_eq!(relay.on_read(&buf, ReadOutcome::WouldBlock), RelayAction::AwaitReadable);
    assert_eq!(relay.phase(), RelayPhase::Reading);
    assert_eq!(relay.on_ready(), RelayAction::Read);
    assert_eq!(relay.on_read(&buf, ReadOutcome::Interrupted), RelayAction::Read);
    assert_eq!(relay.phase(), RelayPhase::Reading);
}

#[test]
fn end_of_stream_and_failure_stop() {
    let buf = [0u8; 8];
    let mut relay = Relay::new();
    assert_eq!(relay.on_read(&buf, ReadOutcome::Data(0)), RelayAction::Stop);
    assert_eq!(relay.phase(), RelayPhase::Closed);
    let mut relay = Relay::new();
    assert_eq!(relay.on_read(&buf, ReadOutcome::Failed), RelayAction::Stop);
    assert_eq!(relay.phase(), RelayPhase::Closed);
}

#[test]
fn write_outcomes() {
    let buf = *b"xyz";
    let mut relay = Relay::new();
    relay.on_read(&buf, ReadOutcome::Data(3));
    assert_eq!(relay.on_write(WriteOutcome::WouldBlock), RelayAction::AwaitWritable);
    assert_eq!(relay.on_ready(), RelayAction::Write(b"xyz".to_vec()));
    assert_eq!(relay.on_write(WriteOutcome::Interrupted), RelayAction::Write(b"xyz".to_vec()));
    assert_eq!(relay.on_write(WriteOutcome::Wrote(1)), RelayAction::Write(b"yz".to_vec()));
    assert_eq!(relay.on_write(WriteOutcome::Wrote(2)), RelayAction::Flush);
    assert_eq!(relay.phase(), RelayPhase::Flushing);
    assert_eq!(relay.on_flush(true), RelayAction::Read);

    relay.on_read(&buf, ReadOutcome::Data(2));
    assert_eq!(relay.on_write(WriteOutcome::Wrote(0)), RelayAction::Stop);
    assert_eq!(relay.phase(), RelayPhase::Closed);

    let mut relay = Relay::new();
    relay.on_read(&buf, ReadOutcome::Data(2));
    assert_eq!(relay.on_write(WriteOutcome::Failed), RelayAction::Stop);

    let mut relay = Relay::new();
    relay.on_read(&buf, ReadOutcome::Data(2));
    relay.on_write(WriteOutcome::Wrote(2));
    assert_eq!(relay.on_flush(false), RelayAction::Stop);
    assert_eq!(relay.phase(), RelayPhase::Closed);
}
