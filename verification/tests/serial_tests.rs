use serial_chat::serial::{classify, ReadOutcome, SerialAction, SerialReader, LINK_LOST, READ_BUFFER_SIZE};

#[test]
fn read_buffer_holds_at_least_512_bytes() {
    assert!(READ_BUFFER_SIZE >= 512);
}

#[test]
fn classify_nothing_is_poll() {
    assert_eq!(classify(Vec::new()), SerialAction::Poll);
}

#[test]
fn classify_text_is_one_line_with_the_chunk_as_it_is() {
    assert_eq!(classify(b"ping\n".to_vec()), SerialAction::Append(String::from("ping\n")));
    assert_eq!(classify(b"a\nb\nc".to_vec()), SerialAction::Append(String::from("a\nb\nc")));
    assert_eq!(classify(vec![0x61, 0xC3, 0xA9]), SerialAction::Append(String::from("a\u{e9}")));
    assert_eq!(classify(vec![0]), SerialAction::Append(String::from("\0")));
}

#[test]
fn classify_bytes_that_are_no_text_is_discard() {
    assert_eq!(classify(vec![0xFF]), SerialAction::Discard);
    assert_eq!(classify(vec![0x61, 0xC3]), SerialAction::Discard);
    assert_eq!(classify(vec![0xED, 0xA0, 0x80]), SerialAction::Discard);
    assert_eq!(classify(vec![0xC0, 0x80]), SerialAction::Discard);
}

#[test]
fn reader_starts_on_a_live_link() {
    assert!(!SerialReader::new(3, 100).is_lost());
}

#[test]
fn reader_appends_text_and_polls_on_nothing() {
    let mut reader = SerialReader::new(3, 100);
    assert_eq!(reader.on_read(ReadOutcome::Data(Vec::new())), SerialAction::Poll);
    assert_eq!(reader.on_read(ReadOutcome::TimedOut), SerialAction::Poll);
    assert_eq!(
        reader.on_read(ReadOutcome::Data(b"hello".to_vec())),
        SerialAction::Append(String::from("hello"))
    );
    assert_eq!(reader.on_read(ReadOutcome::Data(vec![0x80])), SerialAction::Discard);
    assert!(!reader.is_lost());
}

#[test]
fn reader_retries_with_doubling_pause_then_gives_up() {
    let mut reader = SerialReader::new(3, 100);
    assert_eq!(reader.on_read(ReadOutcome::Failed), SerialAction::Retry { delay_ms: 100 });
    assert_eq!(reader.on_read(ReadOutcome::Failed), SerialAction::Retry { delay_ms: 200 });
    assert_eq!(reader.on_read(ReadOutcome::Failed), SerialAction::Retry { delay_ms: 400 });
    assert!(!reader.is_lost());
    assert_eq!(reader.on_read(ReadOutcome::Failed), SerialAction::GiveUp(String::from("link lost")));
    assert!(reader.is_lost());
}

#[test]
fn link_lost_line_says_link_lost() {
    assert_eq!(LINK_LOST, "link lost");
}

#[test]
fn reader_without_retries_gives_up_at_the_first_failure() {
    let mut reader = SerialReader::new(0, 100);
    assert_eq!(reader.on_read(ReadOutcome::Failed), SerialAction::GiveUp(String::from(LINK_LOST)));
    assert!(reader.is_lost());
}

#[test]
fn reader_after_giving_up_answers_stopped_to_everything() {
    let mut reader = SerialReader::new(0, 100);
    assert_eq!(reader.on_read(ReadOutcome::Failed), SerialAction::GiveUp(String::from(LINK_LOST)));
    assert_eq!(reader.on_read(ReadOutcome::Failed), SerialAction::Stopped);
    assert_eq!(reader.on_read(ReadOutcome::TimedOut), SerialAction::Stopped);
    assert_eq!(reader.on_read(ReadOutcome::Data(b"late".to_vec())), SerialAction::Stopped);
    assert!(reader.is_lost());
}

#[test]
fn reader_success_ends_the_run_of_failures() {
    let mut reader = SerialReader::new(2, 10);
    assert_eq!(reader.on_read(ReadOutcome::Failed), SerialAction::Retry { delay_ms: 10 });
    assert_eq!(reader.on_read(ReadOutcome::Failed), SerialAction::Retry { delay_ms: 20 });
    assert_eq!(reader.on_read(ReadOutcome::Data(b"ok".to_vec())), SerialAction::Append(String::from("ok")));
    assert_eq!(reader.on_read(ReadOutcome::Failed), SerialAction::Retry { delay_ms: 10 });
    assert_eq!(reader.on_read(ReadOutcome::TimedOut), SerialAction::Poll);
    assert_eq!(reader.on_read(ReadOutcome::Failed), SerialAction::Retry { delay_ms: 10 });
    assert_eq!(reader.on_read(ReadOutcome::Data(vec![0xFF])), SerialAction::Discard);
    assert_eq!(reader.on_read(ReadOutcome::Failed), SerialAction::Retry { delay_ms: 10 });
    assert_eq!(reader.on_read(ReadOutcome::Failed), SerialAction::Retry { delay_ms: 20 });
    assert_eq!(reader.on_read(ReadOutcome::Failed), SerialAction::GiveUp(String::from(LINK_LOST)));
}

#[test]
fn reader_pause_stops_doubling_at_the_largest_value() {
    let mut reader = SerialReader::new(4, u64::MAX / 2);
    assert_eq!(reader.on_read(ReadOutcome::Failed), SerialAction::Retry { delay_ms: u64::MAX / 2 });
    assert_eq!(reader.on_read(ReadOutcome::Failed), SerialAction::Retry { delay_ms: u64::MAX - 1 });
    assert_eq!(reader.on_read(ReadOutcome::Failed), SerialAction::Retry { delay_ms: u64::MAX });
    assert_eq!(reader.on_read(ReadOutcome::Failed), SerialAction::Retry { delay_ms: u64::MAX });
}

#[test]
fn reader_with_no_pause_retries_at_once() {
    let mut reader = SerialReader::new(2, 0);
    assert_eq!(reader.on_read(ReadOutcome::Failed), SerialAction::Retry { delay_ms: 0 });
    assert_eq!(reader.on_read(ReadOutcome::Failed), SerialAction::Retry { delay_ms: 0 });
}
