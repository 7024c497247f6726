use paap_configurator::exchange::{
    response_text, Exchange, Expect, Outcome, PortAction, PortEvent, ReadEvent, ReplyWait, Stage,
    Step,
};

fn data(bytes: &[u8]) -> ReadEvent {
    ReadEvent::Data(bytes.to_vec())
}

#[test]
fn reply_in_pieces_is_assembled() {
    let mut wait = ReplyWait::new(b"LO".to_vec(), Expect::Exactly, 1, 10);
    assert!(matches!(wait.first_action(), PortAction::Listen { timeout_secs: 1, chunk_len: 10 }));
    assert!(matches!(wait.on_read(data(b"L")), Step::Act(PortAction::Read)));
    assert!(matches!(wait.on_read(data(b"O\r")), Step::Act(PortAction::Read)));
    match wait.on_read(data(b"\nrest")) {
        Step::Done(Outcome::Replied(line)) => assert_eq!(line, b"LO".to_vec()),
        other => panic!("unexpected {:?}", other),
    }
    assert_eq!(wait.received, b"LO\r\nrest".to_vec());
}

#[test]
fn wrong_reply_is_unexpected() {
    let mut wait = ReplyWait::new(b"LO".to_vec(), Expect::Exactly, 1, 10);
    match wait.on_read(data(b"LOL\n")) {
        Step::Done(Outcome::Unexpected(line)) => assert_eq!(line, b"LOL".to_vec()),
        other => panic!("unexpected {:?}", other),
    }
}

#[test]
fn prefix_reply_is_accepted() {
    let mut wait = ReplyWait::for_prefix("VER", 2);
    assert_eq!(wait.chunk_len, 64);
    assert_eq!(wait.timeout_secs, 2);
    match wait.on_read(data(b"VER0.0.1\r\n")) {
        Step::Done(outcome) => assert_eq!(response_text(outcome), Some("VER0.0.1".to_string())),
        other => panic!("unexpected {:?}", other),
    }
    let mut wait = ReplyWait::for_prefix("VER", 2);
    match wait.on_read(data(b"KEYl\n")) {
        Step::Done(outcome) => assert_eq!(response_text(outcome), None),
        other => panic!("unexpected {:?}", other),
    }
}

#[test]
fn idle_reads_pause_and_retry() {
    let mut wait = ReplyWait::new(b"ACK".to_vec(), Expect::Exactly, 1, 10);
    assert!(matches!(wait.on_read(ReadEvent::Nothing), Step::Act(PortAction::SleepThenRead { millis: 10 })));
    assert!(matches!(wait.on_read(ReadEvent::TimedOut), Step::Act(PortAction::SleepThenRead { millis: 10 })));
    assert!(wait.received.is_empty());
}

#[test]
fn expiry_and_failure_end_the_wait() {
    let mut wait = ReplyWait::new(b"ACK".to_vec(), Expect::Exactly, 1, 10);
    assert!(matches!(wait.on_read(ReadEvent::Expired), Step::Done(Outcome::Expired)));
    match wait.on_read(ReadEvent::Failed("broken pipe".to_string())) {
        Step::Done(Outcome::ReadFailed(e)) => assert_eq!(e, "broken pipe"),
        other => panic!("unexpected {:?}", other),
    }
    assert_eq!(response_text(Outcome::Expired), None);
}

#[test]
fn exchange_writes_flushes_then_listens() {
    let mut ex = Exchange::new(b"HEL\n".to_vec(), b"LO".to_vec(), Expect::Exactly, 1, 10);
    match ex.first_action() {
        PortAction::Write(bytes) => assert_eq!(bytes, b"HEL\n".to_vec()),
        other => panic!("unexpected {:?}", other),
    }
    assert!(ex.accepts_event(&PortEvent::Written));
    assert!(!ex.accepts_event(&PortEvent::Flushed));
    assert!(matches!(ex.on_event(PortEvent::Written), Step::Act(PortAction::Flush)));
    assert_eq!(ex.stage, Stage::Flushing);
    assert!(matches!(
        ex.on_event(PortEvent::Flushed),
        Step::Act(PortAction::Listen { timeout_secs: 1, chunk_len: 10 })
    ));
    assert!(ex.accepts_event(&PortEvent::Read(ReadEvent::Nothing)));
    match ex.on_event(PortEvent::Read(data(b"LO\n"))) {
        Step::Done(Outcome::Replied(line)) => assert_eq!(line, b"LO".to_vec()),
        other => panic!("unexpected {:?}", other),
    }
}

#[test]
fn exchange_stops_on_write_or_flush_failure() {
    let mut ex = Exchange::new(b"HEL\n".to_vec(), b"LO".to_vec(), Expect::Exactly, 1, 10);
    match ex.on_event(PortEvent::WriteFailed("gone".to_string())) {
        Step::Done(Outcome::WriteFailed(e)) => assert_eq!(e, "gone"),
        other => panic!("unexpected {:?}", other),
    }
    let mut ex = Exchange::new(b"HEL\n".to_vec(), b"LO".to_vec(), Expect::Exactly, 1, 10);
    ex.on_event(PortEvent::Written);
    match ex.on_event(PortEvent::FlushFailed("gone".to_string())) {
        Step::Done(Outcome::FlushFailed(e)) => assert_eq!(e, "gone"),
        other => panic!("unexpected {:?}", other),
    }
}
