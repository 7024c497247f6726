use paap_configurator::connection::ConnectionState;
use paap_configurator::exchange::{Exchange, Outcome, PortAction, PortEvent, ReadEvent, Step};
use paap_configurator::handshake::{Handshake, HandshakeStep, Phase};
use paap_configurator::key_update::{KeyUpdate, KeyUpdateStep};

/// A pedal that answers each command with a scripted reply.
struct Pedal {
    replies: Vec<Vec<u8>>,
    pending: Vec<u8>,
    heard: Vec<u8>,
}

impl Pedal {
    fn new(replies: &[&[u8]]) -> Self {
        Pedal { replies: replies.iter().map(|r| r.to_vec()).rev().collect(), pending: Vec::new(), heard: Vec::new() }
    }

    fn run(&mut self, exchange: &mut Exchange) -> Outcome {
        let mut action = exchange.first_action();
        let mut chunk = 1;
        loop {
            let event = match action {
                PortAction::Write(bytes) => {
                    self.heard.extend_from_slice(&bytes);
                    self.pending = self.replies.pop().unwrap_or_default();
                    PortEvent::Written
                }
                PortAction::Flush => PortEvent::Flushed,
                PortAction::Listen { chunk_len, .. } => {
                    chunk = chunk_len;
                    self.read(chunk)
                }
                PortAction::Read | PortAction::SleepThenRead { .. } => self.read(chunk),
            };
            match exchange.on_event(event) {
                Step::Act(next) => action = next,
                Step::Done(outcome) => return outcome,
            }
        }
    }

    fn read(&mut self, chunk: usize) -> PortEvent {
        if self.pending.is_empty() {
            return PortEvent::Read(ReadEvent::Expired);
        }
        let n = chunk.min(self.pending.len()).min(3);
        let bytes: Vec<u8> = self.pending.drain(..n).collect();
        PortEvent::Read(ReadEvent::Data(bytes))
    }
}

fn connect(pedal: &mut Pedal, state: &mut ConnectionState<u32>) -> Result<String, String> {
    let mut handshake = Handshake::new("/dev/ttyACM0");
    let mut step = handshake.on_open(Ok(7));
    loop {
        match step {
            HandshakeStep::Run(mut exchange) => {
                let outcome = pedal.run(&mut exchange);
                step = handshake.on_outcome(state, outcome);
            }
            HandshakeStep::Finished(result) => return result,
        }
    }
}

fn save(pedal: &mut Pedal, state: &mut ConnectionState<u32>, key: char) -> Result<(), String> {
    let update = KeyUpdate::new(key);
    match update.begin(state) {
        KeyUpdateStep::Run(mut exchange) => {
            let outcome = pedal.run(&mut exchange);
            update.on_outcome(state, outcome)
        }
        KeyUpdateStep::Refused(message) => Err(message),
    }
}

#[test]
fn example_protocol_session() {
    let mut pedal = Pedal::new(&[b"LO\n", b"VER0.0.1\n", b"KEYl\n", b"ACK\n"]);
    let mut state = ConnectionState::Disconnected;
    assert_eq!(connect(&mut pedal, &mut state), Ok("l".to_string()));
    assert_eq!(pedal.heard, b"HEL\nVER\nKEY\n".to_vec());
    assert!(state.is_connected());
    assert_eq!(state.port_name(), Some("/dev/ttyACM0"));
    assert_eq!(state.version(), Some("0.0.1"));
    assert_eq!(state.current_key(), Some('l'));
    assert_eq!(save(&mut pedal, &mut state, 'k'), Ok(()));
    assert_eq!(pedal.heard, b"HEL\nVER\nKEY\nKEYk\n".to_vec());
    assert_eq!(state.current_key(), Some('k'));
    assert!(matches!(state, ConnectionState::Connected { port: 7, .. }));
}

#[test]
fn replies_may_end_in_carriage_returns() {
    let mut pedal = Pedal::new(&[b"LO\r\n", b"VER1.2\r\n", b"KEYa\r\n"]);
    let mut state = ConnectionState::Disconnected;
    assert_eq!(connect(&mut pedal, &mut state), Ok("a".to_string()));
    assert_eq!(state.version(), Some("1.2"));
}

#[test]
fn port_that_does_not_open() {
    let mut handshake: Handshake<u32> = Handshake::new("COM3");
    match handshake.on_open(Err("No such file or directory".to_string())) {
        HandshakeStep::Finished(Err(m)) => assert_eq!(m, "Failed to open port: No such file or directory."),
        other => panic!("unexpected {:?}", other),
    }
    assert_eq!(handshake.phase, Phase::Finished);
}

#[test]
fn wrong_greeting_is_refused() {
    let mut pedal = Pedal::new(&[b"HI\n"]);
    let mut state = ConnectionState::Disconnected;
    assert_eq!(connect(&mut pedal, &mut state), Err("Invalid response: expected 'LO', got 'HI'.".to_string()));
    assert!(!state.is_connected());
}

#[test]
fn silent_pedal_times_out() {
    let mut pedal = Pedal::new(&[]);
    let mut state = ConnectionState::Disconnected;
    assert_eq!(connect(&mut pedal, &mut state), Err("Timeout waiting for LO response.".to_string()));
}

#[test]
fn missing_version_keeps_the_link() {
    let mut pedal = Pedal::new(&[b"LO\n", b"KEYl\n"]);
    let mut state = ConnectionState::Disconnected;
    assert_eq!(connect(&mut pedal, &mut state), Err("Failed to get version response.".to_string()));
    assert!(state.is_connected());
    assert_eq!(state.version(), Some(""));
    assert_eq!(state.current_key(), Some('\0'));
}

#[test]
fn version_without_text_is_unknown() {
    let mut pedal = Pedal::new(&[b"LO\n", b"VER\n", b"KEYz\n"]);
    let mut state = ConnectionState::Disconnected;
    assert_eq!(connect(&mut pedal, &mut state), Ok("z".to_string()));
    assert_eq!(state.version(), Some("unknown"));
}

#[test]
fn missing_key_reply() {
    let mut pedal = Pedal::new(&[b"LO\n", b"VER0.0.1\n"]);
    let mut state = ConnectionState::Disconnected;
    assert_eq!(connect(&mut pedal, &mut state), Err("Failed to get keycode response.".to_string()));
    assert!(state.is_connected());
}

#[test]
fn empty_key_disconnects() {
    let mut pedal = Pedal::new(&[b"LO\n", b"VER0.0.1\n", b"KEY\n"]);
    let mut state = ConnectionState::Disconnected;
    assert_eq!(connect(&mut pedal, &mut state), Err("Invalid keycode in response.".to_string()));
    assert!(!state.is_connected());
}

#[test]
fn nul_key_disconnects() {
    let mut pedal = Pedal::new(&[b"LO\n", b"VER0.0.1\n", b"KEY\0\n"]);
    let mut state = ConnectionState::Disconnected;
    assert_eq!(connect(&mut pedal, &mut state), Err("Invalid keycode in response.".to_string()));
    assert!(!state.is_connected());
}

#[test]
fn write_failures_name_the_command() {
    let mut handshake: Handshake<u32> = Handshake::new("COM3");
    let mut state = ConnectionState::Disconnected;
    handshake.on_open(Ok(1));
    match handshake.on_outcome(&mut state, Outcome::WriteFailed("gone".to_string())) {
        HandshakeStep::Finished(Err(m)) => assert_eq!(m, "Failed to send HEL: gone."),
        other => panic!("unexpected {:?}", other),
    }
    let mut handshake: Handshake<u32> = Handshake::new("COM3");
    handshake.on_open(Ok(1));
    handshake.on_outcome(&mut state, Outcome::Replied(b"LO".to_vec()));
    match handshake.on_outcome(&mut state, Outcome::FlushFailed("gone".to_string())) {
        HandshakeStep::Finished(Err(m)) => assert_eq!(m, "Failed to flush: gone."),
        other => panic!("unexpected {:?}", other),
    }
    let mut handshake: Handshake<u32> = Handshake::new("COM3");
    handshake.on_open(Ok(1));
    handshake.on_outcome(&mut state, Outcome::Replied(b"LO".to_vec()));
    handshake.on_outcome(&mut state, Outcome::Replied(b"VER2".to_vec()));
    match handshake.on_outcome(&mut state, Outcome::WriteFailed("gone".to_string())) {
        HandshakeStep::Finished(Err(m)) => assert_eq!(m, "Failed to send KEY: gone."),
        other => panic!("unexpected {:?}", other),
    }
    let mut handshake: Handshake<u32> = Handshake::new("COM3");
    handshake.on_open(Ok(1));
    match handshake.on_outcome(&mut state, Outcome::ReadFailed("broken".to_string())) {
        HandshakeStep::Finished(Err(m)) => assert_eq!(m, "Read error: broken."),
        other => panic!("unexpected {:?}", other),
    }
    let mut handshake: Handshake<u32> = Handshake::new("COM3");
    handshake.on_open(Ok(1));
    handshake.on_outcome(&mut state, Outcome::Replied(b"LO".to_vec()));
    match handshake.on_outcome(&mut state, Outcome::WriteFailed("gone".to_string())) {
        HandshakeStep::Finished(Err(m)) => assert_eq!(m, "Failed to send VER: gone."),
        other => panic!("unexpected {:?}", other),
    }
}

#[test]
fn saving_without_a_pedal_is_refused() {
    let state: ConnectionState<u32> = ConnectionState::Disconnected;
    match KeyUpdate::new('k').begin(&state) {
        KeyUpdateStep::Refused(m) => assert_eq!(m, "Not connected to a device."),
        other => panic!("unexpected {:?}", other),
    }
}

#[test]
fn refused_save_keeps_the_key() {
    let mut pedal = Pedal::new(&[b"LO\n", b"VER0.0.1\n", b"KEYl\n", b"NAK\n"]);
    let mut state = ConnectionState::Disconnected;
    connect(&mut pedal, &mut state).unwrap();
    assert_eq!(save(&mut pedal, &mut state, 'q'), Err("Device responded with 'NAK' instead of ACK.".to_string()));
    assert_eq!(state.current_key(), Some('l'));
}

#[test]
fn unanswered_save_times_out() {
    let mut pedal = Pedal::new(&[b"LO\n", b"VER0.0.1\n", b"KEYl\n"]);
    let mut state = ConnectionState::Disconnected;
    connect(&mut pedal, &mut state).unwrap();
    assert_eq!(save(&mut pedal, &mut state, 'q'), Err("Timeout waiting for response from device.".to_string()));
    let mut state2 = state;
    let update = KeyUpdate::new('q');
    assert_eq!(update.on_outcome(&mut state2, Outcome::WriteFailed("gone".to_string())), Err("Failed to send key: gone.".to_string()));
    assert_eq!(update.on_outcome(&mut state2, Outcome::FlushFailed("gone".to_string())), Err("Failed to flush: gone.".to_string()));
    assert_eq!(update.on_outcome(&mut state2, Outcome::ReadFailed("bad".to_string())), Err("Read error: bad.".to_string()));
}

#[test]
fn multibyte_key_is_sent_as_utf8() {
    let mut pedal = Pedal::new(&[b"LO\n", b"VER0.0.1\n", b"KEYl\n", b"ACK\n"]);
    let mut state = ConnectionState::Disconnected;
    connect(&mut pedal, &mut state).unwrap();
    assert_eq!(save(&mut pedal, &mut state, 'é'), Ok(()));
    assert!(pedal.heard.ends_with("KEYé\n".as_bytes()));
    assert_eq!(state.current_key(), Some('é'));
}

#[test]
fn every_command_waits_two_seconds() {
    let mut state: ConnectionState<u32> = ConnectionState::Disconnected;
    let mut handshake: Handshake<u32> = Handshake::new("COM3");
    let greeting = match handshake.on_open(Ok(1)) {
        HandshakeStep::Run(exchange) => exchange,
        other => panic!("unexpected {:?}", other),
    };
    assert_eq!((greeting.wait.timeout_secs, greeting.wait.chunk_len), (2, 10));
    let version = match handshake.on_outcome(&mut state, Outcome::Replied(b"LO".to_vec())) {
        HandshakeStep::Run(exchange) => exchange,
        other => panic!("unexpected {:?}", other),
    };
    assert_eq!(version.command, b"VER\n".to_vec());
    assert_eq!((version.wait.timeout_secs, version.wait.chunk_len), (2, 64));
    let key = match handshake.on_outcome(&mut state, Outcome::Replied(b"VER0.0.1".to_vec())) {
        HandshakeStep::Run(exchange) => exchange,
        other => panic!("unexpected {:?}", other),
    };
    assert_eq!(key.command, b"KEY\n".to_vec());
    assert_eq!((key.wait.timeout_secs, key.wait.chunk_len), (2, 64));
    let save = match KeyUpdate::new('x').begin(&state) {
        KeyUpdateStep::Run(exchange) => exchange,
        other => panic!("unexpected {:?}", other),
    };
    assert_eq!(save.command, b"KEYx\n".to_vec());
    assert_eq!((save.wait.timeout_secs, save.wait.chunk_len), (2, 10));
}
