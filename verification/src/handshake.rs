//! Connecting to a pedal: open its port, greet it, then ask for its firmware
//! version and for the key it emulates.
//!
//! The caller opens the port and runs each [`Exchange`] that the handshake
//! asks for; the handshake decides what follows from each result and keeps
//! the [`ConnectionState`] up to date.

use vstd::prelude::*;
use crate::connection::ConnectionState;
use crate::exchange::{Exchange, Expect, Outcome};
use crate::protocol::{
    char_text, command_line, hello_command, hello_reply, hello_reply_text, hello_text, join3,
    key_of, key_query, key_tag, key_tag_text, lossy_text, parse_key, parse_version, reply_text,
    version_of, version_query, version_tag, version_tag_text,
};

verus! {

/// How long the pedal has to answer `HEL`, in seconds.
pub const HELLO_TIMEOUT_SECS: u64 = 2;

/// How many bytes one read takes while waiting for `LO`.
pub const HELLO_CHUNK_LEN: usize = 10;

/// How long the pedal has to answer `VER` or `KEY`, in seconds.
pub const QUERY_TIMEOUT_SECS: u64 = 2;

/// How many bytes one read takes while waiting for the answer to `VER` or `KEY`.
pub const QUERY_CHUNK_LEN: usize = 64;

/// Where a handshake stands.
#[derive(Debug, Clone, Copy, PartialEq, Eq, Structural)]
pub enum Phase {
    /// Waiting for the port to open.
    Opening,
    /// `HEL` sent or about to be; waiting for `LO`.
    Greeting,
    /// Waiting for the answer to `VER`.
    AskingVersion,
    /// Waiting for the answer to `KEY`.
    AskingKey,
    /// Done, one way or the other.
    Finished,
}

/// What the handshake asks for next.
#[derive(Debug)]
pub enum HandshakeStep {
    /// Run this exchange on the port and hand back its outcome.
    Run(Exchange),
    /// The handshake is over: the key the pedal emulates, or why it failed.
    Finished(Result<String, String>),
}

/// Connecting to the pedal on one port.
pub struct Handshake<P> {
    pub port_name: String,
    pub phase: Phase,
    /// The port, from when it opens until the pedal has answered `HEL`.
    pub opened: Option<P>,
}

/// `step` ends the handshake with the error `message`.
pub open spec fn fails_with(step: HandshakeStep, message: Seq<char>) -> bool {
    step matches HandshakeStep::Finished(Err(m)) && m@ == message
}

/// `lead`, then `detail`, then a full stop.
pub open spec fn sentence(lead: Seq<char>, detail: Seq<char>) -> Seq<char> {
    lead + detail + "."@
}

/// Why the greeting failed, for each way an exchange can end other than the
/// expected reply.
pub open spec fn hello_failure(outcome: Outcome) -> Seq<char> {
    match outcome {
        Outcome::Unexpected(line) => "Invalid response: expected 'LO', got '"@ + lossy_text(line@)
            + "'."@,
        Outcome::Expired => "Timeout waiting for LO response."@,
        Outcome::ReadFailed(error) => sentence("Read error: "@, error@),
        Outcome::WriteFailed(error) => sentence("Failed to send HEL: "@, error@),
        Outcome::FlushFailed(error) => sentence("Failed to flush: "@, error@),
        Outcome::Replied(_) => Seq::empty(),
    }
}

/// Why asking for the version failed.
pub open spec fn version_failure(outcome: Outcome) -> Seq<char> {
    match outcome {
        Outcome::WriteFailed(error) => sentence("Failed to send VER: "@, error@),
        Outcome::FlushFailed(error) => sentence("Failed to flush: "@, error@),
        _ => "Failed to get version response."@,
    }
}

/// Why asking for the key failed.
pub open spec fn key_failure(outcome: Outcome) -> Seq<char> {
    match outcome {
        Outcome::WriteFailed(error) => sentence("Failed to send KEY: "@, error@),
        Outcome::FlushFailed(error) => sentence("Failed to flush: "@, error@),
        _ => "Failed to get keycode response."@,
    }
}

/// Why the key in the pedal's answer was refused.
pub open spec fn invalid_key_message() -> Seq<char> {
    "Invalid keycode in response."@
}

/// The end of a handshake, with the error `message`.
fn fail(message: String) -> (step: HandshakeStep)
    ensures
        step == HandshakeStep::Finished(Err(message)),
{
    HandshakeStep::Finished(Err(message))
}

impl<P> Handshake<P> {
    /// A handshake with the pedal on `port_name`, before the port is open.
    pub fn new(port_name: &str) -> (handshake: Self)
        ensures
            handshake.port_name@ == port_name@,
            handshake.phase == Phase::Opening,
            handshake.opened is None,
    {
        Handshake { port_name: String::from_str(port_name), phase: Phase::Opening, opened: None }
    }

    /// Takes the result of opening the port: once it is open the pedal is
    /// greeted with `HEL`; a port that does not open ends the handshake.
    pub fn on_open(&mut self, opened: Result<P, String>) -> (step: HandshakeStep)
        requires
            old(self).phase == Phase::Opening,
        ensures
            final(self).port_name == old(self).port_name,
            match opened {
                Ok(port) => {
                    &&& final(self).phase == Phase::Greeting
                    &&& final(self).opened == Some(port)
                    &&& step matches HandshakeStep::Run(exchange) && exchange.sends(
                        command_line(hello_text()),
                        hello_reply(),
                        Expect::Exactly,
                        HELLO_TIMEOUT_SECS,
                        HELLO_CHUNK_LEN,
                    )
                },
                Err(error) => {
                    &&& final(self).phase == Phase::Finished
                    &&& final(self).opened is None
                    &&& fails_with(step, sentence("Failed to open port: "@, error@))
                },
            },
    {
        match opened {
            Ok(port) => {
                self.opened = Some(port);
                self.phase = Phase::Greeting;
                HandshakeStep::Run(
                    Exchange::new(
                        hello_command(),
                        hello_reply_text(),
                        Expect::Exactly,
                        HELLO_TIMEOUT_SECS,
                        HELLO_CHUNK_LEN,
                    ),
                )
            },
            Err(error) => {
                self.phase = Phase::Finished;
                self.opened = None;
                fail(join3("Failed to open port: ", error.as_str(), "."))
            },
        }
    }

    /// How the handshake answers the outcome of an exchange: after `LO` the
    /// pedal counts as connected and is asked for its version, then for its
    /// key; the key ends the handshake. Any other ending stops it with a
    /// message that says why.
    pub open spec fn answers(
        self,
        state: ConnectionState<P>,
        outcome: Outcome,
        next: Self,
        next_state: ConnectionState<P>,
        step: HandshakeStep,
    ) -> bool {
        &&& next.port_name == self.port_name
        &&& next.opened is None
        &&& self.phase == Phase::Greeting ==> match outcome {
            Outcome::Replied(_) => {
                &&& next_state == (ConnectionState::Connected {
                    port: self.opened->0,
                    port_name: next_state->port_name,
                    current_key: '\0',
                    version: next_state->version,
                })
                &&& next_state->port_name@ == self.port_name@
                &&& next_state->version@ == Seq::<char>::empty()
                &&& next.phase == Phase::AskingVersion
                &&& step matches HandshakeStep::Run(exchange) && exchange.sends(
                    command_line(version_tag()),
                    version_tag(),
                    Expect::StartsWith,
                    QUERY_TIMEOUT_SECS,
                    QUERY_CHUNK_LEN,
                )
            },
            _ => {
                &&& next_state == state
                &&& next.phase == Phase::Finished
                &&& fails_with(step, hello_failure(outcome))
            },
        }
        &&& self.phase == Phase::AskingVersion ==> match outcome {
            Outcome::Replied(line) => {
                &&& match state {
                    ConnectionState::Connected { port, port_name, current_key, .. } => {
                        &&& next_state is Connected
                        &&& next_state->port == port
                        &&& next_state->port_name == port_name
                        &&& next_state->current_key == current_key
                        &&& next_state->version@ == version_of(line@)
                    },
                    ConnectionState::Disconnected => next_state == state,
                }
                &&& next.phase == Phase::AskingKey
                &&& step matches HandshakeStep::Run(exchange) && exchange.sends(
                    command_line(key_tag()),
                    key_tag(),
                    Expect::StartsWith,
                    QUERY_TIMEOUT_SECS,
                    QUERY_CHUNK_LEN,
                )
            },
            _ => {
                &&& next_state == state
                &&& next.phase == Phase::Finished
                &&& fails_with(step, version_failure(outcome))
            },
        }
        &&& self.phase == Phase::AskingKey ==> {
            &&& next.phase == Phase::Finished
            &&& match outcome {
                Outcome::Replied(line) => match key_of(line@) {
                    Some(key) => {
                        &&& match state {
                            ConnectionState::Connected { port, port_name, version, .. } => {
                                next_state == (ConnectionState::Connected {
                                    port,
                                    port_name,
                                    current_key: key,
                                    version,
                                })
                            },
                            ConnectionState::Disconnected => next_state == state,
                        }
                        &&& step matches HandshakeStep::Finished(Ok(text)) && text@ == seq![key]
                    },
                    None => {
                        &&& next_state is Disconnected
                        &&& fails_with(step, invalid_key_message())
                    },
                },
                _ => {
                    &&& next_state == state
                    &&& fails_with(step, key_failure(outcome))
                },
            }
        }
    }

    /// Takes how the last exchange ended, as `answers` describes.
    pub fn on_outcome(&mut self, state: &mut ConnectionState<P>, outcome: Outcome) -> (step:
        HandshakeStep)
        requires
            old(self).phase == Phase::Greeting || old(self).phase == Phase::AskingVersion
                || old(self).phase == Phase::AskingKey,
            old(self).phase == Phase::Greeting ==> old(self).opened is Some,
        ensures
            old(self).answers(*old(state), outcome, *final(self), *final(state), step),
    {
        let opened = self.opened.take();
        match self.phase {
            Phase::Greeting => {
                self.phase = Phase::Finished;
                match outcome {
                    Outcome::Replied(_) => {
                        let port = opened.unwrap();
                        *state = ConnectionState::connected(port, self.port_name.clone());
                        self.phase = Phase::AskingVersion;
                        HandshakeStep::Run(
                            Exchange::new(
                                version_query(),
                                version_tag_text(),
                                Expect::StartsWith,
                                QUERY_TIMEOUT_SECS,
                                QUERY_CHUNK_LEN,
                            ),
                        )
                    },
                    Outcome::Unexpected(line) => {
                        let text = reply_text(line.as_slice());
                        fail(join3("Invalid response: expected 'LO', got '", text.as_str(), "'."))
                    },
                    Outcome::Expired => fail(String::from_str("Timeout waiting for LO response.")),
                    Outcome::ReadFailed(error) => fail(join3("Read error: ", error.as_str(), ".")),
                    Outcome::WriteFailed(error) => fail(
                        join3("Failed to send HEL: ", error.as_str(), "."),
                    ),
                    Outcome::FlushFailed(error) => fail(
                        join3("Failed to flush: ", error.as_str(), "."),
                    ),
                }
            },
            Phase::AskingVersion => match outcome {
                Outcome::Replied(line) => {
                    state.set_version(parse_version(line.as_slice()));
                    self.phase = Phase::AskingKey;
                    HandshakeStep::Run(
                        Exchange::new(
                            key_query(),
                            key_tag_text(),
                            Expect::StartsWith,
                            QUERY_TIMEOUT_SECS,
                            QUERY_CHUNK_LEN,
                        ),
                    )
                },
                Outcome::WriteFailed(error) => {
                    self.phase = Phase::Finished;
                    fail(join3("Failed to send VER: ", error.as_str(), "."))
                },
                Outcome::FlushFailed(error) => {
                    self.phase = Phase::Finished;
                    fail(join3("Failed to flush: ", error.as_str(), "."))
                },
                _ => {
                    self.phase = Phase::Finished;
                    fail(String::from_str("Failed to get version response."))
                },
            },
            _ => {
                self.phase = Phase::Finished;
                match outcome {
                    Outcome::Replied(line) => match parse_key(line.as_slice()) {
                        Some(key) => {
                            state.set_current_key(key);
                            HandshakeStep::Finished(Ok(char_text(key)))
                        },
                        None => {
                            *state = ConnectionState::Disconnected;
                            fail(String::from_str("Invalid keycode in response."))
                        },
                    },
                    Outcome::WriteFailed(error) => fail(
                        join3("Failed to send KEY: ", error.as_str(), "."),
                    ),
                    Outcome::FlushFailed(error) => fail(
                        join3("Failed to flush: ", error.as_str(), "."),
                    ),
                    _ => fail(String::from_str("Failed to get keycode response.")),
                }
            },
        }
    }
}

/// A handshake in which the pedal gives the expected answers to `HEL`,
/// `VER` and `KEY`, with a usable key, leaves that pedal connected on the
/// handshake's port with the version and the key it reported, and ends with
/// that key.
pub proof fn law_handshake_connects<P>(
    greeting: Handshake<P>,
    before: ConnectionState<P>,
    hello_line: Vec<u8>,
    asking_version: Handshake<P>,
    greeted: ConnectionState<P>,
    first: HandshakeStep,
    version_line: Vec<u8>,
    asking_key: Handshake<P>,
    versioned: ConnectionState<P>,
    second: HandshakeStep,
    key_line: Vec<u8>,
    done: Handshake<P>,
    after: ConnectionState<P>,
    last: HandshakeStep,
)
    requires
        greeting.phase == Phase::Greeting,
        greeting.opened is Some,
        greeting.answers(before, Outcome::Replied(hello_line), asking_version, greeted, first),
        asking_version.answers(
            greeted,
            Outcome::Replied(version_line),
            asking_key,
            versioned,
            second,
        ),
        asking_key.answers(versioned, Outcome::Replied(key_line), done, after, last),
        key_of(key_line@) is Some,
    ensures
        after is Connected,
        after->port == greeting.opened->0,
        after->port_name@ == greeting.port_name@,
        after->version@ == version_of(version_line@),
        after->current_key == key_of(key_line@)->0,
        done.phase == Phase::Finished,
        last matches HandshakeStep::Finished(Ok(text)) && text@ == seq![key_of(key_line@)->0],
{
}


/// The message of a failed handshake names the step that failed and carries
/// the port's own description of the error, or the reply that was refused.
pub proof fn law_handshake_messages(error: String, line: Vec<u8>)
    ensures
        hello_failure(Outcome::Unexpected(line)) == "Invalid response: expected 'LO', got '"@
            + lossy_text(line@) + "'."@,
        hello_failure(Outcome::Expired) == "Timeout waiting for LO response."@,
        hello_failure(Outcome::ReadFailed(error)) == "Read error: "@ + error@ + "."@,
        hello_failure(Outcome::WriteFailed(error)) == "Failed to send HEL: "@ + error@ + "."@,
        hello_failure(Outcome::FlushFailed(error)) == "Failed to flush: "@ + error@ + "."@,
        version_failure(Outcome::WriteFailed(error)) == "Failed to send VER: "@ + error@ + "."@,
        version_failure(Outcome::FlushFailed(error)) == "Failed to flush: "@ + error@ + "."@,
        version_failure(Outcome::Unexpected(line)) == "Failed to get version response."@,
        version_failure(Outcome::Expired) == "Failed to get version response."@,
        version_failure(Outcome::ReadFailed(error)) == "Failed to get version response."@,
        key_failure(Outcome::WriteFailed(error)) == "Failed to send KEY: "@ + error@ + "."@,
        key_failure(Outcome::FlushFailed(error)) == "Failed to flush: "@ + error@ + "."@,
        key_failure(Outcome::Unexpected(line)) == "Failed to get keycode response."@,
        key_failure(Outcome::Expired) == "Failed to get keycode response."@,
        key_failure(Outcome::ReadFailed(error)) == "Failed to get keycode response."@,
        invalid_key_message() == "Invalid keycode in response."@,
{
}

/// A handshake that does not get `LO` back leaves the connection as it was,
/// lets go of the port and stops; one whose pedal answers `KEY` without a
/// usable key leaves no pedal connected.
pub proof fn law_handshake_failures<P>(
    handshake: Handshake<P>,
    state: ConnectionState<P>,
    outcome: Outcome,
    next: Handshake<P>,
    next_state: ConnectionState<P>,
    step: HandshakeStep,
)
    requires
        handshake.answers(state, outcome, next, next_state, step),
    ensures
        (handshake.phase == Phase::Greeting && !(outcome is Replied)) ==> {
            &&& next_state == state
            &&& next.opened is None
            &&& next.phase == Phase::Finished
            &&& step matches HandshakeStep::Finished(Err(_))
        },
        (handshake.phase == Phase::AskingKey && outcome is Replied && ({
            let line = outcome->Replied_0@;
            line.len() <= 3 || lossy_text(line.skip(3)).len() == 0 || lossy_text(line.skip(3))[0]
                == '\0'
        })) ==> {
            &&& next_state is Disconnected
            &&& step matches HandshakeStep::Finished(Err(_))
        },
{
}

} // verus!
