//! Saving a new key to the connected pedal: send `KEY<key>` and wait for
//! `ACK`.

use vstd::prelude::*;
use crate::connection::ConnectionState;
use crate::exchange::{Exchange, Expect, Outcome};
use crate::handshake::sentence;
use crate::protocol::{
    ack_reply, ack_reply_text, encode_set_key, join3, lossy_text, reply_text, set_key_command,
};

verus! {

/// How long the pedal has to acknowledge a new key, in seconds.
pub const SAVE_TIMEOUT_SECS: u64 = 2;

/// How many bytes one read takes while waiting for `ACK`.
pub const SAVE_CHUNK_LEN: usize = 10;

/// What saving a key asks for next.
#[derive(Debug)]
pub enum KeyUpdateStep {
    /// Run this exchange on the port and hand back its outcome.
    Run(Exchange),
    /// Nothing to send: saving failed, for this reason.
    Refused(String),
}

/// Why saving a key failed, for each way the exchange can end other than `ACK`.
pub open spec fn save_failure(outcome: Outcome) -> Seq<char> {
    match outcome {
        Outcome::Unexpected(line) => "Device responded with '"@ + lossy_text(line@)
            + "' instead of ACK."@,
        Outcome::Expired => "Timeout waiting for response from device."@,
        Outcome::ReadFailed(error) => sentence("Read error: "@, error@),
        Outcome::WriteFailed(error) => sentence("Failed to send key: "@, error@),
        Outcome::FlushFailed(error) => sentence("Failed to flush: "@, error@),
        Outcome::Replied(_) => Seq::empty(),
    }
}

/// Saving `new_key` to the connected pedal.
#[derive(Debug, Clone, Copy)]
pub struct KeyUpdate {
    pub new_key: char,
}

impl KeyUpdate {
    /// Saving `new_key`.
    pub fn new(new_key: char) -> (update: Self)
        ensures
            update.new_key == new_key,
    {
        KeyUpdate { new_key }
    }

    /// The first step: with a pedal connected, the exchange that sends the
    /// key; without one, a refusal.
    pub fn begin<P>(&self, state: &ConnectionState<P>) -> (step: KeyUpdateStep)
        ensures
            match *state {
                ConnectionState::Connected { .. } => step matches KeyUpdateStep::Run(exchange)
                    && exchange.sends(
                    set_key_command(self.new_key),
                    ack_reply(),
                    Expect::Exactly,
                    SAVE_TIMEOUT_SECS,
                    SAVE_CHUNK_LEN,
                ),
                ConnectionState::Disconnected => step matches KeyUpdateStep::Refused(message)
                    && message@ == "Not connected to a device."@,
            },
    {
        if state.is_connected() {
            KeyUpdateStep::Run(
                Exchange::new(
                    encode_set_key(self.new_key),
                    ack_reply_text(),
                    Expect::Exactly,
                    SAVE_TIMEOUT_SECS,
                    SAVE_CHUNK_LEN,
                ),
            )
        } else {
            KeyUpdateStep::Refused(String::from_str("Not connected to a device."))
        }
    }

    /// Takes how the exchange ended: on `ACK` the pedal's key is now the new
    /// one; otherwise nothing changes and the error says why.
    pub fn on_outcome<P>(&self, state: &mut ConnectionState<P>, outcome: Outcome) -> (result:
        Result<(), String>)
        ensures
            match outcome {
                Outcome::Replied(_) => {
                    &&& result is Ok
                    &&& match *old(state) {
                        ConnectionState::Connected { port, port_name, version, .. } => *final(state)
                            == (ConnectionState::Connected {
                            port,
                            port_name,
                            current_key: self.new_key,
                            version,
                        }),
                        ConnectionState::Disconnected => *final(state) == *old(state),
                    }
                },
                _ => {
                    &&& *final(state) == *old(state)
                    &&& result matches Err(message) && message@ == save_failure(outcome)
                },
            },
    {
        match outcome {
            Outcome::Replied(_) => {
                state.set_current_key(self.new_key);
                Ok(())
            },
            Outcome::Unexpected(line) => {
                let text = reply_text(line.as_slice());
                Err(join3("Device responded with '", text.as_str(), "' instead of ACK."))
            },
            Outcome::Expired => Err(String::from_str("Timeout waiting for response from device.")),
            Outcome::ReadFailed(error) => Err(join3("Read error: ", error.as_str(), ".")),
            Outcome::WriteFailed(error) => Err(join3("Failed to send key: ", error.as_str(), ".")),
            Outcome::FlushFailed(error) => Err(join3("Failed to flush: ", error.as_str(), ".")),
        }
    }
}


/// The message of a failed save says what went wrong, carrying the port's
/// own description of the error or the reply that was refused.
pub proof fn law_save_messages(error: String, line: Vec<u8>)
    ensures
        save_failure(Outcome::Unexpected(line)) == "Device responded with '"@ + lossy_text(line@)
            + "' instead of ACK."@,
        save_failure(Outcome::Expired) == "Timeout waiting for response from device."@,
        save_failure(Outcome::ReadFailed(error)) == "Read error: "@ + error@ + "."@,
        save_failure(Outcome::WriteFailed(error)) == "Failed to send key: "@ + error@ + "."@,
        save_failure(Outcome::FlushFailed(error)) == "Failed to flush: "@ + error@ + "."@,
{
}

} // verus!
