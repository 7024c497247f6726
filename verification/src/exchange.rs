//! One command and its reply, as a machine that decides and leaves the port
//! to its caller.
//!
//! The caller performs each [`PortAction`] on the port and hands back what
//! happened as a [`PortEvent`]; the machine answers with the next action, or
//! with the [`Outcome`] of the exchange. Waiting for the reply goes through a
//! [`ReplyWait`], which may also run on its own.

use vstd::prelude::*;
use crate::protocol::{
    extract_reply, has_prefix, lossy_text, reply_line, reply_text, same_bytes, starts_with,
};
use vstd::string::StringSliceAdditionalSpecFns;
use vstd::slice::slice_to_vec;

verus! {

/// How long to pause after a read that gave nothing, in milliseconds.
pub const IDLE_PAUSE_MILLIS: u64 = 10;

/// How the reply line is held against the expected text.
#[derive(Debug, Clone, Copy, PartialEq, Eq, Structural)]
pub enum Expect {
    /// The line must be exactly the expected text.
    Exactly,
    /// The line must begin with the expected text.
    StartsWith,
}

/// Something for the caller to do on the port.
#[derive(Debug)]
pub enum PortAction {
    /// Write all these bytes.
    Write(Vec<u8>),
    /// Flush what was written.
    Flush,
    /// Start the clock for a reply that may take up to `timeout_secs`, then
    /// read up to `chunk_len` bytes.
    Listen { timeout_secs: u64, chunk_len: usize },
    /// Read again, unless the clock started by `Listen` has run out.
    Read,
    /// Pause, then read again as for `Read`.
    SleepThenRead { millis: u64 },
}

/// What a read on the port gave.
#[derive(Debug)]
pub enum ReadEvent {
    /// The clock ran out before the read.
    Expired,
    /// Some bytes arrived.
    Data(Vec<u8>),
    /// The read returned no bytes.
    Nothing,
    /// The read timed out.
    TimedOut,
    /// The read failed; the port's description of the error.
    Failed(String),
}

/// What an action on the port gave.
#[derive(Debug)]
pub enum PortEvent {
    Written,
    WriteFailed(String),
    Flushed,
    FlushFailed(String),
    Read(ReadEvent),
}

/// How an exchange, or a wait for a reply, ended.
#[derive(Debug)]
pub enum Outcome {
    /// The reply line, which is what was expected.
    Replied(Vec<u8>),
    /// The reply line, which is not what was expected.
    Unexpected(Vec<u8>),
    /// No complete line came before the clock ran out.
    Expired,
    /// A read failed.
    ReadFailed(String),
    /// Writing the command failed.
    WriteFailed(String),
    /// Flushing the command failed.
    FlushFailed(String),
}

/// What the machine asks for next.
#[derive(Debug)]
pub enum Step {
    Act(PortAction),
    Done(Outcome),
}

/// Waiting for one reply line.
#[derive(Debug)]
pub struct ReplyWait {
    /// The text the reply is held against.
    pub expected: Vec<u8>,
    pub expect: Expect,
    pub timeout_secs: u64,
    /// How many bytes one read may take.
    pub chunk_len: usize,
    /// Everything read so far.
    pub received: Vec<u8>,
}

impl ReplyWait {
    /// Whether `line` is the reply that this wait expects.
    pub open spec fn accepts(&self, line: Seq<u8>) -> bool {
        match self.expect {
            Expect::Exactly => line == self.expected@,
            Expect::StartsWith => starts_with(line, self.expected@),
        }
    }

    /// `self` waits for the given reply, with nothing read yet.
    pub open spec fn waits_for(
        &self,
        expected: Seq<u8>,
        expect: Expect,
        timeout_secs: u64,
        chunk_len: usize,
    ) -> bool {
        &&& self.expected@ == expected
        &&& self.expect == expect
        &&& self.timeout_secs == timeout_secs
        &&& self.chunk_len == chunk_len
        &&& self.received@ == Seq::<u8>::empty()
    }

    /// `next` waits for the same reply as `self`.
    pub open spec fn same_request(&self, next: &Self) -> bool {
        &&& next.expected@ == self.expected@
        &&& next.expect == self.expect
        &&& next.timeout_secs == self.timeout_secs
        &&& next.chunk_len == self.chunk_len
    }

    /// How the wait answers a read: it keeps every byte that arrives and ends
    /// at the first complete line, which it holds against the expected text;
    /// after a read that gave nothing it pauses and reads again.
    pub open spec fn reads_to(&self, event: ReadEvent, next: Self, step: Step) -> bool {
        &&& self.same_request(&next)
        &&& match event {
            ReadEvent::Data(bytes) => {
                &&& next.received@ == self.received@ + bytes@
                &&& match reply_line(next.received@) {
                    Some(line) => if self.accepts(line) {
                        step matches Step::Done(Outcome::Replied(l)) && l@ == line
                    } else {
                        step matches Step::Done(Outcome::Unexpected(l)) && l@ == line
                    },
                    None => step == Step::Act(PortAction::Read),
                }
            },
            ReadEvent::Nothing => {
                &&& next.received@ == self.received@
                &&& step == Step::Act(PortAction::SleepThenRead { millis: IDLE_PAUSE_MILLIS })
            },
            ReadEvent::TimedOut => {
                &&& next.received@ == self.received@
                &&& step == Step::Act(PortAction::SleepThenRead { millis: IDLE_PAUSE_MILLIS })
            },
            ReadEvent::Expired => {
                &&& next.received@ == self.received@
                &&& step == Step::Done(Outcome::Expired)
            },
            ReadEvent::Failed(error) => {
                &&& next.received@ == self.received@
                &&& step == Step::Done(Outcome::ReadFailed(error))
            },
        }
    }

    /// A wait for the given reply.
    pub fn new(expected: Vec<u8>, expect: Expect, timeout_secs: u64, chunk_len: usize) -> (wait:
        Self)
        ensures
            wait.waits_for(expected@, expect, timeout_secs, chunk_len),
    {
        ReplyWait { expected, expect, timeout_secs, chunk_len, received: Vec::new() }
    }

    /// The action that starts the wait.
    pub fn first_action(&self) -> (action: PortAction)
        ensures
            action == (PortAction::Listen {
                timeout_secs: self.timeout_secs,
                chunk_len: self.chunk_len,
            }),
    {
        PortAction::Listen { timeout_secs: self.timeout_secs, chunk_len: self.chunk_len }
    }

    /// Takes what a read gave.
    pub fn on_read(&mut self, event: ReadEvent) -> (step: Step)
        ensures
            old(self).reads_to(event, *final(self), step),
    {
        match event {
            ReadEvent::Data(bytes) => {
                self.received.extend_from_slice(bytes.as_slice());
                assert(self.received@ =~= old(self).received@ + bytes@);
                match extract_reply(self.received.as_slice()) {
                    Some(line) => {
                        let accepted = match self.expect {
                            Expect::Exactly => same_bytes(line.as_slice(), self.expected.as_slice()),
                            Expect::StartsWith => has_prefix(
                                line.as_slice(),
                                self.expected.as_slice(),
                            ),
                        };
                        if accepted {
                            Step::Done(Outcome::Replied(line))
                        } else {
                            Step::Done(Outcome::Unexpected(line))
                        }
                    },
                    None => Step::Act(PortAction::Read),
                }
            },
            ReadEvent::Nothing => Step::Act(PortAction::SleepThenRead { millis: IDLE_PAUSE_MILLIS }),
            ReadEvent::TimedOut => Step::Act(
                PortAction::SleepThenRead { millis: IDLE_PAUSE_MILLIS },
            ),
            ReadEvent::Expired => Step::Done(Outcome::Expired),
            ReadEvent::Failed(error) => Step::Done(Outcome::ReadFailed(error)),
        }
    }
}

/// How many bytes one read takes while waiting for a reply by its prefix.
pub const RESPONSE_CHUNK_LEN: usize = 64;

impl ReplyWait {
    /// A wait of up to `timeout_secs` for a reply line that begins with `prefix`.
    pub fn for_prefix(prefix: &str, timeout_secs: u64) -> (wait: Self)
        ensures
            wait.waits_for(prefix.spec_bytes(), Expect::StartsWith, timeout_secs, RESPONSE_CHUNK_LEN),
    {
        ReplyWait::new(
            slice_to_vec(prefix.as_bytes()),
            Expect::StartsWith,
            timeout_secs,
            RESPONSE_CHUNK_LEN,
        )
    }
}

/// What a finished wait gave: the text of the reply when it was the one
/// expected, and nothing otherwise.
pub fn response_text(outcome: Outcome) -> (text: Option<String>)
    ensures
        match outcome {
            Outcome::Replied(line) => text matches Some(t) && t@ == lossy_text(line@),
            _ => text is None,
        },
{
    match outcome {
        Outcome::Replied(line) => Some(reply_text(line.as_slice())),
        _ => None,
    }
}

/// A wait for a reply that begins with a tag ends, at the first complete
/// line, with that line as the reply whenever the line begins with the tag,
/// whatever follows the tag and however long the line is; a line that does
/// not begin with the tag ends it as an unexpected reply.
pub proof fn law_tagged_reply_is_accepted(
    wait: ReplyWait,
    bytes: Vec<u8>,
    next: ReplyWait,
    step: Step,
    line: Seq<u8>,
)
    requires
        wait.expect == Expect::StartsWith,
        wait.reads_to(ReadEvent::Data(bytes), next, step),
        reply_line(wait.received@ + bytes@) == Some(line),
    ensures
        (wait.expected@.len() <= line.len() && line.take(wait.expected@.len() as int)
            == wait.expected@) ==> (step matches Step::Done(Outcome::Replied(l)) && l@ == line),
        !(wait.expected@.len() <= line.len() && line.take(wait.expected@.len() as int)
            == wait.expected@) ==> (step matches Step::Done(Outcome::Unexpected(l)) && l@
            == line),
{
}

/// A read that gives nothing, or times out, never ends a wait: the wait
/// keeps what it has, pauses and reads again. Only a read error or the clock
/// running out ends it without a line.
pub proof fn law_idle_reads_continue(wait: ReplyWait, event: ReadEvent, next: ReplyWait, step: Step)
    requires
        wait.reads_to(event, next, step),
    ensures
        (event is Nothing || event is TimedOut) ==> {
            &&& next.received@ == wait.received@
            &&& step matches Step::Act(PortAction::SleepThenRead { millis }) && millis == 10
        },
        event is Expired ==> step matches Step::Done(Outcome::Expired),
        event matches ReadEvent::Failed(e) ==> step == Step::Done(Outcome::ReadFailed(e)),
        event matches ReadEvent::Data(bytes) ==> next.received@ == wait.received@ + bytes@,
{
}

/// An exchange writes its command, then flushes it, then listens for the
/// reply with the wait's clock and chunk, and only then takes reads.
pub proof fn law_exchange_order(
    sending: Exchange,
    flushing: Exchange,
    first: Step,
    awaiting: Exchange,
    second: Step,
)
    requires
        sending.stage == Stage::Sending,
        sending.reacts_to(PortEvent::Written, flushing, first),
        flushing.reacts_to(PortEvent::Flushed, awaiting, second),
    ensures
        first == Step::Act(PortAction::Flush),
        second == Step::Act(
            PortAction::Listen {
                timeout_secs: sending.wait.timeout_secs,
                chunk_len: sending.wait.chunk_len,
            },
        ),
        awaiting.stage == Stage::Awaiting,
        awaiting.command == sending.command,
        awaiting.wait == sending.wait,
        !sending.expects(PortEvent::Read(ReadEvent::Nothing)),
        !flushing.expects(PortEvent::Read(ReadEvent::Nothing)),
        awaiting.expects(PortEvent::Read(ReadEvent::Nothing)),
{
}

/// A wait for an exact reply ends, at the first complete line, with that
/// line as the reply exactly when the line is the expected text, and as an
/// unexpected reply otherwise.
pub proof fn law_exact_reply_is_accepted(
    wait: ReplyWait,
    bytes: Vec<u8>,
    next: ReplyWait,
    step: Step,
    line: Seq<u8>,
)
    requires
        wait.expect == Expect::Exactly,
        wait.reads_to(ReadEvent::Data(bytes), next, step),
        reply_line(wait.received@ + bytes@) == Some(line),
    ensures
        line == wait.expected@ ==> (step matches Step::Done(Outcome::Replied(l)) && l@ == line),
        line != wait.expected@ ==> (step matches Step::Done(Outcome::Unexpected(l)) && l@
            == line),
{
}

/// Where an exchange stands.
#[derive(Debug, Clone, Copy, PartialEq, Eq, Structural)]
pub enum Stage {
    Sending,
    Flushing,
    Awaiting,
}

/// Sending one command and waiting for its reply.
#[derive(Debug)]
pub struct Exchange {
    pub command: Vec<u8>,
    pub stage: Stage,
    pub wait: ReplyWait,
}

impl Exchange {
    /// `self` is about to send `command` and then wait for the given reply.
    pub open spec fn sends(
        &self,
        command: Seq<u8>,
        expected: Seq<u8>,
        expect: Expect,
        timeout_secs: u64,
        chunk_len: usize,
    ) -> bool {
        &&& self.command@ == command
        &&& self.stage == Stage::Sending
        &&& self.wait.waits_for(expected, expect, timeout_secs, chunk_len)
    }

    /// The events that answer the action the exchange asked for last.
    pub open spec fn expects(&self, event: PortEvent) -> bool {
        match self.stage {
            Stage::Sending => event is Written || event is WriteFailed,
            Stage::Flushing => event is Flushed || event is FlushFailed,
            Stage::Awaiting => event is Read,
        }
    }

    /// How the exchange answers an event: it writes the command, flushes it,
    /// then waits for the reply; a failed write or flush ends it.
    pub open spec fn reacts_to(&self, event: PortEvent, next: Self, step: Step) -> bool {
        &&& next.command == self.command
        &&& match self.stage {
            Stage::Sending => match event {
                PortEvent::Written => {
                    &&& next.stage == Stage::Flushing
                    &&& next.wait == self.wait
                    &&& step == Step::Act(PortAction::Flush)
                },
                PortEvent::WriteFailed(error) => {
                    &&& next == *self
                    &&& step == Step::Done(Outcome::WriteFailed(error))
                },
                _ => false,
            },
            Stage::Flushing => match event {
                PortEvent::Flushed => {
                    &&& next.stage == Stage::Awaiting
                    &&& next.wait == self.wait
                    &&& step == Step::Act(
                        PortAction::Listen {
                            timeout_secs: self.wait.timeout_secs,
                            chunk_len: self.wait.chunk_len,
                        },
                    )
                },
                PortEvent::FlushFailed(error) => {
                    &&& next == *self
                    &&& step == Step::Done(Outcome::FlushFailed(error))
                },
                _ => false,
            },
            Stage::Awaiting => match event {
                PortEvent::Read(read) => {
                    &&& next.stage == Stage::Awaiting
                    &&& self.wait.reads_to(read, next.wait, step)
                },
                _ => false,
            },
        }
    }

    /// An exchange that sends `command` and waits for the given reply.
    pub fn new(
        command: Vec<u8>,
        expected: Vec<u8>,
        expect: Expect,
        timeout_secs: u64,
        chunk_len: usize,
    ) -> (exchange: Self)
        ensures
            exchange.sends(command@, expected@, expect, timeout_secs, chunk_len),
    {
        Exchange {
            command,
            stage: Stage::Sending,
            wait: ReplyWait::new(expected, expect, timeout_secs, chunk_len),
        }
    }

    /// The action that starts the exchange: writing the command.
    pub fn first_action(&self) -> (action: PortAction)
        ensures
            action matches PortAction::Write(bytes) && bytes@ == self.command@,
    {
        PortAction::Write(slice_to_vec(self.command.as_slice()))
    }

    /// Whether `event` answers the action the exchange asked for last.
    pub fn accepts_event(&self, event: &PortEvent) -> (accepted: bool)
        ensures
            accepted == self.expects(*event),
    {
        match self.stage {
            Stage::Sending => matches!(event, PortEvent::Written | PortEvent::WriteFailed(_)),
            Stage::Flushing => matches!(event, PortEvent::Flushed | PortEvent::FlushFailed(_)),
            Stage::Awaiting => matches!(event, PortEvent::Read(_)),
        }
    }

    /// Takes what the last action gave.
    pub fn on_event(&mut self, event: PortEvent) -> (step: Step)
        requires
            old(self).expects(event),
        ensures
            old(self).reacts_to(event, *final(self), step),
    {
        match event {
            PortEvent::Written => {
                self.stage = Stage::Flushing;
                Step::Act(PortAction::Flush)
            },
            PortEvent::WriteFailed(error) => Step::Done(Outcome::WriteFailed(error)),
            PortEvent::Flushed => {
                self.stage = Stage::Awaiting;
                Step::Act(
                    PortAction::Listen {
                        timeout_secs: self.wait.timeout_secs,
                        chunk_len: self.wait.chunk_len,
                    },
                )
            },
            PortEvent::FlushFailed(error) => Step::Done(Outcome::FlushFailed(error)),
            PortEvent::Read(read) => self.wait.on_read(read),
        }
    }
}

} // verus!
