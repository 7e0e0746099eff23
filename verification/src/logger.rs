//! The logger: the handle that callers hold, the channel behind it, and the
//! writer that empties the channel into the file.
//!
//! `LogFast` decides; it never waits and never touches the file. Each
//! operation says what the thread that called it has to do next: wait for
//! room, append a record, wait for messages, or stop.

use crate::channel::{Channel, ChannelState, RecvOutcome, SendOutcome};
use crate::clock::local_timestamp;
use crate::message::{
    detached_message, detached_text, disconnected_message, disconnected_text, format_line,
    format_record, invalid_size_message, invalid_size_text, line_text, record_text,
    write_error_message, write_error_text,
};
use vstd::prelude::*;

verus! {

/// Where the writer stands.
#[derive(Clone, Copy, Debug, PartialEq, Eq, Structural)]
pub enum WorkerState {
    /// Taking messages from the channel and appending them.
    Running,
    /// The channel was closed and drained: every message was handed over
    /// for writing, and the writer has signalled that it is done.
    Exited,
    /// A write failed. Nothing more is taken from the channel.
    Failed,
}

/// What became of a call to `log`, as contracts see it.
pub enum LogResult {
    Accepted,
    Blocked(Seq<char>),
    Fatal(Seq<char>),
}

/// What the writer is to do next, as contracts see it.
pub enum WorkerStep {
    Write(Seq<char>),
    Wait,
    Finish,
    Halted,
}

/// A logger as contracts see it.
pub struct LoggerState {
    /// The path of the file, kept for diagnostics.
    pub filename: Seq<char>,
    pub channel: ChannelState,
    pub worker: WorkerState,
    /// Every line the channel has accepted, in the order of acceptance.
    pub accepted: Seq<Seq<char>>,
    /// Every line handed to the writer for appending, in that order.
    pub written: Seq<Seq<char>>,
}

impl LoggerState {
    /// A logger that has just been made: nothing logged, the handle open,
    /// the writer running.
    pub open spec fn fresh(filename: Seq<char>, capacity: nat) -> Self {
        LoggerState {
            filename,
            channel: ChannelState::fresh(capacity),
            worker: WorkerState::Running,
            accepted: Seq::empty(),
            written: Seq::empty(),
        }
    }

    /// The handle still holds its sending side.
    pub open spec fn is_open(self) -> bool {
        self.channel.sender_open
    }

    /// Both parties have reached the end: the handle has let go of its
    /// sending side and waits, and the writer has exited.
    pub open spec fn released(self) -> bool {
        !self.is_open() && self.worker == WorkerState::Exited
    }

    /// What always holds of a logger.
    pub open spec fn wf(self) -> bool {
        &&& self.channel.wf()
        &&& self.accepted == self.written + self.channel.pending
        &&& self.channel.receiver_open == (self.worker == WorkerState::Running)
        &&& self.worker == WorkerState::Exited ==> self.channel.is_closed()
    }

    /// The answer to an offer of `line`.
    pub open spec fn offer_result(self, line: Seq<char>) -> LogResult {
        if !self.is_open() {
            LogResult::Fatal(detached_text(self.filename))
        } else if !self.channel.receiver_open {
            LogResult::Fatal(disconnected_text(self.filename))
        } else if self.channel.is_full() {
            LogResult::Blocked(line)
        } else {
            LogResult::Accepted
        }
    }

    /// The logger after an offer of `line`: the line is queued and recorded
    /// as accepted if the answer is `Accepted`, and nothing changes otherwise.
    pub open spec fn after_offer(self, line: Seq<char>) -> Self {
        if self.offer_result(line) is Accepted {
            LoggerState {
                channel: self.channel.after_send(line),
                accepted: self.accepted.push(line),
                ..self
            }
        } else {
            self
        }
    }

    /// What the writer is told when it asks for work.
    pub open spec fn poll_result(self) -> WorkerStep {
        match self.worker {
            WorkerState::Exited => WorkerStep::Finish,
            WorkerState::Failed => WorkerStep::Halted,
            WorkerState::Running => {
                if !self.channel.is_empty() {
                    WorkerStep::Write(record_text(self.channel.pending.first()))
                } else if self.channel.sender_open {
                    WorkerStep::Wait
                } else {
                    WorkerStep::Finish
                }
            },
        }
    }

    /// The logger after the writer asked for work: the oldest pending line,
    /// if any, has moved from the channel to the written lines; on a closed
    /// and drained channel the writer exits.
    pub open spec fn after_poll(self) -> Self {
        if self.worker != WorkerState::Running {
            self
        } else if !self.channel.is_empty() {
            LoggerState {
                channel: self.channel.after_receive(),
                written: self.written.push(self.channel.pending.first()),
                ..self
            }
        } else if self.channel.sender_open {
            self
        } else {
            LoggerState {
                channel: self.channel.after_hang_up(),
                worker: WorkerState::Exited,
                ..self
            }
        }
    }

    /// The logger after the handle let go of its sending side.
    pub open spec fn after_close(self) -> Self {
        LoggerState { channel: self.channel.after_close(), ..self }
    }

    /// The logger after a write failed: a running writer stops for good.
    pub open spec fn after_write_failure(self) -> Self {
        if self.worker == WorkerState::Running {
            LoggerState {
                channel: self.channel.after_hang_up(),
                worker: WorkerState::Failed,
                ..self
            }
        } else {
            self
        }
    }
}

/// What became of a call to `log`.
pub enum LogOutcome {
    /// The line is in the channel and will be written.
    Accepted,
    /// The channel is full. The line comes back, stamped as it is: the
    /// caller waits until the writer has taken a message out and offers the
    /// line again.
    Blocked(String),
    /// The logger cannot take messages any more. The diagnostic names the
    /// file; the process is to stop with it.
    Fatal(String),
}

impl View for LogOutcome {
    type V = LogResult;

    open spec fn view(&self) -> LogResult {
        match self {
            LogOutcome::Accepted => LogResult::Accepted,
            LogOutcome::Blocked(line) => LogResult::Blocked(line@),
            LogOutcome::Fatal(text) => LogResult::Fatal(text@),
        }
    }
}

/// What the writer is to do next.
pub enum WorkerAction {
    /// Append this record to the file, then ask again.
    Write(String),
    /// Nothing is pending: wait until a message was accepted or the handle
    /// was closed, then ask again.
    Wait,
    /// The channel is closed and drained: signal completion and stop.
    Finish,
    /// A write has failed before: stop.
    Halted,
}

impl View for WorkerAction {
    type V = WorkerStep;

    open spec fn view(&self) -> WorkerStep {
        match self {
            WorkerAction::Write(record) => WorkerStep::Write(record@),
            WorkerAction::Wait => WorkerStep::Wait,
            WorkerAction::Finish => WorkerStep::Finish,
            WorkerAction::Halted => WorkerStep::Halted,
        }
    }
}

/// Holds the logger's housekeeping.
pub struct LogFast {
    /// The path of the file that the writer appends to.
    pub filename: String,
    channel: Channel,
    worker: WorkerState,
    accepted: Ghost<Seq<Seq<char>>>,
    written: Ghost<Seq<Seq<char>>>,
}

impl View for LogFast {
    type V = LoggerState;

    closed spec fn view(&self) -> LoggerState {
        LoggerState {
            filename: self.filename@,
            channel: self.channel@,
            worker: self.worker,
            accepted: self.accepted@,
            written: self.written@,
        }
    }
}

impl LogFast {
    /// Makes a logger for the file at `filename` whose channel holds up to
    /// `buffer_size` messages. A buffer size of zero is refused.
    pub fn new(filename: &str, buffer_size: usize) -> (made: Result<LogFast, String>)
        ensures
            buffer_size == 0 <==> made is Err,
            made matches Err(text) ==> text@ == invalid_size_text(),
            made matches Ok(logger) ==> {
                &&& logger@ == LoggerState::fresh(filename@, buffer_size as nat)
                &&& logger@.wf()
            },
    {
        match Channel::new(buffer_size) {
            None => Err(invalid_size_message()),
            Some(channel) => {
                let logger = LogFast {
                    filename: filename.to_string(),
                    channel,
                    worker: WorkerState::Running,
                    accepted: Ghost(Seq::empty()),
                    written: Ghost(Seq::empty()),
                };
                assert(logger@.accepted =~= logger@.written + logger@.channel.pending);
                Ok(logger)
            },
        }
    }

    /// Offers a finished line to the channel. This is `log` without the
    /// clock: a caller that was told to wait offers its line again with it.
    pub fn offer(&mut self, line: String) -> (outcome: LogOutcome)
        requires
            old(self)@.wf(),
        ensures
            outcome@ == old(self)@.offer_result(line@),
            final(self)@ == old(self)@.after_offer(line@),
            final(self)@.wf(),
    {
        if !self.channel.sender_open() {
            return LogOutcome::Fatal(detached_message(self.filename.as_str()));
        }
        let ghost text = line@;
        match self.channel.send(line) {
            SendOutcome::Sent => {
                proof {
                    self.accepted@ = self.accepted@.push(text);
                    assert(self@.accepted =~= self@.written + self@.channel.pending);
                }
                LogOutcome::Accepted
            },
            SendOutcome::Full(back) => LogOutcome::Blocked(back),
            SendOutcome::Disconnected(_) => {
                LogOutcome::Fatal(disconnected_message(self.filename.as_str()))
            },
        }
    }

    /// Stamps `msg` with the local time and offers the line to the channel.
    ///
    /// A handle that was closed reads no clock and queues nothing.
    pub fn log(&mut self, msg: &str) -> (outcome: LogOutcome)
        requires
            old(self)@.wf(),
        ensures
            final(self)@.wf(),
            exists|stamp: Seq<char>|
                {
                    &&& outcome@ == old(self)@.offer_result(#[trigger] line_text(stamp, msg@))
                    &&& final(self)@ == old(self)@.after_offer(line_text(stamp, msg@))
                },
    {
        if !self.channel.sender_open() {
            let text = detached_message(self.filename.as_str());
            assert(old(self)@.offer_result(line_text(Seq::empty(), msg@)) == LogResult::Fatal(
                text@,
            ));
            return LogOutcome::Fatal(text);
        }
        let stamp = local_timestamp();
        let line = format_line(stamp.as_str(), msg);
        assert(line@ == line_text(stamp@, msg@));
        self.offer(line)
    }

    /// Tells the writer what to do next.
    pub fn poll(&mut self) -> (action: WorkerAction)
        requires
            old(self)@.wf(),
        ensures
            action@ == old(self)@.poll_result(),
            final(self)@ == old(self)@.after_poll(),
            final(self)@.wf(),
    {
        match self.worker {
            WorkerState::Exited => WorkerAction::Finish,
            WorkerState::Failed => WorkerAction::Halted,
            WorkerState::Running => {
                match self.channel.receive() {
                    RecvOutcome::Message(line) => {
                        proof {
                            self.written@ = self.written@.push(line@);
                            assert(self@.accepted =~= self@.written + self@.channel.pending);
                        }
                        WorkerAction::Write(format_record(line.as_str()))
                    },
                    RecvOutcome::Empty => WorkerAction::Wait,
                    RecvOutcome::Closed => {
                        self.channel.hang_up();
                        self.worker = WorkerState::Exited;
                        WorkerAction::Finish
                    },
                }
            },
        }
    }

    /// Records that appending a record failed for the reason `cause`, and
    /// gives the diagnostic to stop the process with. A running writer takes
    /// no more messages afterwards.
    pub fn write_failed(&mut self, cause: &str) -> (text: String)
        requires
            old(self)@.wf(),
        ensures
            text@ == write_error_text(old(self)@.filename, cause@),
            final(self)@ == old(self)@.after_write_failure(),
            final(self)@.wf(),
    {
        match self.worker {
            WorkerState::Running => {
                self.channel.hang_up();
                self.worker = WorkerState::Failed;
            },
            _ => {},
        }
        write_error_message(self.filename.as_str(), cause)
    }

    /// Lets go of the sending side: the first half of closing the handle.
    /// No message is accepted afterwards; what is pending is still written.
    /// The handle is closed for good once `released` holds.
    pub fn close(&mut self)
        requires
            old(self)@.wf(),
        ensures
            final(self)@ == old(self)@.after_close(),
            final(self)@.wf(),
    {
        self.channel.close();
    }

    /// Whether the handle has closed and the writer has exited, so that
    /// neither has to wait for the other any longer.
    pub fn released(&self) -> (done: bool)
        ensures
            done == self@.released(),
    {
        !self.channel.sender_open() && self.worker == WorkerState::Exited
    }

    /// Whether the handle still holds its sending side.
    pub fn is_open(&self) -> (open: bool)
        ensures
            open == self@.is_open(),
    {
        self.channel.sender_open()
    }

    /// Where the writer stands.
    pub fn worker(&self) -> (state: WorkerState)
        ensures
            state == self@.worker,
    {
        self.worker
    }

    /// The largest number of lines that may be pending.
    pub fn capacity(&self) -> (n: usize)
        ensures
            n == self@.channel.capacity,
    {
        self.channel.capacity()
    }

    /// The number of lines accepted and not yet handed to the writer.
    pub fn pending(&self) -> (n: usize)
        ensures
            n == self@.channel.pending.len(),
    {
        self.channel.len()
    }

    /// Whether the next offer would have to wait for the writer.
    pub fn is_full(&self) -> (full: bool)
        ensures
            full == self@.channel.is_full(),
    {
        self.channel.is_full()
    }
}

} // verus!
