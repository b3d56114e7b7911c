//! The logger handle: the front door through which records are submitted.

use vstd::prelude::*;
use vstd::string::StringExecFns;
use crate::aggregator::{Aggregator, State};
use crate::clock::get_current_time;
use crate::level::LogLevels;
use crate::mailbox::{
    capacity_of, mailbox_capacity, open_mailbox, receiver_mailbox, sender_mailbox, share,
    try_enqueue, Rejection, MAX_BUFFER_SIZE,
};
use crate::options::{LoggerOptions, BATCH_DURATION_MS, BATCH_SIZE, DEFAULT_BUFFER_SIZE};
use crate::payload::describe;
use crate::record::LogObject;

verus! {

/// Why a submission left no record in the mailbox. None of these is fatal:
/// the one record is lost and the message goes to the diagnostic channel.
#[derive(Debug)]
pub enum SubmitError {
    /// The value could not be turned into a structured payload; holds what
    /// the conversion said.
    SerializationFailure(String),
    /// The mailbox was full.
    MailboxFull,
    /// The aggregator is gone.
    MailboxClosed,
}

impl SubmitError {
    /// The diagnostic for the error.
    pub open spec fn spec_message(self) -> Seq<char> {
        match self {
            SubmitError::SerializationFailure(reason) => "Failed to serialize "@ + reason@,
            SubmitError::MailboxFull => "CHANNEL IS FULL"@,
            SubmitError::MailboxClosed => "CHANNEL CLOSED"@,
        }
    }

    /// The diagnostic to emit for the error.
    pub fn message(&self) -> (text: String)
        ensures
            text@ == self.spec_message(),
    {
        match self {
            SubmitError::SerializationFailure(reason) => {
                String::from_str("Failed to serialize ").concat(reason.as_str())
            },
            SubmitError::MailboxFull => String::from_str("CHANNEL IS FULL"),
            SubmitError::MailboxClosed => String::from_str("CHANNEL CLOSED"),
        }
    }
}

/// The outcome of a submission whose record was offered to the mailbox,
/// given the mailbox's answer: success where the record was taken, else the
/// error that names why it was dropped.
pub fn submission_outcome(answer: Result<(), Rejection>) -> (outcome: Result<(), SubmitError>)
    ensures
        outcome == match answer {
            Ok(_) => Ok::<(), SubmitError>(()),
            Err(Rejection::Full) => Err::<(), SubmitError>(SubmitError::MailboxFull),
            Err(Rejection::Closed) => Err::<(), SubmitError>(SubmitError::MailboxClosed),
        },
{
    match answer {
        Ok(()) => Ok(()),
        Err(Rejection::Full) => Err(SubmitError::MailboxFull),
        Err(Rejection::Closed) => Err(SubmitError::MailboxClosed),
    }
}

/// The record of a submission, given what converting the caller's value
/// gave: the record with exactly this level, payload and timestamp, or
/// `SerializationFailure` where the conversion failed.
pub fn prepare(
    payload: Result<serde_json::Value, serde_json::Error>,
    log_level: LogLevels,
    timestamp: String,
) -> (prepared: Result<LogObject, SubmitError>)
    ensures
        match payload {
            Ok(value) => prepared == Ok::<LogObject, SubmitError>(
                LogObject { log_level, data: value, timestamp },
            ),
            Err(_) => prepared matches Err(SubmitError::SerializationFailure(_)),
        },
{
    match payload {
        Ok(value) => Ok(LogObject::new(log_level, value, timestamp)),
        Err(e) => Err(SubmitError::SerializationFailure(describe(&e))),
    }
}

/// What the one background task of a logger needs: the receiving end of
/// the mailbox, the aggregator in its first state, and the flush interval.
pub struct Worker {
    /// The receiving end of the mailbox.
    pub receiver: tokio::sync::mpsc::Receiver<LogObject>,
    /// The aggregator the task feeds.
    pub aggregator: Aggregator,
    /// The flush interval in milliseconds.
    pub interval_ms: u64,
}

/// The handle records are submitted through. It owns the sending end of the
/// mailbox.
pub struct Logger {
    log_sender: tokio::sync::mpsc::Sender<LogObject>,
}

impl Clone for Logger {
    /// One more handle to the same mailbox.
    fn clone(&self) -> (other: Self)
        ensures
            other.spec_capacity() == self.spec_capacity(),
            other.spec_mailbox() == self.spec_mailbox(),
    {
        Logger { log_sender: share(&self.log_sender) }
    }
}

/// The mailbox capacity that `options` ask for.
pub open spec fn capacity_for(options: Option<LoggerOptions>) -> usize {
    match options {
        Some(o) => o.spec_buffer_size(),
        None => DEFAULT_BUFFER_SIZE,
    }
}

/// The batch size that `options` ask for.
pub open spec fn batch_size_for(options: Option<LoggerOptions>) -> usize {
    match options {
        Some(o) => o.spec_batch_size(),
        None => BATCH_SIZE,
    }
}

/// The flush interval, in milliseconds, that `options` ask for.
pub open spec fn interval_for(options: Option<LoggerOptions>) -> u64 {
    match options {
        Some(o) => o.spec_batch_duration_ms(),
        None => BATCH_DURATION_MS,
    }
}

impl Logger {
    /// The capacity of the mailbox behind the handle.
    pub closed spec fn spec_capacity(&self) -> nat {
        mailbox_capacity(self.log_sender)
    }

    /// The mailbox the handle feeds.
    pub closed spec fn spec_mailbox(&self) -> nat {
        sender_mailbox(self.log_sender)
    }

    /// Opens the mailbox with the capacity the options ask for, and gives
    /// the handle together with what the background task is to run on: an
    /// aggregator with an empty batch and the configured thresholds.
    ///
    /// The capacity must be at least 1 and at most `MAX_BUFFER_SIZE`.
    pub fn new(options: Option<LoggerOptions>) -> (made: (Logger, Worker))
        requires
            0 < capacity_for(options) <= MAX_BUFFER_SIZE,
        ensures
            made.0.spec_capacity() == capacity_for(options),
            made.0.spec_mailbox() == receiver_mailbox(made.1.receiver),
            made.1.aggregator@ == State::initial(batch_size_for(options) as nat),
            made.1.interval_ms == interval_for(options),
    {
        let options = match options {
            Some(o) => o,
            None => LoggerOptions::default(),
        };
        let (log_sender, receiver) = open_mailbox(options.buffer_size());
        let worker = Worker {
            receiver,
            aggregator: Aggregator::new(options.batch_size()),
            interval_ms: options.batch_duration_ms(),
        };
        (Logger { log_sender }, worker)
    }

    /// The capacity the mailbox was opened with.
    pub fn capacity(&self) -> (n: usize)
        ensures
            n == self.spec_capacity(),
    {
        capacity_of(&self.log_sender)
    }

    /// Submits one event without waiting. `payload` is the outcome of
    /// converting the caller's value into a structured payload.
    ///
    /// A failed conversion is answered with `SerializationFailure` and
    /// nothing is offered to the mailbox. Otherwise the record that
    /// `prepare` gives for the current time is offered, and the answer is
    /// the mailbox's: `Ok`, `MailboxFull` or `MailboxClosed`.
    pub fn log(
        &self,
        payload: Result<serde_json::Value, serde_json::Error>,
        log_level: LogLevels,
    ) -> (outcome: Result<(), SubmitError>)
        ensures
            payload is Err ==> outcome matches Err(SubmitError::SerializationFailure(_)),
            payload is Ok ==> outcome is Ok || outcome == Err::<(), SubmitError>(
                SubmitError::MailboxFull,
            ) || outcome == Err::<(), SubmitError>(SubmitError::MailboxClosed),
    {
        match prepare(payload, log_level, get_current_time()) {
            Ok(x) => submission_outcome(try_enqueue(&self.log_sender, x)),
            Err(error) => Err(error),
        }
    }

    /// Submits an event at level `INFO`.
    pub fn info(&self, payload: Result<serde_json::Value, serde_json::Error>) -> (outcome: Result<
        (),
        SubmitError,
    >)
        ensures
            payload is Err ==> outcome matches Err(SubmitError::SerializationFailure(_)),
            payload is Ok ==> outcome is Ok || outcome == Err::<(), SubmitError>(
                SubmitError::MailboxFull,
            ) || outcome == Err::<(), SubmitError>(SubmitError::MailboxClosed),
    {
        self.log(payload, LogLevels::Info)
    }

    /// Submits an event at level `ERROR`.
    pub fn error(&self, payload: Result<serde_json::Value, serde_json::Error>) -> (outcome: Result<
        (),
        SubmitError,
    >)
        ensures
            payload is Err ==> outcome matches Err(SubmitError::SerializationFailure(_)),
            payload is Ok ==> outcome is Ok || outcome == Err::<(), SubmitError>(
                SubmitError::MailboxFull,
            ) || outcome == Err::<(), SubmitError>(SubmitError::MailboxClosed),
    {
        self.log(payload, LogLevels::Error)
    }

    /// Submits an event at level `WARN`.
    pub fn warn(&self, payload: Result<serde_json::Value, serde_json::Error>) -> (outcome: Result<
        (),
        SubmitError,
    >)
        ensures
            payload is Err ==> outcome matches Err(SubmitError::SerializationFailure(_)),
            payload is Ok ==> outcome is Ok || outcome == Err::<(), SubmitError>(
                SubmitError::MailboxFull,
            ) || outcome == Err::<(), SubmitError>(SubmitError::MailboxClosed),
    {
        self.log(payload, LogLevels::Warn)
    }

    /// Submits an event at level `DEBUG`.
    pub fn debug(&self, payload: Result<serde_json::Value, serde_json::Error>) -> (outcome: Result<
        (),
        SubmitError,
    >)
        ensures
            payload is Err ==> outcome matches Err(SubmitError::SerializationFailure(_)),
            payload is Ok ==> outcome is Ok || outcome == Err::<(), SubmitError>(
                SubmitError::MailboxFull,
            ) || outcome == Err::<(), SubmitError>(SubmitError::MailboxClosed),
    {
        self.log(payload, LogLevels::Debug)
    }
}

} // verus!
