//! The batch aggregator: a state machine that gathers records into a batch
//! and decides when the batch is flushed.
//!
//! The aggregator itself never waits. Whoever drives it awaits the next
//! record or the next tick of the flush interval, hands the event to
//! [`Aggregator::step`], and writes out what the returned [`Action`] holds.

use vstd::prelude::*;
use crate::record::LogObject;
use crate::sink::{batch_lines, flush_batch, lines_view};

verus! {

/// What can happen to the aggregator.
pub enum Event {
    /// A record arrived from the mailbox.
    Record(LogObject),
    /// The flush interval elapsed.
    Tick,
    /// Every sender is gone: no record will arrive any more.
    Closed,
}

/// What the driver has to do after an event.
pub enum Action {
    /// Nothing to write; go on waiting.
    Wait,
    /// Write these lines, then go on waiting.
    Flush(Vec<Option<String>>),
    /// Write these lines, then stop for good.
    FinalFlush(Vec<Option<String>>),
    /// Stop for good; nothing is left to write.
    Stop,
}

/// The aggregator as a mathematical value.
pub struct State {
    /// The records buffered since the last flush, oldest first.
    pub pending: Seq<LogObject>,
    /// The number of buffered records at which the batch is flushed.
    pub threshold: nat,
    /// Whether the mailbox was seen closed.
    pub terminated: bool,
}

impl State {
    /// An aggregator that has seen no event yet.
    pub open spec fn initial(threshold: nat) -> State {
        State { pending: Seq::empty(), threshold, terminated: false }
    }

    /// The buffer never reaches the threshold between two events, and is
    /// empty once the aggregator has stopped.
    pub open spec fn wf(self) -> bool {
        &&& self.pending.len() == 0 || self.pending.len() < self.threshold
        &&& self.terminated ==> self.pending.len() == 0
    }

    /// The batch that `event` causes to be flushed; empty where it causes no
    /// flush.
    pub open spec fn flushed(self, event: Event) -> Seq<LogObject> {
        if self.terminated {
            Seq::empty()
        } else {
            match event {
                Event::Record(log) => {
                    if self.pending.len() + 1 >= self.threshold {
                        self.pending.push(log)
                    } else {
                        Seq::empty()
                    }
                },
                Event::Tick => self.pending,
                Event::Closed => self.pending,
            }
        }
    }

    /// The aggregator after `event`.
    pub open spec fn next(self, event: Event) -> State {
        if self.terminated {
            self
        } else {
            match event {
                Event::Record(log) => {
                    if self.pending.len() + 1 >= self.threshold {
                        State { pending: Seq::empty(), ..self }
                    } else {
                        State { pending: self.pending.push(log), ..self }
                    }
                },
                Event::Tick => State { pending: Seq::empty(), ..self },
                Event::Closed => State { pending: Seq::empty(), terminated: true, ..self },
            }
        }
    }

    /// Whether `action` is the one that `event` calls for in this state.
    pub open spec fn calls_for(self, event: Event, action: Action) -> bool {
        let batch = self.flushed(event);
        let stopping = self.terminated || event is Closed;
        match action {
            Action::Wait => !stopping && batch.len() == 0,
            Action::Flush(lines) => {
                !stopping && batch.len() > 0 && lines_view(lines@) == batch_lines(batch)
            },
            Action::FinalFlush(lines) => {
                stopping && batch.len() > 0 && lines_view(lines@) == batch_lines(batch)
            },
            Action::Stop => stopping && batch.len() == 0,
        }
    }
}

/// The single consumer of the mailbox. It owns the current batch.
pub struct Aggregator {
    batch: Vec<LogObject>,
    batch_size: usize,
    closed: bool,
}

impl View for Aggregator {
    type V = State;

    closed spec fn view(&self) -> State {
        State {
            pending: self.batch@,
            threshold: self.batch_size as nat,
            terminated: self.closed,
        }
    }
}

impl Aggregator {
    /// An aggregator with an empty batch that flushes at `batch_size`
    /// records. A `batch_size` of 0 flushes every record at once, as 1 does.
    pub fn new(batch_size: usize) -> (aggregator: Self)
        ensures
            aggregator@ == State::initial(batch_size as nat),
            aggregator@.wf(),
    {
        Aggregator { batch: Vec::new(), batch_size, closed: false }
    }

    /// The number of buffered records at which the batch is flushed.
    pub fn batch_size(&self) -> (n: usize)
        ensures
            n == self@.threshold,
    {
        self.batch_size
    }

    /// The number of records buffered now.
    pub fn len(&self) -> (n: usize)
        ensures
            n == self@.pending.len(),
    {
        self.batch.len()
    }

    /// Whether the aggregator has stopped for good.
    pub fn is_terminated(&self) -> (stopped: bool)
        ensures
            stopped == self@.terminated,
    {
        self.closed
    }

    /// Takes one event and says what to do.
    ///
    /// A record joins the batch; when that fills the batch, the whole batch
    /// is flushed. A tick flushes whatever is buffered. Closing flushes what
    /// is buffered and stops the aggregator: every later event is answered
    /// with `Stop` and changes nothing. A flush is never empty, and the
    /// batch is empty after it.
    pub fn step(&mut self, event: Event) -> (action: Action)
        ensures
            final(self)@ == old(self)@.next(event),
            old(self)@.calls_for(event, action),
            old(self)@.wf() ==> final(self)@.wf(),
    {
        if self.closed {
            return Action::Stop;
        }
        match event {
            Event::Record(log) => {
                let fills = self.batch_size == 0 || self.batch.len() >= self.batch_size - 1;
                self.batch.push(log);
                if fills {
                    let lines = flush_batch(self.batch.as_slice());
                    self.batch.clear();
                    Action::Flush(lines)
                } else {
                    Action::Wait
                }
            },
            Event::Tick => {
                if self.batch.len() > 0 {
                    let lines = flush_batch(self.batch.as_slice());
                    self.batch.clear();
                    Action::Flush(lines)
                } else {
                    assert(self.batch@ =~= Seq::<LogObject>::empty());
                    Action::Wait
                }
            },
            Event::Closed => {
                if self.batch.len() > 0 {
                    let lines = flush_batch(self.batch.as_slice());
                    self.batch.clear();
                    self.closed = true;
                    Action::FinalFlush(lines)
                } else {
                    assert(self.batch@ =~= Seq::<LogObject>::empty());
                    self.closed = true;
                    Action::Stop
                }
            },
        }
    }
}

} // verus!
