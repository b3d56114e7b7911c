//! What holds of every run of the aggregator: which batches are flushed,
//! how large they are, and that no record is lost, repeated or reordered.

use vstd::prelude::*;
use crate::aggregator::{Event, State};
use crate::record::LogObject;

verus! {

/// The aggregator after a sequence of events, handled oldest first.
pub open spec fn run(state: State, events: Seq<Event>) -> State
    decreases events.len(),
{
    if events.len() == 0 {
        state
    } else {
        run(state, events.drop_last()).next(events.last())
    }
}

/// The batches flushed while a sequence of events is handled, in the order
/// of the flushes.
pub open spec fn flushes(state: State, events: Seq<Event>) -> Seq<Seq<LogObject>>
    decreases events.len(),
{
    if events.len() == 0 {
        Seq::empty()
    } else {
        let before = flushes(state, events.drop_last());
        let batch = run(state, events.drop_last()).flushed(events.last());
        if batch.len() > 0 {
            before.push(batch)
        } else {
            before
        }
    }
}

/// The events of records arriving one after the other.
pub open spec fn arrivals(records: Seq<LogObject>) -> Seq<Event> {
    Seq::new(records.len(), |i: int| Event::Record(records[i]))
}

/// The records that arrive in a sequence of events, in their order.
pub open spec fn records_of(events: Seq<Event>) -> Seq<LogObject>
    decreases events.len(),
{
    if events.len() == 0 {
        Seq::empty()
    } else {
        match events.last() {
            Event::Record(log) => records_of(events.drop_last()).push(log),
            _ => records_of(events.drop_last()),
        }
    }
}

/// The records of several batches, one batch after the other.
pub open spec fn concat(batches: Seq<Seq<LogObject>>) -> Seq<LogObject>
    decreases batches.len(),
{
    if batches.len() == 0 {
        Seq::empty()
    } else {
        concat(batches.drop_last()) + batches.last()
    }
}

/// Whether the mailbox stays open throughout a sequence of events.
pub open spec fn never_closed(events: Seq<Event>) -> bool {
    forall|i: int| 0 <= i < events.len() ==> !(#[trigger] events[i] is Closed)
}

/// The largest batch an aggregator with this threshold flushes.
pub open spec fn largest_batch(threshold: nat) -> nat {
    if threshold == 0 {
        1
    } else {
        threshold
    }
}

/// A well-formed aggregator stays well-formed, and keeps its threshold,
/// whatever events it handles.
pub proof fn law_run_keeps_well_formed(state: State, events: Seq<Event>)
    requires
        state.wf(),
    ensures
        run(state, events).wf(),
        run(state, events).threshold == state.threshold,
    decreases events.len(),
{
    if events.len() > 0 {
        law_run_keeps_well_formed(state, events.drop_last());
    }
}

/// No flush is empty, and no flush holds more records than the batch size
/// (one record where the batch size is 0).
pub proof fn law_flush_sizes(state: State, events: Seq<Event>)
    requires
        state.wf(),
    ensures
        forall|i: int|
            0 <= i < flushes(state, events).len() ==> 1 <= (#[trigger] flushes(
                state,
                events,
            )[i]).len() <= largest_batch(state.threshold),
    decreases events.len(),
{
    if events.len() > 0 {
        let earlier = events.drop_last();
        law_flush_sizes(state, earlier);
        law_run_keeps_well_formed(state, earlier);
        let batch = run(state, earlier).flushed(events.last());
        assert forall|i: int| 0 <= i < flushes(state, events).len() implies 1 <= (
        #[trigger] flushes(state, events)[i]).len() <= largest_batch(state.threshold) by {
            if i < flushes(state, earlier).len() {
                assert(flushes(state, events)[i] == flushes(state, earlier)[i]);
            } else {
                assert(flushes(state, events)[i] == batch);
            }
        }
    }
}

/// While the mailbox is open, the flushed batches followed by what is still
/// buffered are exactly the records that were buffered or arrived, in
/// their order: none lost, none twice, none out of place.
pub proof fn law_first_in_first_out(state: State, events: Seq<Event>)
    requires
        !state.terminated,
        never_closed(events),
    ensures
        !run(state, events).terminated,
        concat(flushes(state, events)) + run(state, events).pending == state.pending + records_of(
            events,
        ),
    decreases events.len(),
{
    if events.len() == 0 {
        assert(concat(flushes(state, events)) + run(state, events).pending =~= state.pending
            + records_of(events));
    } else {
        let earlier = events.drop_last();
        assert(never_closed(earlier)) by {
            assert forall|i: int| 0 <= i < earlier.len() implies !(#[trigger] earlier[i]
                is Closed) by {
                assert(earlier[i] == events[i]);
            }
        }
        law_first_in_first_out(state, earlier);
        let before = run(state, earlier);
        let batch = before.flushed(events.last());
        assert(!(events.last() is Closed)) by {
            assert(events[events.len() - 1] == events.last());
        }
        if batch.len() > 0 {
            let all = flushes(state, earlier).push(batch);
            assert(all.drop_last() =~= flushes(state, earlier));
            assert(all.last() == batch);
        }
        assert(concat(flushes(state, events)) + run(state, events).pending =~= (concat(
            flushes(state, earlier),
        ) + before.pending) + records_of(events).subrange(
            records_of(earlier).len() as int,
            records_of(events).len() as int,
        ));
        assert(state.pending + records_of(events) =~= (state.pending + records_of(earlier))
            + records_of(events).subrange(
            records_of(earlier).len() as int,
            records_of(events).len() as int,
        ));
    }
}

/// Records that arrive one after the other and stay below the batch size
/// are all buffered, and nothing is flushed.
pub proof fn law_arrivals_below_batch_size_are_buffered(threshold: nat, records: Seq<LogObject>)
    requires
        records.len() < threshold,
    ensures
        run(State::initial(threshold), arrivals(records)) == (State {
            pending: records,
            threshold,
            terminated: false,
        }),
        flushes(State::initial(threshold), arrivals(records)).len() == 0,
    decreases records.len(),
{
    if records.len() == 0 {
        assert(records =~= Seq::<LogObject>::empty());
    } else {
        law_arrivals_below_batch_size_are_buffered(threshold, records.drop_last());
        assert(arrivals(records).drop_last() =~= arrivals(records.drop_last()));
        assert(arrivals(records).last() == Event::Record(records.last()));
        assert(records.drop_last().push(records.last()) =~= records);
    }
}

/// Up to a batch size of records that arrive within one interval are
/// flushed as exactly one batch, which holds them all in the order of
/// their arrival: when the last of them fills the batch, or else at the
/// tick that ends the interval.
pub proof fn law_burst_within_batch_size_is_one_flush(threshold: nat, records: Seq<LogObject>)
    requires
        1 <= records.len() <= threshold,
    ensures
        flushes(State::initial(threshold), arrivals(records).push(Event::Tick)) == seq![records],
        run(State::initial(threshold), arrivals(records).push(Event::Tick)) == State::initial(
            threshold,
        ),
{
    let start = State::initial(threshold);
    let events = arrivals(records).push(Event::Tick);
    assert(events.drop_last() =~= arrivals(records));
    assert(events.last() == Event::Tick);
    if records.len() < threshold {
        law_arrivals_below_batch_size_are_buffered(threshold, records);
        assert(flushes(start, events) =~= seq![records]);
    } else {
        law_arrivals_below_batch_size_are_buffered(threshold, records.drop_last());
        assert(arrivals(records).drop_last() =~= arrivals(records.drop_last()));
        assert(arrivals(records).last() == Event::Record(records.last()));
        assert(records.drop_last().push(records.last()) =~= records);
        assert(run(start, arrivals(records)) == start);
        assert(flushes(start, arrivals(records)) =~= seq![records]);
        assert(flushes(start, events) =~= seq![records]);
    }
}

/// A tick flushes everything that is buffered, as one batch, and leaves the
/// buffer empty; with nothing buffered it flushes nothing.
pub proof fn law_tick_flushes_what_is_buffered(state: State)
    requires
        !state.terminated,
    ensures
        state.flushed(Event::Tick) == state.pending,
        state.next(Event::Tick).pending.len() == 0,
        flushes(state, seq![Event::Tick]) == if state.pending.len() > 0 {
            seq![state.pending]
        } else {
            Seq::<Seq<LogObject>>::empty()
        },
{
    let events = seq![Event::Tick];
    assert(events.drop_last() =~= Seq::<Event>::empty());
    assert(events.last() == Event::Tick);
    assert(flushes(state, events.drop_last()) =~= Seq::<Seq<LogObject>>::empty());
    assert(run(state, events.drop_last()) == state);
    if state.pending.len() > 0 {
        assert(flushes(state, events) =~= seq![state.pending]);
    } else {
        assert(flushes(state, events) =~= Seq::<Seq<LogObject>>::empty());
    }
}

/// Once the aggregator has stopped, nothing is flushed any more and
/// nothing changes, whatever events follow.
pub proof fn law_nothing_after_stop(state: State, events: Seq<Event>)
    requires
        state.terminated,
    ensures
        run(state, events) == state,
        flushes(state, events).len() == 0,
    decreases events.len(),
{
    if events.len() > 0 {
        law_nothing_after_stop(state, events.drop_last());
    }
}

/// When the mailbox closes, what is buffered is flushed as exactly one
/// batch, in its order, and no flush follows, whatever events come later.
/// With nothing buffered there is no flush at all.
pub proof fn law_close_flushes_once(state: State, later: Seq<Event>)
    requires
        !state.terminated,
    ensures
        run(state, seq![Event::Closed] + later).terminated,
        run(state, seq![Event::Closed] + later).pending.len() == 0,
        flushes(state, seq![Event::Closed] + later) == if state.pending.len() > 0 {
            seq![state.pending]
        } else {
            Seq::<Seq<LogObject>>::empty()
        },
    decreases later.len(),
{
    let events = seq![Event::Closed] + later;
    if later.len() == 0 {
        assert(events.drop_last() =~= Seq::<Event>::empty());
        assert(events.last() == Event::Closed);
        assert(run(state, events.drop_last()) == state);
        assert(flushes(state, events.drop_last()) =~= Seq::<Seq<LogObject>>::empty());
        if state.pending.len() > 0 {
            assert(flushes(state, events) =~= seq![state.pending]);
        }
    } else {
        law_close_flushes_once(state, later.drop_last());
        assert(events.drop_last() =~= seq![Event::Closed] + later.drop_last());
        assert(events.last() == later.last());
    }
}

/// The records of some batches are at most as many as the batches times
/// the size of the largest.
proof fn lemma_concat_len(batches: Seq<Seq<LogObject>>, bound: nat)
    requires
        forall|i: int| 0 <= i < batches.len() ==> (#[trigger] batches[i]).len() <= bound,
    ensures
        concat(batches).len() <= batches.len() * bound,
    decreases batches.len(),
{
    if batches.len() > 0 {
        lemma_concat_len(batches.drop_last(), bound);
        assert(batches.last().len() <= bound);
        assert((batches.len() - 1) * bound + bound == batches.len() * bound)
            by (nonlinear_arith);
    }
}

/// From the first record to the closing of the mailbox, every record is
/// flushed exactly once and in order, no batch is larger than the batch
/// size, and so there are at least as many flushes as the number of records
/// divided by the batch size, rounded up.
pub proof fn law_flush_count(threshold: nat, events: Seq<Event>)
    requires
        threshold >= 1,
        never_closed(events),
    ensures
        ({
            let batches = flushes(State::initial(threshold), events.push(Event::Closed));
            let n = records_of(events).len();
            &&& concat(batches) == records_of(events)
            &&& forall|i: int| 0 <= i < batches.len() ==> 1 <= (#[trigger] batches[i]).len() <= threshold
            &&& batches.len() * threshold >= n
            &&& batches.len() >= (n + threshold - 1) / (threshold as int)
        }),
{
    let start = State::initial(threshold);
    let all = events.push(Event::Closed);
    let batches = flushes(start, all);
    let n = records_of(events).len();
    assert(all.drop_last() =~= events);
    assert(all.last() == Event::Closed);
    law_first_in_first_out(start, events);
    law_flush_sizes(start, all);
    let last = run(start, events);
    if last.pending.len() > 0 {
        let pushed = flushes(start, events).push(last.pending);
        assert(pushed.drop_last() =~= flushes(start, events));
        assert(pushed.last() == last.pending);
    } else {
        assert(concat(flushes(start, events)) + last.pending =~= concat(flushes(start, events)));
    }
    assert(start.pending + records_of(events) =~= records_of(events));
    assert(concat(batches) == records_of(events));
    lemma_concat_len(batches, threshold);
    let k = batches.len();
    assert(k * threshold >= n);
    assert((n + threshold - 1) / (threshold as int) <= k) by (nonlinear_arith)
        requires
            k * threshold >= n,
            threshold >= 1,
    ;
}

} // verus!
