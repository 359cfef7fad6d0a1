//! The sampling cycle: read a sample, write it to the trace, wait, and again.
//!
//! The sequencer names one action at a time, as in bring-up. A sample that
//! cannot be read halts the cycle on the spot; nothing else ends it.

use crate::fault::Fault;
use crate::handles::{Handles, TRACE_CHANNEL};
use crate::sensor::{trace_text, Reading};
use vstd::prelude::*;

verus! {

/// Time between a trace write and the next read, in milliseconds.
pub const PERIOD_MS: u16 = 1000;

/// Where the cycle stands.
#[derive(Clone, Copy, Debug, PartialEq, Eq, Structural)]
pub enum Phase {
    /// A sample is to be read.
    Sampling,
    /// This sample has been read and is to be written to the trace.
    Tracing(Reading),
    /// The sample is written; the cycle waits out the period.
    Waiting,
    /// A read failed. Nothing follows.
    Halted,
}

/// What the firmware reports back.
#[derive(Clone, Copy, Debug, PartialEq, Eq, Structural)]
pub enum Event {
    /// The sensor gave this sample.
    Sample(Reading),
    /// The read failed on the bus.
    ReadFailed,
    /// The trace write, or the delay, is over.
    Done,
}

/// What the firmware is to do next.
#[derive(Debug, PartialEq, Eq)]
pub enum LoopAction {
    /// Read one sample from the sensor.
    ReadSample,
    /// Write `line` to trace channel `channel`.
    Trace { channel: usize, line: String },
    /// Busy-wait for `ms` milliseconds.
    Delay { ms: u16 },
    /// Stop for good.
    Halt { fault: Fault },
}

/// A `LoopAction` as specifications see it: the line is a sequence of
/// characters.
pub enum LoopActionView {
    ReadSample,
    Trace { channel: usize, line: Seq<char> },
    Delay { ms: u16 },
    Halt { fault: Fault },
}

impl View for LoopAction {
    type V = LoopActionView;

    open spec fn view(&self) -> LoopActionView {
        match self {
            LoopAction::ReadSample => LoopActionView::ReadSample,
            LoopAction::Trace { channel, line } => LoopActionView::Trace {
                channel: *channel,
                line: line@,
            },
            LoopAction::Delay { ms } => LoopActionView::Delay { ms: *ms },
            LoopAction::Halt { fault } => LoopActionView::Halt { fault: *fault },
        }
    }
}

impl Phase {
    /// The phase after an event. An event that does not answer the pending
    /// action is ignored: a sample or a failed read while nothing is being
    /// read, `Done` while a sample is being read, anything once halted.
    pub open spec fn after(self, event: Event) -> Phase {
        match (self, event) {
            (Phase::Sampling, Event::Sample(reading)) => Phase::Tracing(reading),
            (Phase::Sampling, Event::ReadFailed) => Phase::Halted,
            (Phase::Tracing(_), Event::Done) => Phase::Waiting,
            (Phase::Waiting, Event::Done) => Phase::Sampling,
            _ => self,
        }
    }

    /// The action that the firmware is to perform in this phase.
    pub open spec fn action(self) -> LoopActionView {
        match self {
            Phase::Sampling => LoopActionView::ReadSample,
            Phase::Tracing(reading) => LoopActionView::Trace {
                channel: TRACE_CHANNEL,
                line: trace_text(reading),
            },
            Phase::Waiting => LoopActionView::Delay { ms: PERIOD_MS },
            Phase::Halted => LoopActionView::Halt { fault: Fault::SampleRead },
        }
    }

    /// The phase after the events have come in one by one.
    pub open spec fn run(self, events: Seq<Event>) -> Phase
        decreases events.len(),
    {
        if events.len() == 0 {
            self
        } else {
            self.run(events.drop_last()).after(events.last())
        }
    }

    /// The actions that the firmware performed to report these events: the
    /// one at place `j` was pending when the event at place `j` came in.
    pub open spec fn performed(self, events: Seq<Event>) -> Seq<LoopActionView> {
        Seq::new(events.len(), |j: int| self.run(events.take(j)).action())
    }
}

/// The sequencer of the sampling cycle. It owns the handles for as long as
/// it runs.
#[derive(Debug)]
pub struct RunLoop {
    phase: Phase,
    handles: Handles,
}

impl View for RunLoop {
    type V = Phase;

    closed spec fn view(&self) -> Phase {
        self.phase
    }
}

impl RunLoop {
    /// Starts the cycle on the handles of a finished bring-up. The first
    /// action is a read.
    pub fn start(handles: Handles) -> (run_loop: RunLoop)
        ensures
            run_loop@ == Phase::Sampling,
    {
        RunLoop { phase: Phase::Sampling, handles }
    }

    /// Where the cycle stands.
    pub fn phase(&self) -> (phase: Phase)
        ensures
            phase == self@,
    {
        self.phase
    }

    /// The action that the firmware is to perform now.
    pub fn action(&self) -> (action: LoopAction)
        ensures
            action@ == self@.action(),
    {
        match self.phase {
            Phase::Sampling => LoopAction::ReadSample,
            Phase::Tracing(reading) => LoopAction::Trace {
                channel: self.handles.trace().channel,
                line: reading.trace_line(),
            },
            Phase::Waiting => LoopAction::Delay { ms: PERIOD_MS },
            Phase::Halted => LoopAction::Halt { fault: Fault::SampleRead },
        }
    }

    /// Takes the firmware's report on the pending action and returns the
    /// action to perform next. A sample leads to its trace write, the write
    /// to the delay, the delay to the next read; a failed read halts the
    /// cycle. A report that does not answer the pending action changes
    /// nothing, and the pending action is returned again.
    pub fn advance(&mut self, event: Event) -> (next: LoopAction)
        ensures
            final(self)@ == old(self)@.after(event),
            next@ == final(self)@.action(),
    {
        match (self.phase, event) {
            (Phase::Sampling, Event::Sample(reading)) => {
                self.phase = Phase::Tracing(reading);
            },
            (Phase::Sampling, Event::ReadFailed) => {
                self.phase = Phase::Halted;
            },
            (Phase::Tracing(_), Event::Done) => {
                self.phase = Phase::Waiting;
            },
            (Phase::Waiting, Event::Done) => {
                self.phase = Phase::Sampling;
            },
            _ => {},
        }
        self.action()
    }
}

/// The reports of as many iterations as there are samples, in each of which
/// the read gives its sample: the sample, then `Done` for the trace write,
/// then `Done` for the delay.
pub open spec fn iterations(samples: Seq<Reading>) -> Seq<Event> {
    Seq::new(
        3 * samples.len(),
        |j: int|
            if j % 3 == 0 {
                Event::Sample(samples[j / 3])
            } else {
                Event::Done
            },
    )
}

proof fn lemma_run_one_more(phase: Phase, events: Seq<Event>, j: int)
    requires
        0 <= j < events.len(),
    ensures
        phase.run(events.take(j + 1)) == phase.run(events.take(j)).after(events[j]),
{
    assert(events.take(j + 1).drop_last() =~= events.take(j));
    assert(events.take(j + 1).last() == events[j]);
}

proof fn lemma_run_concat(phase: Phase, first: Seq<Event>, then: Seq<Event>)
    ensures
        phase.run(first + then) == phase.run(first).run(then),
    decreases then.len(),
{
    if then.len() == 0 {
        assert(first + then =~= first);
    } else {
        lemma_run_concat(phase, first, then.drop_last());
        assert((first + then).drop_last() =~= first + then.drop_last());
        assert((first + then).last() == then.last());
    }
}

proof fn lemma_phase_within_iterations(samples: Seq<Reading>, j: int)
    requires
        0 <= j <= 3 * samples.len(),
    ensures
        Phase::Sampling.run(iterations(samples).take(j)) == (if j % 3 == 0 {
            Phase::Sampling
        } else if j % 3 == 1 {
            Phase::Tracing(samples[j / 3])
        } else {
            Phase::Waiting
        }),
    decreases j,
{
    if j > 0 {
        lemma_phase_within_iterations(samples, j - 1);
        lemma_run_one_more(Phase::Sampling, iterations(samples), j - 1);
    }
}

/// Halting is final: no report moves a halted cycle.
pub proof fn lemma_halted_stays(events: Seq<Event>)
    ensures
        Phase::Halted.run(events) == Phase::Halted,
    decreases events.len(),
{
    if events.len() > 0 {
        lemma_halted_stays(events.drop_last());
    }
}

/// As long as every read gives a sample, the cycle performs, for each sample
/// in turn, one read, then one trace write of that sample's line to
/// `TRACE_CHANNEL`, then one delay of `PERIOD_MS`: three actions for each
/// iteration, in this order and with nothing between them. After the last of
/// them the next read is pending.
pub proof fn lemma_iterations_in_order(samples: Seq<Reading>)
    ensures
        ({
            let events = iterations(samples);
            let done = Phase::Sampling.performed(events);
            &&& Phase::Sampling.run(events) == Phase::Sampling
            &&& done.len() == 3 * samples.len()
            &&& forall|i: int|
                #![trigger samples[i]]
                0 <= i < samples.len() ==> {
                    &&& done[3 * i] == LoopActionView::ReadSample
                    &&& done[3 * i + 1] == (LoopActionView::Trace {
                        channel: TRACE_CHANNEL,
                        line: trace_text(samples[i]),
                    })
                    &&& done[3 * i + 2] == (LoopActionView::Delay { ms: PERIOD_MS })
                }
        }),
{
    let events = iterations(samples);
    let done = Phase::Sampling.performed(events);
    lemma_phase_within_iterations(samples, 3 * (samples.len() as int));
    assert(events.take(events.len() as int) =~= events);
    assert forall|i: int| #![trigger samples[i]] 0 <= i < samples.len() implies {
        &&& done[3 * i] == LoopActionView::ReadSample
        &&& done[3 * i + 1] == (LoopActionView::Trace {
            channel: TRACE_CHANNEL,
            line: trace_text(samples[i]),
        })
        &&& done[3 * i + 2] == (LoopActionView::Delay { ms: PERIOD_MS })
    } by {
        lemma_phase_within_iterations(samples, 3 * i);
        lemma_phase_within_iterations(samples, 3 * i + 1);
        lemma_phase_within_iterations(samples, 3 * i + 2);
    }
}

/// A read that fails halts the cycle before anything is written or waited
/// for in its iteration. After any number of iterations that went through,
/// the failed read is the last action but halts: the actions before it are
/// those of the iterations that went through, and whatever is reported
/// afterwards, no trace write and no delay follows.
pub proof fn lemma_failed_read_halts(samples: Seq<Reading>, rest: Seq<Event>)
    ensures
        ({
            let k = samples.len() as int;
            let events = iterations(samples).push(Event::ReadFailed) + rest;
            let done = Phase::Sampling.performed(events);
            &&& Phase::Sampling.run(events) == Phase::Halted
            &&& done.len() == 3 * k + 1 + rest.len()
            &&& done.take(3 * k) == Phase::Sampling.performed(iterations(samples))
            &&& done[3 * k] == LoopActionView::ReadSample
            &&& forall|j: int|
                3 * k < j < done.len() ==> #[trigger] done[j] == (LoopActionView::Halt {
                    fault: Fault::SampleRead,
                })
        }),
{
    let k = samples.len() as int;
    let whole = iterations(samples);
    let failed = whole.push(Event::ReadFailed);
    let events = failed + rest;
    let done = Phase::Sampling.performed(events);
    lemma_phase_within_iterations(samples, 3 * k);
    assert(whole.take(3 * k) =~= whole);
    assert(failed.drop_last() =~= whole);
    assert(Phase::Sampling.run(failed) == Phase::Halted);
    lemma_run_concat(Phase::Sampling, failed, rest);
    lemma_halted_stays(rest);
    assert forall|j: int| 0 <= j <= 3 * k implies events.take(j) == whole.take(j) by {
        assert(events.take(j) =~= whole.take(j));
    }
    assert(done.take(3 * k) =~= Phase::Sampling.performed(whole));
    assert forall|j: int| 3 * k < j < done.len() implies #[trigger] done[j] == (
    LoopActionView::Halt { fault: Fault::SampleRead }) by {
        let tail = rest.take(j - 3 * k - 1);
        assert(events.take(j) =~= failed + tail);
        lemma_run_concat(Phase::Sampling, failed, tail);
        lemma_halted_stays(tail);
    }
}

} // verus!
