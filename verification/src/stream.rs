//! The streaming loop as a state machine.
//!
//! The loop itself runs outside this crate: it enumerates, reads the
//! streaming flag, captures, emits, reads the clock and sleeps. Whatever it
//! learns it hands to [`CaptureLoop::step`] as a [`LoopEvent`], and
//! what `step` answers, a [`LoopEffect`], it carries out. The phase of the
//! loop tells which event is due next.

use vstd::prelude::*;
use crate::codec::{Quality, stream_payload, stream_payload_of};
use crate::display::{MonitorProbe, MonitorProbeView, or_default, text_or_empty, views};
use crate::error::{CaptureError, CaptureErrorView};
use crate::flag::{StreamFlag, permits};
use crate::frame::{RawFrame, RawFrameView};
use crate::target::{screen_target_of, stream_target};

verus! {

/// The time allotted to one iteration of the loop, in nanoseconds: 33 ms,
/// for about 30 frames per second.
pub const FRAME_BUDGET_NANOS: u64 = 33_000_000;

/// Where the loop stands, and with that which event it waits for.
#[derive(Clone, Copy, Debug, PartialEq, Eq)]
pub enum LoopPhase {
    /// Just spawned: waits for an enumeration snapshot to find its monitor in.
    Resolving { target: Option<u32> },
    /// Between iterations: waits for a reading of the streaming flag.
    Polling { monitor: usize },
    /// An iteration has begun: waits for the capture of the monitor with this
    /// index in the snapshot.
    Capturing { monitor: usize },
    /// The frame is dealt with: waits for the time the iteration has taken so
    /// far.
    Pacing { monitor: usize },
    /// The loop has ended and waits for nothing.
    Finished,
}

/// The state of one streaming loop.
#[derive(Clone, Copy, Debug, PartialEq, Eq)]
pub struct CaptureLoop {
    pub phase: LoopPhase,
    /// The JPEG quality of the frames it emits.
    pub quality: Quality,
    /// The generation of the flag at which this loop was asked for.
    pub generation: u32,
}

/// What the loop has learnt from the outside.
#[derive(Debug)]
pub enum LoopEvent {
    /// The outcome of enumerating the monitors: the monitors, or the cause
    /// of the failure.
    Snapshot(Result<Vec<MonitorProbe>, String>),
    /// The streaming flag as just read.
    Flag(StreamFlag),
    /// The outcome of capturing the monitor: the frame, or the cause of the
    /// failure.
    Captured(Result<RawFrame, String>),
    /// The nanoseconds that have passed since the iteration began.
    Elapsed(u128),
}

/// [`LoopEvent`] as contracts see it.
pub enum LoopEventView {
    Snapshot(Result<Seq<MonitorProbeView>, Seq<char>>),
    Flag(StreamFlag),
    Captured(Result<RawFrameView, Seq<char>>),
    Elapsed(u128),
}

impl View for LoopEvent {
    type V = LoopEventView;

    open spec fn view(&self) -> LoopEventView {
        match *self {
            LoopEvent::Snapshot(Ok(probes)) => LoopEventView::Snapshot(Ok(views(probes@))),
            LoopEvent::Snapshot(Err(cause)) => LoopEventView::Snapshot(Err(cause@)),
            LoopEvent::Flag(flag) => LoopEventView::Flag(flag),
            LoopEvent::Captured(Ok(frame)) => LoopEventView::Captured(Ok(frame@)),
            LoopEvent::Captured(Err(cause)) => LoopEventView::Captured(Err(cause@)),
            LoopEvent::Elapsed(nanos) => LoopEventView::Elapsed(nanos),
        }
    }
}

/// What the loop is to do before it gathers the next event.
#[derive(Debug, PartialEq, Eq)]
pub enum LoopEffect {
    /// Nothing.
    Idle,
    /// Log that capture starts on the monitor of this name.
    Announce(String),
    /// Log this failure. The loop goes on unless its phase says otherwise.
    Report(CaptureError),
    /// Push this payload to the frame sink, without waiting for an answer.
    Emit(String),
    /// Sleep for this many nanoseconds.
    Sleep(u64),
}

/// [`LoopEffect`] as contracts see it.
pub enum LoopEffectView {
    Idle,
    Announce(Seq<char>),
    Report(CaptureErrorView),
    Emit(Seq<char>),
    Sleep(u64),
}

impl View for LoopEffect {
    type V = LoopEffectView;

    open spec fn view(&self) -> LoopEffectView {
        match *self {
            LoopEffect::Idle => LoopEffectView::Idle,
            LoopEffect::Announce(name) => LoopEffectView::Announce(name@),
            LoopEffect::Report(error) => LoopEffectView::Report(error@),
            LoopEffect::Emit(payload) => LoopEffectView::Emit(payload@),
            LoopEffect::Sleep(nanos) => LoopEffectView::Sleep(nanos),
        }
    }
}

/// How long the loop sleeps at the end of an iteration that has taken
/// `elapsed` nanoseconds: the rest of the frame budget, and nothing once the
/// budget is used up.
pub open spec fn pause_nanos(elapsed: u128) -> u64 {
    if elapsed < FRAME_BUDGET_NANOS {
        (FRAME_BUDGET_NANOS - elapsed) as u64
    } else {
        0
    }
}

/// The loop in a given phase, otherwise unchanged.
pub open spec fn in_phase(state: CaptureLoop, phase: LoopPhase) -> CaptureLoop {
    CaptureLoop { phase, quality: state.quality, generation: state.generation }
}

/// The move of the loop on an event: its next state and what it is to do.
///
/// The loop finds its monitor as a one-shot screen capture does. Between
/// iterations it goes on where the flag permits its generation, and ends
/// otherwise. An event that the phase does not wait for changes nothing.
pub open spec fn next(state: CaptureLoop, event: LoopEventView) -> (CaptureLoop, LoopEffectView) {
    match state.phase {
        LoopPhase::Resolving { target } => match event {
            LoopEventView::Snapshot(Err(cause)) => (
                in_phase(state, LoopPhase::Finished),
                LoopEffectView::Report(CaptureErrorView::Enumeration(cause)),
            ),
            LoopEventView::Snapshot(Ok(probes)) => match screen_target_of(probes, target) {
                Ok(i) => (
                    in_phase(state, LoopPhase::Polling { monitor: i as usize }),
                    LoopEffectView::Announce(or_default(probes[i].name, Seq::empty())),
                ),
                Err(missing) => (
                    in_phase(state, LoopPhase::Finished),
                    LoopEffectView::Report(CaptureErrorView::TargetNotFound(missing)),
                ),
            },
            _ => (state, LoopEffectView::Idle),
        },
        LoopPhase::Polling { monitor } => match event {
            LoopEventView::Flag(flag) => (
                if permits(flag, state.generation) {
                    in_phase(state, LoopPhase::Capturing { monitor })
                } else {
                    in_phase(state, LoopPhase::Finished)
                },
                LoopEffectView::Idle,
            ),
            _ => (state, LoopEffectView::Idle),
        },
        LoopPhase::Capturing { monitor } => match event {
            LoopEventView::Captured(Err(cause)) => (
                in_phase(state, LoopPhase::Pacing { monitor }),
                LoopEffectView::Report(CaptureErrorView::Capture(cause)),
            ),
            LoopEventView::Captured(Ok(frame)) => (
                in_phase(state, LoopPhase::Pacing { monitor }),
                match stream_payload_of(frame, state.quality) {
                    Some(payload) => LoopEffectView::Emit(payload),
                    None => LoopEffectView::Report(CaptureErrorView::Encode),
                },
            ),
            _ => (state, LoopEffectView::Idle),
        },
        LoopPhase::Pacing { monitor } => match event {
            LoopEventView::Elapsed(nanos) => (
                in_phase(state, LoopPhase::Polling { monitor }),
                if nanos < FRAME_BUDGET_NANOS {
                    LoopEffectView::Sleep(pause_nanos(nanos))
                } else {
                    LoopEffectView::Idle
                },
            ),
            _ => (state, LoopEffectView::Idle),
        },
        LoopPhase::Finished => (state, LoopEffectView::Idle),
    }
}

/// The run of a loop over a sequence of events, taken one after the other:
/// the state it ends in and the effects it asked for, one per event.
pub open spec fn run(state: CaptureLoop, events: Seq<LoopEventView>) -> (
    CaptureLoop,
    Seq<LoopEffectView>,
)
    decreases events.len(),
{
    if events.len() == 0 {
        (state, Seq::empty())
    } else {
        let (before, effects) = run(state, events.drop_last());
        let (after, effect) = next(before, events.last());
        (after, effects.push(effect))
    }
}

/// Whether the loop has found its monitor and has not ended.
pub open spec fn is_running(state: CaptureLoop) -> bool {
    state.phase is Polling || state.phase is Capturing || state.phase is Pacing
}

/// A loop asks for exactly one effect per event, and never changes its
/// quality or its generation.
pub proof fn lemma_run_shape(state: CaptureLoop, events: Seq<LoopEventView>)
    ensures
        run(state, events).1.len() == events.len(),
        run(state, events).0.quality == state.quality,
        run(state, events).0.generation == state.generation,
    decreases events.len(),
{
    if events.len() > 0 {
        lemma_run_shape(state, events.drop_last());
    }
}

/// A loop that never gets a frame never emits one: where every capture
/// fails, each effect of the run is something other than `Emit`.
pub proof fn lemma_failed_captures_emit_nothing(state: CaptureLoop, events: Seq<LoopEventView>)
    requires
        forall|i: int|
            0 <= i < events.len() ==> !(#[trigger] events[i] matches LoopEventView::Captured(Ok(_))),
    ensures
        forall|k: int|
            0 <= k < events.len() ==> !(#[trigger] run(state, events).1[k] is Emit),
    decreases events.len(),
{
    lemma_run_shape(state, events);
    if events.len() > 0 {
        let front = events.drop_last();
        lemma_run_shape(state, front);
        assert forall|i: int| 0 <= i < front.len() implies !(#[trigger] front[i]
            matches LoopEventView::Captured(Ok(_))) by {
            assert(front[i] == events[i]);
        }
        lemma_failed_captures_emit_nothing(state, front);
        assert(!(events.last() matches LoopEventView::Captured(Ok(_)))) by {
            assert(events.last() == events[events.len() - 1]);
        }
        assert forall|k: int| 0 <= k < events.len() implies !(#[trigger] run(state, events).1[k]
            is Emit) by {
            if k < front.len() {
                assert(run(state, events).1[k] == run(state, front).1[k]);
            }
        }
    }
}

/// Frames leave in the order of their capture, one for one: a payload is
/// only ever emitted in answer to a captured frame, and it is the payload of
/// that very frame at the quality of the loop.
pub proof fn lemma_emit_is_the_captured_frame(
    state: CaptureLoop,
    events: Seq<LoopEventView>,
    k: int,
)
    requires
        0 <= k < events.len(),
        run(state, events).1[k] is Emit,
    ensures
        events[k] matches LoopEventView::Captured(Ok(frame)) && stream_payload_of(
            frame,
            state.quality,
        ) == Some(run(state, events).1[k]->Emit_0),
    decreases events.len(),
{
    let front = events.drop_last();
    lemma_run_shape(state, front);
    if k == events.len() - 1 {
        assert(events.last() == events[k]);
    } else {
        assert(run(state, events).1[k] == run(state, front).1[k]);
        assert(front[k] == events[k]);
        lemma_emit_is_the_captured_frame(state, front, k);
    }
}

/// Failures do not end a loop: once it has found its monitor it keeps
/// running through every event, failed captures and frames that cannot be
/// encoded among them, as long as every flag it reads permits its
/// generation.
pub proof fn lemma_loop_outlives_failures(state: CaptureLoop, events: Seq<LoopEventView>)
    requires
        is_running(state),
        forall|i: int|
            0 <= i < events.len() ==> (#[trigger] events[i] matches LoopEventView::Flag(flag)
                ==> permits(flag, state.generation)),
    ensures
        is_running(run(state, events).0),
    decreases events.len(),
{
    if events.len() > 0 {
        let front = events.drop_last();
        assert forall|i: int| 0 <= i < front.len() implies (#[trigger] front[i]
            matches LoopEventView::Flag(flag) ==> permits(flag, state.generation)) by {
            assert(front[i] == events[i]);
        }
        lemma_loop_outlives_failures(state, front);
        lemma_run_shape(state, front);
        assert(events.last() == events[events.len() - 1]);
    }
}

/// A loop that has ended stays ended: it takes every event without a change
/// of state and asks for nothing, so no frame follows the exit.
pub proof fn lemma_finished_is_final(state: CaptureLoop, events: Seq<LoopEventView>)
    requires
        state.phase is Finished,
    ensures
        run(state, events).0 == state,
        forall|k: int|
            0 <= k < events.len() ==> #[trigger] run(state, events).1[k] == LoopEffectView::Idle,
    decreases events.len(),
{
    lemma_run_shape(state, events);
    if events.len() > 0 {
        let front = events.drop_last();
        lemma_run_shape(state, front);
        lemma_finished_is_final(state, front);
        assert forall|k: int| 0 <= k < events.len() implies #[trigger] run(state, events).1[k]
            == LoopEffectView::Idle by {
            if k < front.len() {
                assert(run(state, events).1[k] == run(state, front).1[k]);
            }
        }
    }
}

/// How many of the effects are frames pushed to the sink.
pub open spec fn emit_count(effects: Seq<LoopEffectView>) -> nat
    decreases effects.len(),
{
    if effects.len() == 0 {
        0
    } else {
        let last: nat = if effects.last() is Emit {
            1
        } else {
            0
        };
        emit_count(effects.drop_last()) + last
    }
}

/// Whether the loop is in the middle of a capture.
pub open spec fn in_flight(state: CaptureLoop) -> nat {
    if state.phase is Capturing {
        1
    } else {
        0
    }
}

/// Stopping is prompt: once no reading of the flag permits its generation
/// any more, a loop emits at most the one frame whose capture was under way,
/// and none where no capture was.
pub proof fn lemma_stop_latency(state: CaptureLoop, events: Seq<LoopEventView>)
    requires
        forall|i: int|
            0 <= i < events.len() ==> (#[trigger] events[i] matches LoopEventView::Flag(flag)
                ==> !permits(flag, state.generation)),
    ensures
        emit_count(run(state, events).1) + in_flight(run(state, events).0) <= in_flight(state),
        emit_count(run(state, events).1) <= 1,
    decreases events.len(),
{
    if events.len() > 0 {
        let front = events.drop_last();
        assert forall|i: int| 0 <= i < front.len() implies (#[trigger] front[i]
            matches LoopEventView::Flag(flag) ==> !permits(flag, state.generation)) by {
            assert(front[i] == events[i]);
        }
        lemma_stop_latency(state, front);
        lemma_run_shape(state, front);
        assert(events.last() == events[events.len() - 1]);
        assert(run(state, events).1.drop_last() =~= run(state, front).1);
    }
}

/// The earliest time, in nanoseconds after the first iteration began, at
/// which iteration `k` begins, where iteration `j` took `work[j]` nanoseconds
/// up to its pause and then slept as long as it was told.
pub open spec fn iteration_start(work: Seq<u128>, k: nat) -> nat
    decreases k,
{
    if k == 0 {
        0
    } else {
        iteration_start(work, (k - 1) as nat) + work[k - 1] as nat + pause_nanos(
            work[k - 1],
        ) as nat
    }
}

/// The frame rate is capped: work and pause of an iteration together last
/// the frame budget or the work alone lasts longer, so iteration `k` begins
/// no sooner than `k` frame budgets after the first. With one frame per
/// iteration at most, no more than 91 frames leave in three seconds.
pub proof fn lemma_rate_cap(work: Seq<u128>, k: nat)
    requires
        k <= work.len(),
    ensures
        iteration_start(work, k) >= k * FRAME_BUDGET_NANOS,
        iteration_start(work, k) < 3_000_000_000 ==> k <= 90,
    decreases k,
{
    if k > 0 {
        lemma_rate_cap(work, (k - 1) as nat);
    }
}

impl CaptureLoop {
    /// The loop as it is spawned for the given generation of the flag: it
    /// has yet to find its monitor.
    pub fn new(target: Option<u32>, quality: Quality, generation: u32) -> (res: CaptureLoop)
        ensures
            res == (CaptureLoop { phase: LoopPhase::Resolving { target }, quality, generation }),
    {
        CaptureLoop { phase: LoopPhase::Resolving { target }, quality, generation }
    }

    /// Whether the loop has ended.
    pub fn is_finished(&self) -> (res: bool)
        ensures
            res == (self.phase is Finished),
    {
        match self.phase {
            LoopPhase::Finished => true,
            _ => false,
        }
    }

    /// Takes one event and answers with what to do.
    ///
    /// A failed capture or a frame that cannot be encoded is reported and
    /// the loop goes on; only a flag that does not permit its generation, a
    /// failed enumeration or a snapshot without its monitor ends it.
    pub fn step(&mut self, event: LoopEvent) -> (effect: LoopEffect)
        ensures
            (*final(self), effect@) == next(*old(self), event@),
    {
        match self.phase {
            LoopPhase::Resolving { target } => match event {
                LoopEvent::Snapshot(Err(cause)) => {
                    self.phase = LoopPhase::Finished;
                    LoopEffect::Report(CaptureError::Enumeration(cause))
                },
                LoopEvent::Snapshot(Ok(probes)) => match stream_target(&probes, target) {
                    Ok(i) => {
                        self.phase = LoopPhase::Polling { monitor: i };
                        LoopEffect::Announce(text_or_empty(&probes[i].name))
                    },
                    Err(missing) => {
                        self.phase = LoopPhase::Finished;
                        LoopEffect::Report(CaptureError::TargetNotFound(missing))
                    },
                },
                _ => LoopEffect::Idle,
            },
            LoopPhase::Polling { monitor } => match event {
                LoopEvent::Flag(flag) => {
                    if flag.permits(self.generation) {
                        self.phase = LoopPhase::Capturing { monitor };
                    } else {
                        self.phase = LoopPhase::Finished;
                    }
                    LoopEffect::Idle
                },
                _ => LoopEffect::Idle,
            },
            LoopPhase::Capturing { monitor } => match event {
                LoopEvent::Captured(Err(cause)) => {
                    self.phase = LoopPhase::Pacing { monitor };
                    LoopEffect::Report(CaptureError::Capture(cause))
                },
                LoopEvent::Captured(Ok(frame)) => {
                    self.phase = LoopPhase::Pacing { monitor };
                    match stream_payload(&frame, self.quality) {
                        Ok(payload) => LoopEffect::Emit(payload),
                        Err(error) => LoopEffect::Report(error),
                    }
                },
                _ => LoopEffect::Idle,
            },
            LoopPhase::Pacing { monitor } => match event {
                LoopEvent::Elapsed(nanos) => {
                    self.phase = LoopPhase::Polling { monitor };
                    if nanos < FRAME_BUDGET_NANOS as u128 {
                        LoopEffect::Sleep(FRAME_BUDGET_NANOS - nanos as u64)
                    } else {
                        LoopEffect::Idle
                    }
                },
                _ => LoopEffect::Idle,
            },
            LoopPhase::Finished => LoopEffect::Idle,
        }
    }
}

} // verus!
