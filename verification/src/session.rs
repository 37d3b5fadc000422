//! The streaming session: the flag that says whether a stream is wanted, and
//! the rule that at most one loop runs on it.
//!
//! The rule is stated and proved on plain values, in [`start_streaming`] and
//! [`stop_streaming`]. [`StreamingSession`] is the session as an object that
//! keeps the flag and applies the rule to it.

use vstd::prelude::*;
use crate::codec::Quality;
use crate::flag::{StreamFlag, lemma_next_generation, next_generation, permits};
use crate::stream::{CaptureLoop, LoopEffectView, LoopEventView, LoopPhase, in_phase, next};

verus! {

/// What a call of `start` asks its caller to do.
#[derive(Clone, Copy, Debug, PartialEq, Eq)]
pub enum StartOutcome {
    /// Run this loop on a background execution unit of its own.
    Spawn(CaptureLoop),
    /// A stream is already wanted: spawn nothing.
    AlreadyStreaming,
}

/// A call on the session, for statements about runs of calls.
pub enum SessionCommand {
    Start { target: Option<u32>, quality: Quality },
    Stop,
}

/// `start` on a session with the given flag: the flag afterwards, and the
/// outcome. Only a session that was not streaming spawns a loop, and that
/// loop carries the new generation of the flag.
pub open spec fn start_of(flag: StreamFlag, target: Option<u32>, quality: Quality) -> (
    StreamFlag,
    StartOutcome,
) {
    if flag.streaming {
        (flag, StartOutcome::AlreadyStreaming)
    } else {
        let generation = next_generation(flag.generation);
        (
            StreamFlag { streaming: true, generation },
            StartOutcome::Spawn(
                CaptureLoop { phase: LoopPhase::Resolving { target }, quality, generation },
            ),
        )
    }
}

/// `stop` on a session with the given flag: the flag afterwards. The
/// generation stays.
pub open spec fn stop_of(flag: StreamFlag) -> StreamFlag {
    StreamFlag { streaming: false, generation: flag.generation }
}

/// The flag after one call.
pub open spec fn flag_after_one(flag: StreamFlag, command: SessionCommand) -> StreamFlag {
    match command {
        SessionCommand::Start { target, quality } => start_of(flag, target, quality).0,
        SessionCommand::Stop => stop_of(flag),
    }
}

/// The flag after a run of calls, one after the other.
pub open spec fn flag_after(flag: StreamFlag, commands: Seq<SessionCommand>) -> StreamFlag
    decreases commands.len(),
{
    if commands.len() == 0 {
        flag
    } else {
        flag_after_one(flag_after(flag, commands.drop_last()), commands.last())
    }
}

/// How many loops a run of calls spawns.
pub open spec fn spawn_count(flag: StreamFlag, commands: Seq<SessionCommand>) -> nat
    decreases commands.len(),
{
    if commands.len() == 0 {
        0
    } else {
        let before = flag_after(flag, commands.drop_last());
        let spawned: nat = if commands.last() is Start && !before.streaming {
            1
        } else {
            0
        };
        spawn_count(flag, commands.drop_last()) + spawned
    }
}

/// Any number of `start` calls in succession, with no `stop` between them,
/// spawn one loop on an idle session and none on a streaming one, and leave
/// the session streaming.
pub proof fn lemma_repeated_start_spawns_once(flag: StreamFlag, commands: Seq<SessionCommand>)
    requires
        commands.len() >= 1,
        forall|i: int| 0 <= i < commands.len() ==> #[trigger] commands[i] is Start,
    ensures
        flag_after(flag, commands).streaming,
        spawn_count(flag, commands) == if flag.streaming {
            0nat
        } else {
            1nat
        },
    decreases commands.len(),
{
    let front = commands.drop_last();
    assert(commands.last() == commands[commands.len() - 1]);
    if front.len() >= 1 {
        assert forall|i: int| 0 <= i < front.len() implies #[trigger] front[i] is Start by {
            assert(front[i] == commands[i]);
        }
        lemma_repeated_start_spawns_once(flag, front);
    } else {
        assert(flag_after(flag, front) == flag);
        assert(spawn_count(flag, front) == 0);
    }
}

/// `stop` followed by `start` leaves the flag set and spawns a fresh loop,
/// whatever the session was doing before. The fresh loop is of another
/// generation than any loop spawned before it, and the flag permits it.
pub proof fn lemma_stop_then_start(flag: StreamFlag, target: Option<u32>, quality: Quality)
    ensures
        !stop_of(flag).streaming,
        start_of(stop_of(flag), target, quality) == (
            StreamFlag { streaming: true, generation: next_generation(flag.generation) },
            StartOutcome::Spawn(
                CaptureLoop {
                    phase: LoopPhase::Resolving { target },
                    quality,
                    generation: next_generation(flag.generation),
                },
            ),
        ),
        next_generation(flag.generation) != flag.generation,
        permits(start_of(stop_of(flag), target, quality).0, next_generation(flag.generation)),
{
}

/// The generation of the flag counts the loops spawned, modulo 2^32.
pub proof fn lemma_generation_counts_spawns(flag: StreamFlag, commands: Seq<SessionCommand>)
    ensures
        flag_after(flag, commands).generation == (flag.generation + spawn_count(flag, commands))
            % 0x1_0000_0000,
    decreases commands.len(),
{
    if commands.len() > 0 {
        let front = commands.drop_last();
        lemma_generation_counts_spawns(flag, front);
        lemma_next_generation(flag_after(flag, front).generation);
    }
}

/// At most one loop runs on a session. A loop that waits for the flag and
/// was spawned at the flag's generation ends at its next reading once the
/// session has spawned another loop since, however many calls of `stop` and
/// `start` came between, short of 2^32 loops.
pub proof fn lemma_earlier_loop_is_retired(
    flag: StreamFlag,
    commands: Seq<SessionCommand>,
    earlier: CaptureLoop,
)
    requires
        earlier.phase is Polling,
        earlier.generation == flag.generation,
        0 < spawn_count(flag, commands) < 0x1_0000_0000,
    ensures
        !permits(flag_after(flag, commands), earlier.generation),
        next(earlier, LoopEventView::Flag(flag_after(flag, commands))) == (
            in_phase(earlier, LoopPhase::Finished),
            LoopEffectView::Idle,
        ),
{
    lemma_generation_counts_spawns(flag, commands);
}

/// Asks for a stream of the monitor `target`, or of the primary monitor, else
/// the first, where `target` is `None`, on a session with the given flag.
///
/// Returns the flag as it is to be afterwards, which always wants a stream,
/// and the outcome: where a stream was wanted already nothing is spawned and
/// the flag stays; otherwise the flag moves on to the next generation and the
/// caller is handed the loop of that generation to spawn. The request never
/// fails: what goes wrong in the loop is the loop's to report.
pub fn start_streaming(flag: StreamFlag, target: Option<u32>, quality: Quality) -> (res: (
    StreamFlag,
    StartOutcome,
))
    ensures
        res == start_of(flag, target, quality),
{
    if flag.streaming {
        (flag, StartOutcome::AlreadyStreaming)
    } else {
        let renewed = flag.renewed();
        (renewed, StartOutcome::Spawn(CaptureLoop::new(target, quality, renewed.generation)))
    }
}

/// Withdraws the wish for a stream on a session with the given flag.
///
/// Returns the flag as it is to be afterwards: no stream wanted, whether or
/// not one was, at the same generation.
pub fn stop_streaming(flag: StreamFlag) -> (res: StreamFlag)
    ensures
        res == stop_of(flag),
{
    StreamFlag { streaming: false, generation: flag.generation }
}

/// The control plane's handle on streaming.
///
/// It keeps the streaming flag. A session starts idle. `start` sets the flag
/// and `stop` clears it, as often as wanted; the loop never writes the flag,
/// is told its value once per iteration and ends when that no longer permits
/// it. No call waits for the loop.
#[derive(Clone, Copy, Debug, PartialEq, Eq)]
pub struct StreamingSession {
    flag: StreamFlag,
}

impl View for StreamingSession {
    type V = StreamFlag;

    /// The streaming flag.
    closed spec fn view(&self) -> StreamFlag {
        self.flag
    }
}

impl StreamingSession {
    /// A session at process start: not streaming, no loop asked for yet.
    pub fn new() -> (res: StreamingSession)
        ensures
            res@ == (StreamFlag { streaming: false, generation: 0 }),
    {
        StreamingSession { flag: StreamFlag::idle() }
    }

    /// Whether a stream is wanted.
    pub fn is_streaming(&self) -> (res: bool)
        ensures
            res == self@.streaming,
    {
        self.flag.streaming
    }

    /// The flag as it stands, to hand to the loop or to keep where the loop
    /// can read it.
    pub fn flag(&self) -> (res: StreamFlag)
        ensures
            res == self@,
    {
        self.flag
    }

    /// A session with the given flag, for a caller that keeps the flag
    /// itself in a place where its loop can read it.
    pub fn with_flag(flag: StreamFlag) -> (res: StreamingSession)
        ensures
            res@ == flag,
    {
        StreamingSession { flag }
    }

    /// Asks for a stream, as [`start_streaming`] does on the flag of this
    /// session: a stream is wanted afterwards, and the outcome is to spawn
    /// the loop for this very request where none was wanted before, and
    /// nothing where one was.
    pub fn start(&mut self, target: Option<u32>, quality: Quality) -> (outcome: StartOutcome)
        ensures
            (final(self)@, outcome) == start_of(old(self)@, target, quality),
    {
        let (flag, outcome) = start_streaming(self.flag, target, quality);
        self.flag = flag;
        outcome
    }

    /// Withdraws the wish for a stream, as [`stop_streaming`] does: no
    /// stream is wanted afterwards. A running loop ends when it is next told
    /// the flag.
    pub fn stop(&mut self)
        ensures
            final(self)@ == stop_of(old(self)@),
    {
        self.flag = stop_streaming(self.flag);
    }
}

} // verus!
