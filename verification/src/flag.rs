//! The streaming flag: the one value that the control plane and the loop
//! share.
//!
//! It says whether a stream is wanted and counts the loops that were asked
//! for. Each loop carries the count at which it was spawned, so a loop that a
//! later `start` has replaced tells from the flag that it is to end, also
//! where a `stop` and a `start` came between two of its readings.

use vstd::prelude::*;

verus! {

/// What the streaming flag holds.
#[derive(Clone, Copy, Debug, PartialEq, Eq)]
pub struct StreamFlag {
    /// Whether a stream is wanted.
    pub streaming: bool,
    /// The number of the loop that was asked for last, 0 before the first.
    pub generation: u32,
}

/// The number of the loop after the one numbered `generation`. The count
/// starts over after `u32::MAX`.
pub open spec fn next_generation(generation: u32) -> u32 {
    if generation == u32::MAX {
        0
    } else {
        (generation + 1) as u32
    }
}

/// Whether the flag lets the loop numbered `generation` go on: a stream is
/// wanted, and it is this loop that was asked for last.
pub open spec fn permits(flag: StreamFlag, generation: u32) -> bool {
    flag.streaming && flag.generation == generation
}

/// The flag as one word: the generation doubled, plus one where a stream is
/// wanted.
pub open spec fn word_of(flag: StreamFlag) -> u64 {
    (flag.generation * 2 + if flag.streaming {
        1int
    } else {
        0int
    }) as u64
}

/// The flag that a word stands for: streaming where the word is odd, and
/// half the word, taken modulo 2^32, as the generation.
pub open spec fn flag_of(word: u64) -> StreamFlag {
    StreamFlag { streaming: word % 2 == 1, generation: (word / 2 % 0x1_0000_0000) as u32 }
}

/// A flag comes back unchanged from its word.
pub proof fn lemma_word_round_trip(flag: StreamFlag)
    ensures
        flag_of(word_of(flag)) == flag,
{
}

/// The number after `generation` is another number, and it is `generation`
/// plus one modulo 2^32.
pub proof fn lemma_next_generation(generation: u32)
    ensures
        next_generation(generation) != generation,
        next_generation(generation) == (generation + 1) % 0x1_0000_0000,
{
}

impl StreamFlag {
    /// The flag at process start: no stream wanted, no loop asked for yet.
    pub fn idle() -> (res: StreamFlag)
        ensures
            res == (StreamFlag { streaming: false, generation: 0 }),
    {
        StreamFlag { streaming: false, generation: 0 }
    }

    /// Whether the flag lets the loop numbered `generation` go on.
    pub fn permits(&self, generation: u32) -> (res: bool)
        ensures
            res == permits(*self, generation),
    {
        self.streaming && self.generation == generation
    }

    /// The flag with a stream wanted from the next loop on.
    pub fn renewed(&self) -> (res: StreamFlag)
        ensures
            res == (StreamFlag {
                streaming: true,
                generation: next_generation(self.generation),
            }),
    {
        let generation: u32 = if self.generation == u32::MAX {
            0
        } else {
            self.generation + 1
        };
        StreamFlag { streaming: true, generation }
    }

    /// Packs the flag into one word, for a caller that keeps it where it can
    /// be read and written in one step.
    pub fn to_word(&self) -> (word: u64)
        ensures
            word == word_of(*self),
    {
        let wanted: u64 = if self.streaming {
            1
        } else {
            0
        };
        (self.generation as u64) * 2 + wanted
    }

    /// Unpacks a word into the flag it stands for. Every word stands for a
    /// flag, and the word of a flag stands for that flag.
    pub fn from_word(word: u64) -> (flag: StreamFlag)
        ensures
            flag == flag_of(word),
            forall|packed: StreamFlag| word == word_of(packed) ==> flag == packed,
    {
        StreamFlag { streaming: word % 2 == 1, generation: (word / 2 % 0x1_0000_0000) as u32 }
    }
}

} // verus!
