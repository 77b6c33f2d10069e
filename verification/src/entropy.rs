//! Where the machine's random bytes come from.

use rand::rngs::mock::StepRng;
use rand::rngs::ThreadRng;
use rand::RngCore;
use vstd::prelude::*;

verus! {

/// `rand::rngs::ThreadRng`, a handle to the generator of the current thread.
/// Nothing is known of what it holds.
#[verifier::external_type_specification]
#[verifier::external_body]
pub struct ExThreadRng(ThreadRng);

/// `rand::thread_rng` hands out the generator of the current thread. Nothing
/// is claimed of it. The first call on a thread seeds the generator from the
/// operating system and does not return if that source fails.
pub assume_specification[ rand::thread_rng ]() -> (rng: ThreadRng)
;

/// `RngCore::next_u32` of `ThreadRng`: the next 32 random bits. Any value may
/// come back.
#[verifier::external_body]
fn thread_next_u32(rng: &mut ThreadRng) -> (word: u32) {
    rng.next_u32()
}

/// One draw from `rand::rngs::mock::StepRng`. `StepRng::new(next, step)` is
/// the generator that yields `next` first and adds `step` for each number
/// after it, wrapping round at 64 bits. `RngCore::next_u32` hands out the low
/// 32 bits of the number whose turn it is, and the `RngCore::next_u64` after
/// it shows the number that the generator has moved on to.
#[verifier::external_body]
fn step_draw(next: u64, step: u64) -> (drawn: (u32, u64))
    ensures
        drawn.0 == next % 0x1_0000_0000,
        drawn.1 == (next + step) % 0x1_0000_0000_0000_0000,
{
    let mut rng = StepRng::new(next, step);
    let word = rng.next_u32();
    (word, rng.next_u64())
}

/// The generator that a machine draws its random bytes from.
pub enum RandomSource {
    /// The generator of the current thread, seeded by the operating system.
    Thread(ThreadRng),
    /// A fixed arithmetic sequence of 64-bit numbers, for runs that must
    /// repeat.
    Step {
        /// The number whose turn it is.
        next: u64,
        /// What is added for the number after it, wrapping round.
        step: u64,
    },
}

impl RandomSource {
    /// The generator of the current thread.
    pub fn thread() -> (source: RandomSource)
        ensures
            source is Thread,
    {
        RandomSource::Thread(rand::thread_rng())
    }

    /// Draws 32 bits and keeps the low eight. A step source yields the low
    /// byte of the number whose turn it is and moves on by its step; of the
    /// thread's generator any byte may come.
    pub fn next_byte(&mut self) -> (byte: u8)
        ensures
            match *old(self) {
                RandomSource::Thread(_) => *final(self) is Thread,
                RandomSource::Step { next, step } => {
                    &&& byte == next % 256
                    &&& *final(self) == (RandomSource::Step {
                        next: ((next + step) % 0x1_0000_0000_0000_0000) as u64,
                        step,
                    })
                },
            },
    {
        let word = match self {
            RandomSource::Thread(rng) => thread_next_u32(rng),
            RandomSource::Step { next, step } => {
                let turn = *next;
                let (word, after) = step_draw(turn, *step);
                *next = after;
                assert((turn % 0x1_0000_0000) % 256 == turn % 256) by (bit_vector);
                word
            },
        };
        low_byte(word)
    }
}

/// The low eight bits of a word.
pub fn low_byte(word: u32) -> (byte: u8)
    ensures
        byte == word % 256,
{
    (word % 256) as u8
}

} // verus!
