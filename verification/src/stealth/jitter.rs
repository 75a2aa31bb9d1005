//! Delays for discrete actions. Every distribution is bounded, and none is a
//! constant.

use crate::stealth::random::{chance, uniform_below, uniform_through};
use rand::rngs::ThreadRng;
use vstd::math::{max, min};
use vstd::prelude::*;

verus! {

/// Shortest keystroke gap and click hold, in milliseconds.
pub const KEY_MIN_MS: u64 = 80;

/// Keystroke gaps and click holds stay below this, in milliseconds.
pub const KEY_END_MS: u64 = 180;

/// Shortest thinking pause, in milliseconds.
pub const THINK_MIN_MS: u64 = 200;

/// Thinking pauses stay below this, in milliseconds.
pub const THINK_END_MS: u64 = 800;

/// Shortest base of a reading pause, in milliseconds.
pub const READ_MIN_MS: u64 = 300;

/// Longest base of a reading pause, in milliseconds.
pub const READ_MAX_MS: u64 = 3000;

/// The variation of a delay around `base_ms`: three tenths of it, rounded
/// down.
pub open spec fn variation(base_ms: u64) -> int {
    base_ms * 3 / 10
}

/// The shortest delay that `human_delay` gives for `base_ms`.
pub open spec fn human_delay_min(base_ms: u64) -> int {
    base_ms - variation(base_ms)
}

/// The longest delay that `human_delay` gives for `base_ms`.
pub open spec fn human_delay_max(base_ms: u64) -> int {
    min(base_ms + variation(base_ms), u64::MAX as int)
}

/// The base of the pause for reading `content_length` characters: 200 ms for
/// every five characters, kept within 0.3 s and 3 s.
pub open spec fn reading_base(content_length: usize) -> int {
    max(READ_MIN_MS as int, min(content_length * 40, READ_MAX_MS as int))
}

/// Every delay around `base_ms` lies between seven tenths of it, rounded
/// down, and thirteen tenths of it, rounded up; the base itself is among
/// them, and from a base of 10 on so is at least one other value.
pub proof fn law_human_delay_range(base_ms: u64)
    ensures
        base_ms * 7 / 10 <= human_delay_min(base_ms) <= base_ms,
        base_ms <= human_delay_max(base_ms) <= (base_ms * 13 + 9) / 10,
        base_ms >= 10 ==> human_delay_min(base_ms) < human_delay_max(base_ms),
{
}

/// The shortest and the longest delay that `human_delay` gives for
/// `base_ms`, in milliseconds.
pub fn human_delay_range(base_ms: u64) -> (range: (u64, u64))
    ensures
        range.0 == human_delay_min(base_ms),
        range.1 == human_delay_max(base_ms),
        range.0 <= range.1,
{
    let spread: u64 = ((base_ms as u128 * 3) / 10) as u64;
    (base_ms - spread, base_ms.saturating_add(spread))
}

/// A source of human-like timing.
pub struct BehavioralJitter {
    rng: ThreadRng,
}

impl BehavioralJitter {
    /// A jitter source on the random generator of the current thread.
    pub fn new() -> (jitter: BehavioralJitter) {
        BehavioralJitter { rng: rand::thread_rng() }
    }

    /// A delay in milliseconds, within three tenths of `base_ms`: never
    /// below seven tenths of it rounded down, never above thirteen tenths of
    /// it rounded up.
    pub fn human_delay(&mut self, base_ms: u64) -> (delay_ms: u64)
        ensures
            human_delay_min(base_ms) <= delay_ms <= human_delay_max(base_ms),
            base_ms * 7 / 10 <= delay_ms <= (base_ms * 13 + 9) / 10,
    {
        proof {
            law_human_delay_range(base_ms);
        }
        let (low, high): (u64, u64) = human_delay_range(base_ms);
        uniform_through(&mut self.rng, low, high)
    }

    /// The timing of one click in milliseconds: the delay before the press,
    /// the time the button is held, and the delay before the release.
    pub fn click_timing(&mut self) -> (timing: (u64, u64, u64))
        ensures
            human_delay_min(50) <= timing.0 <= human_delay_max(50),
            KEY_MIN_MS <= timing.1 < KEY_END_MS,
            human_delay_min(30) <= timing.2 <= human_delay_max(30),
    {
        let press_delay: u64 = self.human_delay(50);
        let hold: u64 = uniform_below(&mut self.rng, KEY_MIN_MS, KEY_END_MS);
        let release_delay: u64 = self.human_delay(30);
        (press_delay, hold, release_delay)
    }

    /// The gap before the next keystroke, in milliseconds.
    pub fn keystroke_delay(&mut self) -> (delay_ms: u64)
        ensures
            KEY_MIN_MS <= delay_ms < KEY_END_MS,
    {
        uniform_below(&mut self.rng, KEY_MIN_MS, KEY_END_MS)
    }

    /// A short hesitation, in milliseconds.
    pub fn thinking_pause(&mut self) -> (delay_ms: u64)
        ensures
            THINK_MIN_MS <= delay_ms < THINK_END_MS,
    {
        uniform_below(&mut self.rng, THINK_MIN_MS, THINK_END_MS)
    }

    /// The base of a reading pause, before variation.
    pub fn reading_base_ms(content_length: usize) -> (base_ms: u64)
        ensures
            base_ms == reading_base(content_length),
    {
        if content_length >= 75 {
            READ_MAX_MS
        } else if content_length <= 7 {
            READ_MIN_MS
        } else {
            (content_length * 40) as u64
        }
    }

    /// A pause for scanning `content_length` characters, in milliseconds.
    pub fn reading_pause(&mut self, content_length: usize) -> (delay_ms: u64)
        ensures
            human_delay_min(reading_base(content_length) as u64) <= delay_ms <= human_delay_max(
                reading_base(content_length) as u64,
            ),
    {
        let base_ms: u64 = Self::reading_base_ms(content_length);
        self.human_delay(base_ms)
    }

    /// Whether to insert an idle action now: true one time in ten.
    pub fn should_add_micro_action(&mut self) -> (add: bool) {
        chance(&mut self.rng, 1, 10)
    }
}

impl Default for BehavioralJitter {
    fn default() -> (jitter: BehavioralJitter) {
        BehavioralJitter::new()
    }
}

} // verus!
