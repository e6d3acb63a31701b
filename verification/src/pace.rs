//! The pauses that keep the retrieval polite: a rest of random length after
//! every page, and a fixed pause between two chapters.

use vstd::prelude::*;

verus! {

/// Nanoseconds in a millisecond.
pub const NANOS_PER_MILLI: u128 = 1_000_000;

/// The pause between two chapters, in seconds.
pub const CHAPTER_PAUSE_SECONDS: u64 = 5;

/// The shortest rest for a delay of `base_ms` milliseconds, in nanoseconds:
/// half the delay.
pub open spec fn shortest_rest(base_ms: u64) -> nat {
    (base_ms as nat * NANOS_PER_MILLI as nat) / 2
}

/// The longest rest for a delay of `base_ms` milliseconds, in nanoseconds:
/// one and a half times the delay.
pub open spec fn longest_rest(base_ms: u64) -> nat {
    (base_ms as nat * NANOS_PER_MILLI as nat) * 3 / 2
}

/// The shortest and the longest rest for a delay of `base_ms` milliseconds,
/// in nanoseconds.
pub fn rest_bounds(base_ms: u64) -> (bounds: (u128, u128))
    ensures
        bounds.0 == shortest_rest(base_ms),
        bounds.1 == longest_rest(base_ms),
        bounds.0 <= bounds.1,
{
    let base: u128 = base_ms as u128 * NANOS_PER_MILLI;
    (base / 2, base * 3 / 2)
}

/// Calls `rand::rng` and `rand::Rng::random_range` on the inclusive range
/// from `low` to `high`. The crate panics on an empty range, so the contract
/// leaves that out. Of the number drawn it claims only that it lies in the
/// range; two calls may differ.
#[verifier::external_body]
pub(crate) fn random_between(low: u128, high: u128) -> (drawn: u128)
    requires
        low <= high,
    ensures
        low <= drawn <= high,
{
    rand::Rng::random_range(&mut rand::rng(), low..=high)
}

/// Draws the length of the rest after a page, in nanoseconds, from the whole
/// range between half the delay and one and a half times the delay, both
/// ends included.
pub fn draw_rest(base_ms: u64) -> (nanos: u128)
    ensures
        shortest_rest(base_ms) <= nanos <= longest_rest(base_ms),
{
    let (low, high) = rest_bounds(base_ms);
    random_between(low, high)
}

/// Whether chapters remain after the one at `position` among `selected`.
pub open spec fn chapters_remain(position: usize, selected: usize) -> bool {
    position + 1 < selected
}

/// The pause after the chapter at `position` among `selected` chosen ones,
/// in seconds: the fixed pause where more chapters remain, none after the
/// last.
pub fn pause_after_chapter(position: usize, selected: usize) -> (pause: Option<u64>)
    ensures
        pause == if chapters_remain(position, selected) {
            Some(CHAPTER_PAUSE_SECONDS)
        } else {
            None
        },
{
    if position < selected && selected - position > 1 {
        Some(CHAPTER_PAUSE_SECONDS)
    } else {
        None
    }
}

} // verus!
