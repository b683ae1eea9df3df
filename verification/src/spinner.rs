//! The spinner: an indeterminate animation that cycles a small fixed
//! set of rotating glyphs at a fixed per-frame delay, for waits where
//! no fraction-complete is meaningful.
use vstd::prelude::*;

verus! {

/// Milliseconds between two spinner frames.
pub const SPIN_FRAME_MS: u64 = 100;

/// The rotating glyph shown on the `i`-th spinner frame.
pub open spec fn spec_spin_glyph(i: int) -> char {
    let r = i % 4;
    if r == 0 {
        '|'
    } else if r == 1 {
        '/'
    } else if r == 2 {
        '-'
    } else {
        '\\'
    }
}

/// How many frames a spinner run of the given length shows: one frame
/// per `SPIN_FRAME_MS`, and always at least one.
pub open spec fn spec_spin_count(duration_ms: int) -> int {
    duration_ms / (SPIN_FRAME_MS as int) + 1
}

/// An indeterminate spinner.  It keeps no state of its own: each run
/// starts the glyph cycle afresh.
pub struct Spinner {}

impl Spinner {
    pub fn new() -> (r: Spinner) {
        Spinner {  }
    }
}

pub fn spin_glyph(i: u64) -> (r: char)
    ensures
        r == spec_spin_glyph(i as int),
{
    let m = i % 4;
    if m == 0 {
        '|'
    } else if m == 1 {
        '/'
    } else if m == 2 {
        '-'
    } else {
        '\\'
    }
}

} // verus!
