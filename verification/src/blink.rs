//! The colon-blink accumulator owned by the frame loop.
//!
//! The renderer never blinks by itself: the embedding loop accumulates the
//! per-frame elapsed time here and flips the colon flag each half second of
//! real time while the timer runs. While the timer is not running the colon
//! is forced visible.

use vstd::prelude::*;

verus! {

/// Milliseconds of real time between colon flips.
pub const BLINK_INTERVAL_MS: u64 = 500;

pub struct Blink {
    /// Whether the colon is currently drawn.
    pub show_colon: bool,
    /// Milliseconds accumulated since the last flip.
    pub colon_timer_ms: u64,
}

/// The colon flag after one frame: forced visible while not running,
/// flipped once the accumulator reaches the interval, otherwise kept.
pub open spec fn blink_shown(shown: bool, accum_ms: int, dt_ms: int, running: bool) -> bool {
    if !running {
        true
    } else if accum_ms + dt_ms >= BLINK_INTERVAL_MS {
        !shown
    } else {
        shown
    }
}

/// The accumulator after one frame: held while not running, cleared on a
/// flip, otherwise grown by the frame's elapsed time.
pub open spec fn blink_accum(accum_ms: int, dt_ms: int, running: bool) -> int {
    if !running {
        accum_ms
    } else if accum_ms + dt_ms >= BLINK_INTERVAL_MS {
        0
    } else {
        accum_ms + dt_ms
    }
}

impl Blink {
    /// Structural invariant: the accumulator never reaches the interval,
    /// since reaching it clears it.
    pub open spec fn wf(self) -> bool {
        self.colon_timer_ms < BLINK_INTERVAL_MS
    }

    pub fn new() -> (blink: Blink)
        ensures
            blink.wf(),
            blink.show_colon,
            blink.colon_timer_ms == 0,
    {
        Blink { show_colon: true, colon_timer_ms: 0 }
    }

    /// Account one frame's elapsed milliseconds. At most one flip happens
    /// per frame, however large the frame's delta was.
    pub fn step(&mut self, dt_ms: u64, running: bool)
        requires
            old(self).wf(),
        ensures
            final(self).wf(),
            final(self).show_colon == blink_shown(
                old(self).show_colon,
                old(self).colon_timer_ms as int,
                dt_ms as int,
                running,
            ),
            final(self).colon_timer_ms == blink_accum(
                old(self).colon_timer_ms as int,
                dt_ms as int,
                running,
            ),
    {
        if !running {
            self.show_colon = true;
            return;
        }
        if dt_ms >= BLINK_INTERVAL_MS || self.colon_timer_ms + dt_ms >= BLINK_INTERVAL_MS {
            self.colon_timer_ms = 0;
            self.show_colon = !self.show_colon;
        } else {
            self.colon_timer_ms = self.colon_timer_ms + dt_ms;
        }
    }
}

impl Default for Blink {
    /// A fresh frame loop shows the colon with nothing accumulated.
    fn default() -> (blink: Blink)
        ensures
            blink.wf(),
            blink.show_colon,
            blink.colon_timer_ms == 0,
    {
        Blink::new()
    }
}

} // verus!
