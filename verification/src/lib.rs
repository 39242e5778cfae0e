//! Core of a desktop countdown timer with a pixel-block digit display.
//!
//! The crate has two halves that never interact beyond one producing the
//! numbers the other draws:
//!
//! * [`timer`] — the countdown state machine: duration, remaining time and
//!   run state, advanced once per frame against a monotonic clock.
//! * [`display`] — a pure renderer that turns an MM:SS reading into a list
//!   of filled-rectangle commands from fixed 7x5 digit bitmaps.
//!
//! [`blink`] holds the small accumulator the frame loop uses to blink the
//! colon while the timer runs.
//!
//! Window creation, buttons and theming are left to the embedding GUI; the
//! library only ever exchanges plain numbers and draw commands with it.

pub mod blink;
pub mod clock;
pub mod display;
pub mod timer;
