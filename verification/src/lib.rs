//! A verified dual-timer chess clock engine.
//!
//! The heart of the crate is a single start/stop timer (`Clock`) with
//! count-up and count-down modes, and a `ChessClock` that coordinates two
//! count-down `Clock`s so that at most one runs at a time, applying a
//! per-move increment (Fischer or Bronstein) when the players switch.
//!
//! The engine never reads the wall clock itself: every time-dependent
//! operation takes the current `Instant` as an argument, so the whole state
//! machine is ordinary verified code. The driver (a UI or CLI loop) samples
//! real time and passes it in.

mod chess_clock;
mod clock;
mod duration_display;
mod times;

pub use crate::chess_clock::{
    ChessClock, ChessClockModel, Player, Rules, RulesModel, Status, TimingMethod,
};
pub use crate::clock::{Clock, ClockMode, ClockModel, ClockState, ClockStateModel};
pub use crate::duration_display::DurationDisplay;
pub use crate::times::{Duration, Instant};
