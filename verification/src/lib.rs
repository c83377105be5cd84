//! Core of a browser-hosted 2D sprite-animation game runner.
//!
//! The library holds the verified logic of the runner: the fixed-timestep
//! accumulator that schedules simulation steps between display-refresh
//! callbacks, the keyboard-event queue drained once per rendered frame into
//! a key-state map, the one-shot bridge that turns a pair of load/error
//! callbacks into a single resolved result, and the renderer that turns a
//! game's drawing requests into explicit commands for the host surface.
//! The host glue (browser window, canvas, image elements, event
//! registration) lives outside the library and hands it plain values.

pub mod assoc;
pub mod engine;
pub mod game;
pub mod input;
pub mod loader;
