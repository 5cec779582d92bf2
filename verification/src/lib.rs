//! Policy core of a minimal stacking window manager.
//!
//! The library decides, for every compositor-reported event, what the
//! resulting window layout and focus state should be.  It is pure: every
//! handler works on a model of one output's state and returns the commands
//! the compositor backend must perform.  The backend itself (event delivery,
//! compositing, input devices, process spawning) lives outside the library.

pub mod dispatch;
pub mod geometry;
pub mod keys;
pub mod stack;
