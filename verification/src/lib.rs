//! Verified core of a C64 emulator's timing clock and memory debugger:
//! the clock's drift bookkeeping, the debugger's view state, the decoding of
//! the VIC-II registers it shows, and the exact list of drawing commands that
//! make up one debugger frame.

pub mod text;
pub mod clock;
pub mod draw;
pub mod vic;
pub mod debugger;
