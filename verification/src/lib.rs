//! Background coordination core of a desktop focus-timer application.
//!
//! The library holds the application's shared state and the decision logic of
//! its long-lived background tasks: a broadcast status channel, an update
//! workflow with progress coalescing, a periodic idle-reminder scheduler, and
//! the body of a loopback status endpoint. Everything here is pure logic over
//! plain values; the surrounding process (windowing, HTTP serving, timers)
//! drives it and performs the actual I/O.

pub mod channel;
pub mod focus;
pub mod idle;
pub mod server;
pub mod status;
pub mod update;
