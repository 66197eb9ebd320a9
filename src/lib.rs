//! A single-user work/break timer daemon: its wire protocol, its session
//! state machine, the timer decision and the per-connection serving step.
pub mod protocol;
pub mod session;
pub mod clock;
pub mod server;
pub mod client;
