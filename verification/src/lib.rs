//! Verified core of a laptop power-management controller.
//!
//! The library holds the logic of the controller: decoding and encoding of
//! the kernel's text control values, the cross-core consistency checks, the
//! scheduler-tick load computation, the event classifier, the power state
//! machine, and the planner that turns a target state into control writes.
//! The surrounding process — opening and reading the control files, the
//! device-notification socket, the service manager — lives outside and hands
//! the library plain values.

pub mod battery;
pub mod cpu;
pub mod events;
pub mod fds;
pub mod parse;
pub mod setup;
pub mod system_state;
pub mod utils;
