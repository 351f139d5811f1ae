//! Time services for a hosted kernel: a monotonic clock, a wall clock and
//! deadline waits, served through a polled, message-passing driver.

pub mod clock;
pub mod codec;
pub mod guarantees;
pub mod handler;
pub mod interface;
pub mod message;
pub mod timers;
pub mod webgpu;
