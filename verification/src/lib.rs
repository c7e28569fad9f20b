//! Verified core of a network-controllable light switch with a daily
//! on/off schedule.
//!
//! The crate holds the decisions of the device and no I/O: what a control
//! request does to the light and to the persisted schedule, what the
//! once-a-second scheduler does at a given wall-clock time, and what the
//! status page says. The caller owns the sockets, the key-value store, the
//! output pin and the sleep between two scheduler polls.

pub mod clock;
pub mod control;
pub mod device;
pub mod light;
pub mod page;
pub mod schedule;
pub mod text;
