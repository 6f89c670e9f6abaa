//! Brightness control for physical displays over a monitor-control channel.
//!
//! The channel itself (enumerating the attached displays, refreshing their
//! capabilities, reading and writing a feature value) is driven by the caller.
//! This crate holds everything that is decided around it: which displays are
//! worth reporting, what an enumeration returns, which display a write is
//! addressed to, and how failures of single devices are kept apart from
//! failures of the whole call.
//!
//! - [`display`]: the identity of a display, the rule for reporting it, and
//!   the record of an enumeration.
//! - [`enumerator`]: the enumeration as a machine from events to actions.
//! - [`setter`]: the plan of a write and the result of setting a brightness.
//! - [`simulation`]: a channel in memory, enumerated and set through the
//!   machine and the plan.
//! - [`laws`]: what holds of every enumeration and of every write.

pub mod display;
pub mod enumerator;
pub mod setter;
pub mod simulation;
pub mod laws;
