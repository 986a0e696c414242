//! Forwards operator-supplied text into an attached device's system log.
//!
//! The library holds the decisions: which row of a device listing names the
//! device, what a log entry holds, which bridge-utility arguments inject it,
//! and what the interactive loop does with each input event. Running the
//! bridge utility and reading standard input is left to the caller.
pub mod adb;
pub mod entry;
pub mod session;
