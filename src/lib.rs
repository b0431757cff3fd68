//! Decides what to send to a BLE fan controller, and when.
//!
//! The radio work (adapters, scanning, GATT transport) happens outside this
//! library. The library holds the decisions: which peripheral to take, which
//! characteristic to write, what bytes to write, and in which order the steps
//! of one session run.
pub mod duty;
pub mod scan;
pub mod error;
pub mod characteristic;
pub mod command;
pub mod session;
