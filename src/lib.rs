//! Device-session core for CAN-bus adapters of two driver families
//! (ControlCAN-style "VCI" adapters and PCAN-Basic adapters).
//!
//! The native driver is not called from here: a session decides which
//! driver call comes next, and the caller performs it and reports the reply.

/// driver data layouts and the bit-rate tables of both families
pub mod cantypes;
/// the configuration file's contents and its number syntax
pub mod config;
/// what a poller makes of one poll of the driver
pub mod frame;
/// laws of the session lifecycle over whole sequences of driver replies
pub mod lifecycle;
/// the device session: state machine, driver calls and log records
pub mod session;
