//! A bridge between one client connection and a CAN bus transceiver.
//!
//! The crate holds the parts of the bridge that compute: the text form of a
//! bus frame, the JSON envelope sent to the client, the open/closed state of
//! the device session, and the state machine that decides what the bridge
//! does on each event. Reading from and writing to the client and the device
//! is left to the program that drives the state machine.

pub mod base16;
pub mod bridge;
pub mod config;
pub mod decimal;
pub mod envelope;
pub mod frame;
pub mod session;
pub mod trace;
