//! Control core for a wireless remote-control transmitter.
//!
//! The device pairs with exactly one peer over a connectionless radio
//! protocol and then streams a fixed, repeating sequence of control
//! commands to it.  This crate holds the verified core: frame
//! classification, the one-way discovery state machine, probe timing,
//! cyclic command dispatch and the send-failure policy.  The radio
//! driver, clock and indicator hardware live outside the crate and hand
//! plain values in and out.

pub mod actions;
pub mod address;
pub mod discovery;
pub mod laws;
