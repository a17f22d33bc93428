//! Verified core of a driver for the CH347 USB bus converter used as a JTAG probe.
//!
//! The library holds the probe's protocol encodings, its clock-speed negotiation
//! rules, the device selection by USB identifiers, and the probe state. USB transfers
//! are performed by the caller, which hands the library plain values.
pub mod bits;
pub mod error;
pub mod probe;
pub mod protocol;
pub mod laws;
