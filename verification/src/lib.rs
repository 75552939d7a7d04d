//! Remapping of the buttons of a Razer Naga V2 HyperSpeed mouse: the model of
//! what a button can be bound to, the 91-byte feature report that carries one
//! binding to the device, and the exchange that tells whether the device took
//! it.
//!
//! The bytes of a report are counted from the report id: it is byte 0 of the
//! 91, and always 0. A transport that wants the id as the first byte of what
//! it is handed is handed the report as it is.

pub mod checksum;
pub mod controls;
pub mod encoder;
pub mod error;
pub mod injective;
pub mod keys;
pub mod model;
pub mod session;
