//! Bridge from a network lighting-control stream to a USB DMX512 interface.
//!
//! The crate provides the pieces of that bridge that are pure logic: the
//! single-slot latest-value frame exchange between the receiving and the
//! transmitting side, and the byte-level encoders for the two supported
//! USB controllers. The I/O around them (UDP receive, USB transfers,
//! command-line handling) lives in the accompanying application.

pub mod anyma;
pub mod buffer;
pub mod controller;
pub mod eurolite_pro;

pub use controller::Controller;
