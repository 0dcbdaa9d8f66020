//! Receipt rendering and fiscal-protocol encoding for point-of-sale printers.
//!
//! The crate builds the exact byte stream of a non-fiscal receipt for an
//! ESC/POS-style thermal printer, the XML document of a fiscal sale, and
//! classifies the configured target address into a transport. Every byte of
//! the output formats is pinned by the contracts.

pub mod text;

pub mod numfmt;

pub mod encoding;

pub mod types;

pub mod receipt;

pub mod transport;

pub mod fiscal;

pub mod clock;

