//! A verified codec for talking to a USB Extensible Host Controller (xHC).
//!
//! The crate provides the 16-byte Transfer Request Block (TRB) descriptor
//! format used for every command exchanged with the controller, the Command
//! Ring through which software hands those descriptors to the hardware, and
//! read-only views over the controller's capability registers.

pub mod bits;
pub mod error;
pub mod registers;
pub mod ring;
