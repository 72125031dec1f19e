//! Errors reported at the crate's checked boundaries.

use vstd::prelude::*;

verus! {

/// An error of a checked descriptor operation.
///
/// Detectable misuse is rejected synchronously and locally: the operation
/// reports the error and applies no part of its effect.
#[derive(Clone, Copy, Debug, PartialEq, Eq, Structural)]
pub enum Error {
    /// A pointer value that must be 16-byte aligned was not.
    NotAligned,
}

} // verus!
