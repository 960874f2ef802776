//! The error type shared by every fallible operation of the machine.

use vstd::prelude::*;

verus! {

/// The ways an operation on the machine can fail. The machine never
/// recovers internally from an invalid address or register index: the
/// offending operation reports the failure to its caller and leaves the
/// machine unchanged.
#[derive(Clone, Copy, Debug, PartialEq, Eq, Structural)]
pub enum Error {
    /// An address or register index outside its valid range.
    OutOfBounds,
    /// A numeric literal that cannot be read in the requested radix.
    MalformedOperand,
}

} // verus!
