//! The order of the bytes of numbers.

use vstd::prelude::*;

verus! {

/// The order in which a machine keeps the bytes of a number.
#[derive(Clone, Copy, Debug, PartialEq, Eq, Structural)]
pub enum ByteOrder {
    /// The lowest byte comes first.
    Little,
    /// The highest byte comes first.
    Big,
}

} // verus!
