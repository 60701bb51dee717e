//! The failure signal of extraction.

use vstd::prelude::*;

verus! {

/// Why an extraction failed: the untyped value did not hold the leaf kind
/// that was asked for. Each alternative names the kind that was expected.
#[derive(Clone, Copy, Debug, PartialEq, Eq, Structural)]
pub enum IpldTypeError {
    /// A boolean was expected.
    NotBool,
    /// An integer was expected.
    NotInteger,
    /// A float was expected.
    NotFloat,
    /// A string was expected.
    NotString,
    /// A byte sequence was expected.
    NotBytes,
    /// A link was expected.
    NotLink,
}

} // verus!
