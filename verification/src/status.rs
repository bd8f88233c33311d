//! The closed set of outcome codes that every boundary operation returns.

use vstd::prelude::*;

verus! {

/// Outcome of a boundary operation.
///
/// The numeric codes given by [`AsmResult::code`] are a stable contract with
/// callers on the far side of the boundary; no other codes exist.
#[derive(Clone, Copy, Debug, PartialEq, Eq, Structural)]
pub enum AsmResult {
    /// Compilation succeeded and the produced buffer was handed to the caller.
    Success,
    /// The engine accepted the call but produced no output.
    Failed,
    /// The source-text argument was absent.
    NullAssembly,
    /// The slot meant to receive the produced bytes was absent.
    NullBinary,
    /// The slot meant to receive the byte count was absent.
    NullBinaryLen,
    /// The source-text bytes were not valid text.
    InvalidEncoding,
}

impl AsmResult {
    /// The stable numeric value of each outcome.
    pub open spec fn code_spec(self) -> u32 {
        match self {
            AsmResult::Success => 0,
            AsmResult::Failed => 1,
            AsmResult::NullAssembly => 2,
            AsmResult::NullBinary => 3,
            AsmResult::NullBinaryLen => 4,
            AsmResult::InvalidEncoding => 5,
        }
    }

    /// Returns the stable numeric code of this outcome.
    pub fn code(self) -> (r: u32)
        ensures
            r == self.code_spec(),
    {
        match self {
            AsmResult::Success => 0,
            AsmResult::Failed => 1,
            AsmResult::NullAssembly => 2,
            AsmResult::NullBinary => 3,
            AsmResult::NullBinaryLen => 4,
            AsmResult::InvalidEncoding => 5,
        }
    }
}

} // verus!
