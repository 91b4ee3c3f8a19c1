use vstd::prelude::*;

verus! {

/// The result of comparing one reference/output file pair. Exactly one
/// outcome is produced per pair.
#[derive(Debug, PartialEq, Eq)]
pub enum ComparisonOutcome {
    /// The pair matched within tolerance.
    Success,
    /// The reference file does not exist; carries the reference path.
    ReferenceMissing(String),
    /// The reference exists but the output file does not; carries the output path.
    OutputMissing(String),
    /// The decoded dimensions differ; carries both (width, height) pairs,
    /// reference first.
    SizeMismatch((u32, u32), (u32, u32)),
    /// Dimensions match but the color-format tags differ.
    FormatMismatch,
    /// A pixel sample differed by more than the tolerance; carries the output
    /// path, the absolute byte difference, and the reported coordinates.
    ToleranceExceeded(String, u8, u32, u32),
}

impl ComparisonOutcome {
    pub fn is_success(&self) -> (r: bool)
        ensures
            r == (*self is Success),
    {
        match self {
            ComparisonOutcome::Success => true,
            _ => false,
        }
    }
}

} // verus!
