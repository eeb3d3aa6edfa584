//! The error taxonomy of the splitting pipeline.

use vstd::prelude::*;

verus! {

/// Everything that can go wrong while probing a source or splitting it.
///
/// `ToolUnavailable` is user-actionable (the external binary is missing);
/// `ProbeFailed` and `ExtractionFailed` carry the external tool's raw
/// diagnostic text for display; `MalformedOutput` means the probing tool
/// answered in a shape this library does not recognise; `InvalidDuration`
/// rejects a non-positive duration before any external call is made.
#[derive(Debug)]
pub enum SplitError {
    /// The external tool could not be launched at all.
    ToolUnavailable { tool: String, detail: String },
    /// The probing tool ran but exited with a failure.
    ProbeFailed { diagnostic: String },
    /// The probing tool's output was not a duration in the expected format.
    MalformedOutput,
    /// A clip duration (or a probed total duration) was not positive.
    InvalidDuration,
    /// A local file could not be inspected.
    FileAccessError { detail: String },
    /// The output directory could not be created.
    DirectoryError { detail: String },
    /// Extracting one clip failed with a diagnostic that is not the
    /// benign past-end-of-source condition.
    ExtractionFailed { clip_index: u64, diagnostic: String },
}

} // verus!
