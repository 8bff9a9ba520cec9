//! The error taxonomy of an extraction run.
//!
//! Every failure of a run falls under exactly one variant, each
//! carrying the values a diagnostic message needs.  The library itself
//! produces only [`TrimError::Usage`], [`TrimError::BadOffset`],
//! [`TrimError::BadSize`] and [`TrimError::Insufficient`]; the
//! remaining variants tag the file-system failures that the caller
//! detects while opening, reading, creating or writing the two files.

use vstd::prelude::*;

verus! {

/// One failure class per stage of a run.  Every variant maps to a
/// printed diagnostic and the same non-zero exit status; none is ever
/// recovered from.
#[derive(Debug, Clone, PartialEq, Eq)]
pub enum TrimError {
    /// Wrong number of command-line arguments.
    Usage,
    /// The offset argument is not a valid base-10 non-negative integer.
    BadOffset { text: String },
    /// The size argument is not a valid base-10 non-negative integer.
    BadSize { text: String },
    /// The input file could not be opened.
    Open { path: String, cause: String },
    /// The seek to the requested offset failed.
    Seek { path: String, offset: usize, cause: String },
    /// A read on the input file failed for a reason other than a
    /// shortage of data.
    Read { path: String, cause: String },
    /// An exact-size read asked for more bytes than remain after the
    /// offset.
    Insufficient { size: usize, offset: usize },
    /// The output file could not be created.
    Create { path: String, cause: String },
    /// The output file could not be fully written.
    Write { path: String, cause: String },
}

} // verus!
