//! Extraction of a contiguous byte range from in-memory file contents.
//!
//! The library validates command-line style arguments into an
//! [`request::ExtractionRequest`], and computes the byte slice that an
//! extraction run copies from the input file to the output file.  All
//! file handling stays with the caller: the library works on plain
//! strings and byte vectors, and every function states exactly what it
//! returns, including when each error is produced.

pub mod errors;
pub mod extract;
pub mod parse;
pub mod request;

pub use errors::TrimError;
pub use extract::extract_range;
pub use parse::parse_dec;
pub use request::{ExtractionRequest, validate_args};
