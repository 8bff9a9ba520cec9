//! Validation of the command-line arguments into an extraction request.
//!
//! The argument list is checked once, up front: its length, then the
//! offset, then the optional size.  On success every later stage works
//! from the resulting [`ExtractionRequest`] alone; on failure
//! [`validate_args`] says exactly which argument offended.

use crate::errors::TrimError;
use crate::parse::{dec_value, digits_of, parse_dec, parses};
use vstd::prelude::*;

verus! {

/// One fully validated invocation: both paths as given, the byte
/// offset, and the byte count when the four-argument form was used.
#[derive(Debug, Clone, PartialEq, Eq)]
pub struct ExtractionRequest {
    /// Path of the file the bytes are read from.
    pub input_path: String,
    /// Path of the file the bytes are written to.
    pub output_path: String,
    /// Byte offset into the input file where extraction begins.
    pub offset: usize,
    /// Number of bytes to copy; `None` means to end-of-file.
    pub size: Option<usize>,
}

/// Validates a full argument list (program name first, as the process
/// receives it).
///
/// The accepted shapes are `prog infile outfile offset` and
/// `prog infile outfile offset size`.  Any other length is a usage
/// error; an offset or size that does not parse as a base-10
/// non-negative integer fitting in `usize` is reported with the
/// offending text, the offset checked first.
pub fn validate_args(args: &Vec<String>) -> (result: Result<ExtractionRequest, TrimError>)
    ensures
        match result {
            Ok(req) => {
                &&& args@.len() == 4 || args@.len() == 5
                &&& req.input_path@ == args@[1]@
                &&& req.output_path@ == args@[2]@
                &&& parses(args@[3]@)
                &&& req.offset == dec_value(digits_of(args@[3]@))
                &&& if args@.len() == 5 {
                    &&& parses(args@[4]@)
                    &&& req.size matches Some(s) && s == dec_value(digits_of(args@[4]@))
                } else {
                    req.size is None
                }
            },
            Err(e) => {
                ||| (e == TrimError::Usage && args@.len() != 4 && args@.len() != 5)
                ||| ((args@.len() == 4 || args@.len() == 5) && !parses(args@[3]@) && (e matches
                    TrimError::BadOffset { text } && text@ == args@[3]@))
                ||| (args@.len() == 5 && parses(args@[3]@) && !parses(args@[4]@) && (e matches
                    TrimError::BadSize { text } && text@ == args@[4]@))
            },
        },
{
    if args.len() != 4 && args.len() != 5 {
        return Err(TrimError::Usage);
    }
    let offset = match parse_dec(args[3].as_str()) {
        Some(v) => v,
        None => {
            return Err(TrimError::BadOffset { text: args[3].clone() });
        },
    };
    let size: Option<usize> = if args.len() == 5 {
        match parse_dec(args[4].as_str()) {
            Some(v) => Some(v),
            None => {
                return Err(TrimError::BadSize { text: args[4].clone() });
            },
        }
    } else {
        None
    };
    Ok(
        ExtractionRequest {
            input_path: args[1].clone(),
            output_path: args[2].clone(),
            offset,
            size,
        },
    )
}

} // verus!
