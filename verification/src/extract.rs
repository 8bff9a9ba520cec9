//! The byte-range computation at the heart of an extraction run.
//!
//! Given the full contents of the input file, a byte offset and an
//! optional size, [`extract_range`] returns exactly the bytes that the
//! output file receives, or reports that the input holds too few bytes
//! for an exact-size read.

use crate::errors::TrimError;
use vstd::prelude::*;

verus! {

/// Where reading starts: the offset, clamped to the end of the data.
/// Seeking past end-of-file is not an error; a read there yields nothing.
pub open spec fn start_at(data: Seq<u8>, offset: int) -> int {
    if offset <= data.len() {
        offset
    } else {
        data.len() as int
    }
}

/// How many bytes remain from the offset to the end of the data.
pub open spec fn available(data: Seq<u8>, offset: int) -> int {
    data.len() - start_at(data, offset)
}

/// The `n` bytes read from the offset.
pub open spec fn slice_at(data: Seq<u8>, offset: int, n: int) -> Seq<u8>
    recommends
        0 <= n <= available(data, offset),
{
    data.subrange(start_at(data, offset), start_at(data, offset) + n)
}

/// Everything from the offset to the end of the data.
pub open spec fn tail_at(data: Seq<u8>, offset: int) -> Seq<u8> {
    slice_at(data, offset, available(data, offset))
}

/// Copies the requested byte range out of `data`.
///
/// With `size` given, the read is all-or-nothing: it succeeds exactly
/// when `size` bytes are available from `offset`, and returns precisely
/// those bytes.  Without `size`, it always succeeds and returns
/// everything from `offset` to the end, which is empty when the offset
/// is at or past the end.
pub fn extract_range(data: &Vec<u8>, offset: usize, size: Option<usize>) -> (result: Result<
    Vec<u8>,
    TrimError,
>)
    ensures
        match size {
            Some(n) => match result {
                Ok(out) => n <= available(data@, offset as int) && out@ == slice_at(
                    data@,
                    offset as int,
                    n as int,
                ),
                Err(e) => n > available(data@, offset as int) && e == (TrimError::Insufficient {
                    size: n,
                    offset,
                }),
            },
            None => match result {
                Ok(out) => out@ == tail_at(data@, offset as int),
                Err(_) => false,
            },
        },
{
    let start: usize = if offset <= data.len() {
        offset
    } else {
        data.len()
    };
    let count: usize = match size {
        Some(n) => {
            if n > data.len() - start {
                return Err(TrimError::Insufficient { size: n, offset });
            }
            n
        },
        None => data.len() - start,
    };
    let mut out: Vec<u8> = Vec::new();
    let mut i: usize = 0;
    while i < count
        invariant
            start + count <= data.len(),
            i <= count,
            out@ == data@.subrange(start as int, start as int + i as int),
        decreases count - i,
    {
        out.push(data[start + i]);
        proof {
            assert(out@ =~= data@.subrange(start as int, start as int + i as int + 1));
        }
        i = i + 1;
    }
    proof {
        assert(out@ =~= slice_at(data@, offset as int, count as int));
    }
    Ok(out)
}

/// Round-trip identity: extracting from offset `0` with size equal to
/// the data's length yields the data unchanged, so the output file is
/// byte-for-byte identical to the input file.
pub proof fn lemma_round_trip(data: Seq<u8>)
    ensures
        available(data, 0) == data.len(),
        slice_at(data, 0, data.len() as int) == data,
{
    assert(slice_at(data, 0, data.len() as int) =~= data);
}

/// Tail extraction: with the size omitted and an offset within the
/// data, the output has length exactly `data.len() - offset` and holds
/// `data[offset..]`.
pub proof fn lemma_tail_extraction(data: Seq<u8>, offset: int)
    requires
        0 <= offset <= data.len(),
    ensures
        tail_at(data, offset).len() == data.len() - offset,
        tail_at(data, offset) == data.subrange(offset, data.len() as int),
{
}

/// Offset at or beyond the end: with the size omitted, extraction
/// still succeeds and the output is empty.
pub proof fn lemma_offset_at_end(data: Seq<u8>, offset: int)
    requires
        offset >= data.len(),
    ensures
        tail_at(data, offset) == Seq::<u8>::empty(),
{
    assert(tail_at(data, offset) =~= Seq::<u8>::empty());
}

/// Exact-size extraction: when `size` bytes are available from the
/// offset, the output has length exactly `size` and holds
/// `data[offset..offset + size]`.
pub proof fn lemma_exact_size(data: Seq<u8>, offset: int, size: int)
    requires
        0 <= offset <= data.len(),
        0 <= size <= data.len() - offset,
    ensures
        slice_at(data, offset, size).len() == size,
        slice_at(data, offset, size) == data.subrange(offset, offset + size),
{
}

} // verus!
