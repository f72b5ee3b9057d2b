//! The failure taxonomy shared by every codec and cursor operation, and the
//! boundary-check primitive that guards all indexed buffer access.

use vstd::prelude::*;

verus! {

/// The error type for serializing and deserializing.
///
/// - `Incomplete` means the buffer holds fewer bytes than the operation
///   needs: more data could cure it.
/// - `BadOffset(n)` means the cursor `n` was already at or past the end of
///   the buffer when a top-level cursor call was made: a caller mistake, not
///   a data problem. Only the cursor layer itself ever mints this value.
/// - `BadInput` means the bytes are present but semantically invalid for the
///   target type; `err` carries a static diagnostic.
#[derive(Debug, Clone, Copy, PartialEq, Eq)]
pub enum Error {
    /// The requested data is bigger than the available range.
    Incomplete,
    /// The offset is invalid.
    BadOffset(usize),
    /// The requested data content is invalid.
    BadInput { err: &'static str },
}

/// Spec-level equivalence of two errors: same kind, same offending offset,
/// and the same diagnostic text for `BadInput`.
pub open spec fn err_matches(a: Error, b: Error) -> bool {
    match (a, b) {
        (Error::Incomplete, Error::Incomplete) => true,
        (Error::BadOffset(m), Error::BadOffset(n)) => m == n,
        (Error::BadInput { err: s }, Error::BadInput { err: t }) => s@ == t@,
        _ => false,
    }
}

/// How the cursor layer translates an error coming out of a nested codec
/// call: a boundary failure discovered during decoding or encoding means the
/// data ran out, never that the caller misused the cursor, so `BadOffset`
/// is downgraded to `Incomplete`; everything else passes through.
pub open spec fn reclassify(e: Error) -> Error {
    match e {
        Error::BadOffset(_) => Error::Incomplete,
        _ => e,
    }
}

/// Checks whether `bytes` holds at least `len` bytes, returning `len`
/// unchanged if so and failing with `Error::Incomplete` otherwise.
///
/// Codec implementations are expected to call this before any direct
/// indexing, so that no out-of-bounds access can ever occur.
#[inline]
pub fn check_len(bytes: &[u8], len: usize) -> (r: Result<usize, Error>)
    ensures
        len <= bytes@.len() ==> r == Ok::<usize, Error>(len),
        len > bytes@.len() ==> r == Err::<usize, Error>(Error::Incomplete),
{
    if bytes.len() < len {
        Err(Error::Incomplete)
    } else {
        Ok(len)
    }
}

} // verus!
