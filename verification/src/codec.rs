//! The two codec capability traits: decoding a value from the head of a
//! byte slice, and encoding a value into the head of a byte slice.
//!
//! Each implementation carries its own mathematical description (`read_spec`
//! / `write_spec`), and the executable methods are bound to agree with it.

use crate::error::{err_matches, Error};
use vstd::prelude::*;

verus! {

/// Agreement between an executable decode result and the mathematical
/// decode outcome: success yields the same value and the same consumed
/// size, failure yields an equivalent error.
pub open spec fn read_agrees<T>(
    r: Result<(T, usize), Error>,
    s: Result<(T, int), Error>,
) -> bool {
    match (r, s) {
        (Ok((v, n)), Ok((w, m))) => v == w && n as int == m,
        (Err(e), Err(f)) => err_matches(e, f),
        _ => false,
    }
}

/// Agreement between an executable encode result and the mathematical
/// encode outcome: success reports exactly the length of the encoding,
/// failure yields an equivalent error.
pub open spec fn write_agrees(r: Result<usize, Error>, s: Result<Seq<u8>, Error>) -> bool {
    match (r, s) {
        (Ok(n), Ok(w)) => n as int == w.len(),
        (Err(e), Err(f)) => err_matches(e, f),
        _ => false,
    }
}

/// A data structure that can be deserialized. Types implementing this trait
/// can be `read()` from a byte slice.
///
/// The decoded value may borrow from the slice; its lifetime is tied to the
/// buffer, not to the call. Implementations treat the slice as starting
/// exactly at the current read position: they decode a prefix and never
/// assume trailing context.
pub trait TryRead<'a, Ctx = ()>: Sized {
    /// What decoding yields on the given bytes with the given context:
    /// either the value and the number of bytes it occupies, or an error.
    spec fn read_spec(bytes: Seq<u8>, ctx: Ctx) -> Result<(Self, int), Error>;

    /// A successful decode never claims more bytes than the slice holds.
    proof fn read_spec_size(bytes: Seq<u8>, ctx: Ctx)
        ensures
            Self::read_spec(bytes, ctx) matches Ok((v, n)) ==> 0 <= n <= bytes.len(),
    ;

    /// Try to read from bytes using the context.
    ///
    /// The bytes passed in are split at the caller's offset and decoding
    /// starts at the head. On success the result carries the value and the
    /// number of bytes consumed, which the cursor layer uses to advance the
    /// offset.
    fn try_read(bytes: &'a [u8], ctx: Ctx) -> (r: Result<(Self, usize), Error>)
        ensures
            read_agrees(r, Self::read_spec(bytes@, ctx)),
    ;
}

/// A data structure that can be serialized. Types implementing this trait
/// can be `write()` into a byte slice.
///
/// Implementations write a prefix of the slice and leave everything past
/// the reported size untouched; they never rely on prior buffer contents.
pub trait TryWrite<Ctx = ()>: Sized {
    /// What encoding yields for this value into `avail` free bytes: either
    /// the exact bytes written, or an error.
    spec fn write_spec(self, avail: int, ctx: Ctx) -> Result<Seq<u8>, Error>;

    /// A successful encode never produces more bytes than were available.
    proof fn write_spec_size(self, avail: int, ctx: Ctx)
        ensures
            self.write_spec(avail, ctx) matches Ok(w) ==> w.len() <= avail,
    ;

    /// Try to write into bytes using the context.
    ///
    /// The bytes passed in are split at the caller's offset and encoding
    /// starts at the head. On success the result is the number of bytes
    /// written; the slice then holds exactly the encoding followed by its
    /// untouched tail. On failure the caller must treat the slice contents
    /// as unspecified scratch, though the length never changes.
    fn try_write(self, bytes: &mut [u8], ctx: Ctx) -> (r: Result<usize, Error>)
        ensures
            final(bytes)@.len() == old(bytes)@.len(),
            write_agrees(r, self.write_spec(old(bytes)@.len() as int, ctx)),
            r matches Ok(n) ==> self.write_spec(old(bytes)@.len() as int, ctx) matches Ok(w)
                && final(bytes)@ == w + old(bytes)@.skip(n as int),
    ;
}

} // verus!
