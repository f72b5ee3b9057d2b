//! The reference primitive codec: a single-byte boolean under the empty
//! context.
//!
//! It is the conformance template every primitive is expected to match:
//! validate the length first through [`check_len`], branch on content, fail
//! with `BadInput` only for a byte that is present but invalid, and never
//! touch the slice outside the validated length.

use crate::codec::{TryRead, TryWrite};
use crate::cursor::BytesExt;
use crate::error::{check_len, Error};
use vstd::prelude::*;

verus! {

/// The mathematical decode of a boolean: one byte, `1` for true, `0` for
/// false, anything else invalid; an empty slice is incomplete.
pub open spec fn bool_read_spec(bytes: Seq<u8>) -> Result<(bool, int), Error> {
    if bytes.len() < 1 {
        Err(Error::Incomplete)
    } else if bytes[0] == 1 {
        Ok((true, 1))
    } else if bytes[0] == 0 {
        Ok((false, 1))
    } else {
        Err(Error::BadInput { err: "Invalid bool encoding" })
    }
}

/// The mathematical encode of a boolean: a single byte, `1` for true and
/// `0` for false, or incomplete when no byte of space is available.
pub open spec fn bool_write_spec(v: bool, avail: int) -> Result<Seq<u8>, Error> {
    if avail < 1 {
        Err(Error::Incomplete)
    } else {
        Ok(seq![if v { 1u8 } else { 0u8 }])
    }
}

/// Round trip: encoding a boolean into at least one byte of space and
/// decoding the result from its start yields the value back, whatever
/// bytes follow the encoding, and the decode consumes exactly as many
/// bytes as the encode produced.
pub proof fn lemma_bool_round_trip(v: bool, avail: int, rest: Seq<u8>)
    requires
        avail >= 1,
    ensures
        bool_write_spec(v, avail) matches Ok(w) && bool_read_spec(w + rest) == Ok::<
            (bool, int),
            Error,
        >((v, w.len() as int)),
{
}

/// What the repeated-read adapter yields for booleans over `buf` starting
/// at `off`: the values decoded one after the other until the first
/// failure, paired with the offset the adapter stops at.
pub open spec fn bool_run(buf: Seq<u8>, off: int) -> (Seq<bool>, int)
    decreases buf.len() - off,
{
    if 0 <= off <= buf.len() {
        match bool_read_spec(buf.skip(off)) {
            Ok((v, n)) => {
                let rest = bool_run(buf, off + n);
                (seq![v] + rest.0, rest.1)
            },
            Err(_) => (seq![], off),
        }
    } else {
        (seq![], off)
    }
}

/// Adapter termination: over `n` valid boolean encodings followed by
/// either the end of the buffer or an invalid byte, the adapter yields
/// exactly those `n` values and then stops, leaving the offset at the
/// start of the invalid region.
pub proof fn lemma_bool_adapter_termination(buf: Seq<u8>, off: int, n: int)
    requires
        0 <= off,
        0 <= n,
        off + n <= buf.len(),
        forall|i: int| off <= i < off + n ==> buf[i] == 0 || buf[i] == 1,
        off + n == buf.len() || !(buf[off + n] == 0 || buf[off + n] == 1),
    ensures
        bool_run(buf, off).1 == off + n,
        bool_run(buf, off).0.len() == n,
        forall|i: int| 0 <= i < n ==> bool_run(buf, off).0[i] == (buf[off + i] == 1),
    decreases n,
{
    if n == 0 {
        assert(bool_read_spec(buf.skip(off)) is Err);
    } else {
        assert(buf.skip(off)[0] == buf[off]);
        assert(bool_read_spec(buf.skip(off)) == Ok::<(bool, int), Error>((buf[off] == 1, 1)));
        lemma_bool_adapter_termination(buf, off + 1, n - 1);
        assert(forall|i: int| 0 <= i < n ==> bool_run(buf, off).0[i] == (buf[off + i] == 1))
        by {
            assert(forall|i: int| 1 <= i < n ==> bool_run(buf, off).0[i] == bool_run(
                buf,
                off + 1,
            ).0[i - 1]);
        }
    }
}

/// Drains the boolean repeated-read adapter: collects values one decode at
/// a time until the adapter stops. The loop provably terminates, and both
/// the values collected and the offset it leaves behind are exactly what
/// the adapter model [`bool_run`] describes.
pub fn read_all_bools(bytes: &[u8], offset: &mut usize) -> (vs: Vec<bool>)
    ensures
        vs@ == bool_run(bytes@, *old(offset) as int).0,
        *final(offset) as int == bool_run(bytes@, *old(offset) as int).1,
{
    let ghost off0 = *offset as int;
    if *offset > bytes.len() {
        return Vec::new();
    }
    let mut vs: Vec<bool> = Vec::new();
    let mut it = bytes.read_iter::<bool>(offset, ());
    loop
        invariant
            it.bytes@ == bytes@,
            *it.offset <= bytes@.len(),
            *after_borrow(offset) == *final(it.offset),
            bool_run(bytes@, off0).0 == vs@ + bool_run(bytes@, *it.offset as int).0,
            bool_run(bytes@, off0).1 == bool_run(bytes@, *it.offset as int).1,
        ensures
            *it.offset <= bytes@.len(),
            *after_borrow(offset) == *final(it.offset),
            bool_run(bytes@, off0).0 == vs@,
            bool_run(bytes@, off0).1 == *it.offset as int,
        decreases bytes@.len() - *it.offset,
    {
        match it.next() {
            Some(v) => {
                vs.push(v);
            },
            None => {
                break ;
            },
        }
    }
    proof {
        assert(*final(it.offset) == *it.offset);
    }
    vs
}

impl<'a> TryRead<'a, ()> for bool {
    open spec fn read_spec(bytes: Seq<u8>, ctx: ()) -> Result<(bool, int), Error> {
        bool_read_spec(bytes)
    }

    proof fn read_spec_size(bytes: Seq<u8>, ctx: ()) {
    }

    #[inline]
    fn try_read(bytes: &'a [u8], _ctx: ()) -> (r: Result<(bool, usize), Error>) {
        proof {
            reveal_strlit("Invalid bool encoding");
        }
        match check_len(bytes, 1) {
            Err(e) => Err(e),
            Ok(_) => {
                match *vstd::slice::slice_index_get(bytes, 0) {
                    1u8 => Ok((true, 1)),
                    0u8 => Ok((false, 1)),
                    _ => Err(Error::BadInput { err: "Invalid bool encoding" }),
                }
            },
        }
    }
}

impl TryWrite<()> for bool {
    open spec fn write_spec(self, avail: int, ctx: ()) -> Result<Seq<u8>, Error> {
        bool_write_spec(self, avail)
    }

    proof fn write_spec_size(self, avail: int, ctx: ()) {
    }

    #[inline]
    fn try_write(self, bytes: &mut [u8], _ctx: ()) -> (r: Result<usize, Error>) {
        match check_len(&*bytes, 1) {
            Err(e) => Err(e),
            Ok(_) => {
                bytes[0] = if self { 1 } else { 0 };
                proof {
                    assert(bytes@ =~= seq![if self { 1u8 } else { 0u8 }] + old(bytes)@.skip(1));
                }
                Ok(1)
            },
        }
    }
}

} // verus!
