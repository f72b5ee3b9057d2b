//! The cursor extension layer: operations on a byte slice that thread a
//! caller-owned offset through repeated decode and encode calls.
//!
//! A call first checks the offset against the buffer; an offset at or past
//! the end fails immediately with `BadOffset`, the only place that error is
//! ever minted. Otherwise the codec runs on the tail of the buffer starting
//! at the offset; on success the offset advances by exactly the reported
//! size, on failure it is left untouched and any nested `BadOffset` is
//! reclassified as `Incomplete`.

use crate::adapter::Iter;
use crate::codec::{TryRead, TryWrite};
use crate::error::{err_matches, reclassify, Error};
use core::marker::PhantomData;
use vstd::prelude::*;

verus! {

/// The contract of a cursor-layer read on buffer contents `buf`: starting
/// from offset `off0` with context `ctx`, the call returns `r` and leaves
/// the offset at `off1`.
pub open spec fn read_with_post<'a, T: TryRead<'a, Ctx>, Ctx>(
    buf: Seq<u8>,
    off0: int,
    ctx: Ctx,
    r: Result<T, Error>,
    off1: int,
) -> bool {
    if off0 >= buf.len() {
        &&& r == Err::<T, Error>(Error::BadOffset(off0 as usize))
        &&& off1 == off0
    } else {
        match T::read_spec(buf.skip(off0), ctx) {
            Ok((v, n)) => {
                &&& r == Ok::<T, Error>(v)
                &&& off1 == off0 + n
                &&& off1 <= buf.len()
            },
            Err(e) => {
                &&& off1 == off0
                &&& r matches Err(re) && err_matches(re, reclassify(e))
            },
        }
    }
}

/// The contract of a cursor-layer write on a buffer whose contents were
/// `buf0` and become `buf1`: starting from offset `off0`, the value `t` is
/// encoded under `ctx`, the call returns `r` and leaves the offset at
/// `off1`. On failure the buffer keeps its length but its contents past the
/// offset are scratch the caller must not use.
pub open spec fn write_with_post<T: TryWrite<Ctx>, Ctx>(
    buf0: Seq<u8>,
    off0: int,
    t: T,
    ctx: Ctx,
    r: Result<(), Error>,
    off1: int,
    buf1: Seq<u8>,
) -> bool {
    &&& buf1.len() == buf0.len()
    &&& if off0 >= buf0.len() {
        &&& r == Err::<(), Error>(Error::BadOffset(off0 as usize))
        &&& off1 == off0
        &&& buf1 == buf0
    } else {
        match t.write_spec(buf0.len() - off0, ctx) {
            Ok(w) => {
                &&& r == Ok::<(), Error>(())
                &&& off1 == off0 + w.len()
                &&& off1 <= buf0.len()
                &&& buf1 == buf0.take(off0) + w + buf0.skip(off0 + w.len())
            },
            Err(e) => {
                &&& off1 == off0
                &&& r matches Err(re) && err_matches(re, reclassify(e))
            },
        }
    }
}

/// A cursor-layer call reports `BadOffset` exactly when the caller's offset
/// was already at or past the end of the buffer; a boundary problem found
/// during the nested decode surfaces as `Incomplete` instead.
pub proof fn lemma_bad_offset_only_at_top<'a, T: TryRead<'a, Ctx>, Ctx>(
    buf: Seq<u8>,
    off0: int,
    ctx: Ctx,
    r: Result<T, Error>,
    off1: int,
)
    requires
        read_with_post(buf, off0, ctx, r, off1),
    ensures
        (r matches Err(e) && e is BadOffset) <==> off0 >= buf.len(),
        off0 >= buf.len() ==> r == Err::<T, Error>(Error::BadOffset(off0 as usize)),
{
}

/// The write-side counterpart: a cursor-layer write reports `BadOffset`
/// exactly when the caller's offset was already at or past the end of the
/// buffer; a nested boundary failure surfaces as `Incomplete` instead.
pub proof fn lemma_write_bad_offset_only_at_top<T: TryWrite<Ctx>, Ctx>(
    buf0: Seq<u8>,
    off0: int,
    t: T,
    ctx: Ctx,
    r: Result<(), Error>,
    off1: int,
    buf1: Seq<u8>,
)
    requires
        write_with_post(buf0, off0, t, ctx, r, off1, buf1),
    ensures
        (r matches Err(e) && e is BadOffset) <==> off0 >= buf0.len(),
        off0 >= buf0.len() ==> r == Err::<(), Error>(Error::BadOffset(off0 as usize)),
{
}

/// Extension methods for byte slices.
///
/// The first parameter of each method is the offset, instructing the
/// position to begin; it is increased by the size the operation consumed.
pub trait BytesExt<Ctx>: View<V = Seq<u8>> {
    /// Read a value from the byte slice with the default context.
    fn read<'a, T>(&'a self, offset: &mut usize) -> (r: Result<T, Error>) where
        T: TryRead<'a, Ctx>,
        Ctx: Default,

        ensures
            exists|c: Ctx|
                #[trigger] call_ensures(Ctx::default, (), c) && read_with_post(
                    self@,
                    *old(offset) as int,
                    c,
                    r,
                    *final(offset) as int,
                ),
    {
        let c = Ctx::default();
        let ghost gc = c;
        let r = self.read_with(offset, c);
        proof {
            assert(call_ensures(Ctx::default, (), gc) && read_with_post(
                self@,
                *old(offset) as int,
                gc,
                r,
                *final(offset) as int,
            ));
        }
        r
    }

    /// Read a value from the byte slice with the given context.
    fn read_with<'a, T>(&'a self, offset: &mut usize, ctx: Ctx) -> (r: Result<T, Error>) where
        T: TryRead<'a, Ctx>,

        ensures
            read_with_post(self@, *old(offset) as int, ctx, r, *final(offset) as int),
    ;

    /// Read multiple values of the same type through a lazy adapter that
    /// shares this buffer, the given offset and the context.
    fn read_iter<'a, 'i, T>(&'a self, offset: &'i mut usize, ctx: Ctx) -> (it: Iter<
        'a,
        'i,
        T,
        Ctx,
    >) where
        T: TryRead<'a, Ctx>,
        Ctx: Clone,

        ensures
            it.bytes@ == self@,
            it.ctx == ctx,
            *it.offset == *old(offset),
            *final(it.offset) == *final(offset),
    ;

    /// Write a value into the byte slice with the default context.
    fn write<T>(&mut self, offset: &mut usize, t: T) -> (r: Result<(), Error>) where
        T: TryWrite<Ctx>,
        Ctx: Default,

        ensures
            exists|c: Ctx|
                #[trigger] call_ensures(Ctx::default, (), c) && write_with_post(
                    old(self)@,
                    *old(offset) as int,
                    t,
                    c,
                    r,
                    *final(offset) as int,
                    final(self)@,
                ),
    {
        let c = Ctx::default();
        let ghost gc = c;
        let ghost gt = t;
        let r = self.write_with(offset, t, c);
        proof {
            assert(call_ensures(Ctx::default, (), gc) && write_with_post(
                old(self)@,
                *old(offset) as int,
                gt,
                gc,
                r,
                *final(offset) as int,
                final(self)@,
            ));
        }
        r
    }

    /// Write a value into the byte slice with the given context.
    fn write_with<T>(&mut self, offset: &mut usize, t: T, ctx: Ctx) -> (r: Result<
        (),
        Error,
    >) where
        T: TryWrite<Ctx>,

        ensures
            write_with_post(
                old(self)@,
                *old(offset) as int,
                t,
                ctx,
                r,
                *final(offset) as int,
                final(self)@,
            ),
    ;
}

impl<Ctx> BytesExt<Ctx> for [u8] {
    fn read_with<'a, T>(&'a self, offset: &mut usize, ctx: Ctx) -> (r: Result<T, Error>) where
        T: TryRead<'a, Ctx>,
     {
        if *offset >= self.len() {
            return Err(Error::BadOffset(*offset));
        }
        let ghost gctx = ctx;
        let tail = vstd::slice::slice_subrange(self, *offset, self.len());
        proof {
            assert(tail@ =~= self@.skip(*offset as int));
            T::read_spec_size(tail@, gctx);
        }
        match T::try_read(tail, ctx) {
            Ok((t, size)) => {
                *offset += size;
                Ok(t)
            },
            Err(Error::BadOffset(_)) => Err(Error::Incomplete),
            Err(err) => Err(err),
        }
    }

    fn read_iter<'a, 'i, T>(&'a self, offset: &'i mut usize, ctx: Ctx) -> (it: Iter<
        'a,
        'i,
        T,
        Ctx,
    >) where
        T: TryRead<'a, Ctx>,
        Ctx: Clone,
     {
        Iter { bytes: self, offset, ctx, phantom: PhantomData }
    }

    fn write_with<T>(&mut self, offset: &mut usize, t: T, ctx: Ctx) -> (r: Result<
        (),
        Error,
    >) where
        T: TryWrite<Ctx>,
     {
        if *offset >= self.len() {
            return Err(Error::BadOffset(*offset));
        }
        let ghost gctx = ctx;
        let ghost gt = t;
        let ghost buf0 = self@;
        let ghost off0 = *offset as int;
        proof {
            T::write_spec_size(gt, buf0.len() - off0, gctx);
        }
        let (head, tail) = self.split_at_mut(*offset);
        proof {
            assert(tail@ =~= buf0.skip(off0));
        }
        match T::try_write(t, tail, ctx) {
            Ok(size) => {
                proof {
                    let w = gt.write_spec(buf0.len() - off0, gctx)->Ok_0;
                    assert(buf0.skip(off0).skip(size as int) =~= buf0.skip(off0 + size));
                    assert(final(tail)@ == w + buf0.skip(off0 + size));
                    assert(final(self)@ =~= buf0.take(off0) + (w + buf0.skip(off0 + size)));
                    assert(buf0.take(off0) + (w + buf0.skip(off0 + size)) =~= buf0.take(off0) + w
                        + buf0.skip(off0 + size));
                }
                *offset += size;
                Ok(())
            },
            Err(Error::BadOffset(_)) => Err(Error::Incomplete),
            Err(err) => Err(err),
        }
    }
}

} // verus!
