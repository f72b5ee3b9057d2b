//! The repeated-read adapter: a lazy, forward-only sequence of decoded
//! values sharing one cursor and one context.
//!
//! Each step decodes from the unread remainder with a clone of the context;
//! on success it advances the shared offset and yields the value, on any
//! failure it yields nothing and the error is discarded. It is not
//! restartable: consuming it advances the shared offset irreversibly.

use crate::codec::TryRead;
use core::marker::PhantomData;
use vstd::prelude::*;

verus! {

/// Reader that yields values of the same type from a byte slice until the
/// first decode failure.
#[must_use]
pub struct Iter<'a, 'i, T, Ctx> where T: TryRead<'a, Ctx>, Ctx: Clone {
    /// The buffer being decoded from.
    pub bytes: &'a [u8],
    /// The shared cursor; every yielded value advances it by the size the
    /// decode consumed, and it keeps its last position when the adapter
    /// stops or is dropped.
    pub offset: &'i mut usize,
    /// The context, cloned once per decoding step.
    pub ctx: Ctx,
    /// Marker for the decoded value type.
    pub phantom: PhantomData<T>,
}

impl<'a, 'i, T, Ctx> Iter<'a, 'i, T, Ctx> where T: TryRead<'a, Ctx>, Ctx: Clone {
    /// Attempts one decode at the shared offset with a clone of the
    /// context. Yields the value and advances the offset on success; on any
    /// failure, or with a cursor already past the end, yields nothing and
    /// leaves the offset untouched.
    pub fn next(&mut self) -> (r: Option<T>)
        ensures
            final(self).bytes == old(self).bytes,
            final(self).ctx == old(self).ctx,
            *final(final(self).offset) == *final(old(self).offset),
            match r {
                Option::Some(v) => exists|c: Ctx|
                    #[trigger] cloned(old(self).ctx, c) && (T::read_spec(
                        old(self).bytes@.skip(*old(self).offset as int),
                        c,
                    ) matches Ok((w, n)) && w == v && *final(self).offset == *old(self).offset + n
                        && *final(self).offset <= old(self).bytes@.len()),
                Option::None => *final(self).offset == *old(self).offset && (*old(self).offset
                    > old(self).bytes@.len() || exists|c: Ctx|
                    #[trigger] cloned(old(self).ctx, c) && T::read_spec(
                        old(self).bytes@.skip(*old(self).offset as int),
                        c,
                    ) is Err),
            },
    {
        let ghost bytes0 = self.bytes@;
        let ghost off0 = *self.offset as int;
        let ghost ctx0 = self.ctx;
        if *self.offset > self.bytes.len() {
            return None;
        }
        let tail = vstd::slice::slice_subrange(self.bytes, *self.offset, self.bytes.len());
        let c = self.ctx.clone();
        let ghost gc = c;
        proof {
            assert(tail@ =~= bytes0.skip(off0));
            T::read_spec_size(tail@, gc);
        }
        match T::try_read(tail, c) {
            Ok((t, size)) => {
                proof {
                    assert(cloned(ctx0, gc));
                    assert(T::read_spec(bytes0.skip(off0), gc) matches Ok((w, n)) && n == size
                        as int);
                }
                *self.offset += size;
                proof {
                    assert(*self.offset == off0 + size);
                }
                Some(t)
            },
            Err(_) => {
                proof {
                    assert(cloned(ctx0, gc));
                    assert(T::read_spec(bytes0.skip(off0), gc) is Err);
                }
                None
            },
        }
    }

    /// The adapter cannot tell how many values are still to come: any step
    /// may hit a failure and stop the sequence.
    pub fn size_hint(&self) -> (r: (usize, Option<usize>))
        ensures
            r == (0usize, Option::<usize>::None),
    {
        (0, None)
    }
}

} // verus!
