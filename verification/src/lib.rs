//! A low-level, zero-copy, panic-free binary serializer and deserializer
//! for wire formats and hardware protocol frames.
//!
//! The crate delivers two core traits, [`TryRead`] and [`TryWrite`]: types
//! implementing them can be decoded from and encoded into byte slices,
//! under an auxiliary context value that carries whatever the encoding
//! needs (a byte order, a delimiter). Byte slices gain the extension
//! methods of [`BytesExt`], which thread a caller-owned offset through
//! repeated codec calls and classify every failure as an [`Error`]:
//! `Incomplete` when the data runs out, `BadOffset` when the caller's
//! cursor was already past the end, `BadInput` when bytes are present but
//! invalid. [`Iter`] reads a sequence of values of one type lazily,
//! stopping at the first failure.
//!
//! Decoded values may borrow directly from the buffer, nothing is copied
//! or allocated, and no operation panics: a boundary check ([`check_len`])
//! precedes every indexed access, a successful call advances the offset by
//! exactly the size it reports, and a failed call never moves it.

pub mod adapter;
pub mod codec;
pub mod ctx;
pub mod cursor;
pub mod error;

pub use adapter::Iter;
pub use codec::{TryRead, TryWrite};
pub use cursor::BytesExt;
pub use error::{check_len, Error};
