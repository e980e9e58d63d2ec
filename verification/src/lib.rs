//! Containers that carry slices, strings and optional boxes across a C boundary.
//!
//! Each container holds an ordinary reference or box, so ownership moves by
//! value and is given up exactly once: by unwrapping, or by dropping. A borrowed
//! container frees nothing. To C code a slice or a string is an address with a
//! length ([`SliceInner`]), and an optional box is one pointer that is null when
//! there is nothing ([`OptionBox::ptr`]).
//!
//! Contracts speak of a container through its view: the elements of a slice,
//! the characters of a string, the value of an optional box.

pub mod boxed;
pub mod c;
pub mod cbindgen;
pub mod convert;
pub mod slice;
pub mod str;

pub use boxed::{Box, OptionBox};
pub use c::{
    CBox, CBoxedSlice, CBoxedStr, CByteSliceRef, COptionBox, CSliceRef, CStrRef, CharStrRef,
};
pub use convert::{AsFfiType, IntoFfiType, ToFfiType};
pub use slice::{BoxedSlice, ByteSliceRef, MutSliceRef, SliceInner, SliceRef};
pub use str::{BoxedStr, StrRef};

use vstd::prelude::*;

verus! {

/// `[T; N]`, under the name that the C++ header gives it.
pub type Array<T, const N: usize> = [T; N];

} // verus!
