//! Borrowed, exclusively borrowed and owned views of a contiguous buffer, and the
//! address-and-length pair that C code sees for each of them.

use core::marker::PhantomData;
use vstd::layout::align_of;
use vstd::prelude::*;
use vstd::std_specs::convert::FromSpecImpl;

verus! {

/// The pair of address and element count under every slice and string wrapper.
/// It owns nothing and borrows nothing: it only names a place and a length.
pub struct SliceInner<T> {
    /// Address of the first element.
    pub ptr: usize,
    /// Number of elements, not of bytes.
    pub len: usize,
    /// Ties the pair to the type of its elements.
    pub marker: PhantomData<T>,
}

impl<T> Clone for SliceInner<T> {
    fn clone(&self) -> (r: Self)
        ensures
            r == *self,
    {
        SliceInner { ptr: self.ptr, len: self.len, marker: PhantomData }
    }
}

impl<T> Copy for SliceInner<T> {

}

/// Address of the first element of `slice`, taken with `<[T]>::as_ptr`. A slice
/// reference is never null and always aligned for `T`, an empty one included;
/// nothing more is claimed of the address.
#[verifier::external_body]
fn slice_addr<T>(slice: &[T]) -> (addr: usize)
    ensures
        addr != 0,
        addr as nat % align_of::<T>() == 0,
{
    slice.as_ptr() as usize
}

impl<T> SliceInner<T> {
    /// The pair is null and holds no element.
    pub open spec fn is_null_empty(self) -> bool {
        self.ptr == 0 && self.len == 0
    }

    /// The pair can stand for a live slice with the elements `s`: the count is
    /// that of `s`, the address is not null and is aligned for `T`.
    pub open spec fn describes(self, s: Seq<T>) -> bool {
        &&& self.len == s.len()
        &&& self.ptr != 0
        &&& self.ptr as nat % align_of::<T>() == 0
    }

    /// The null pair of length zero.
    pub fn empty() -> (r: Self)
        ensures
            r.is_null_empty(),
    {
        SliceInner { ptr: 0, len: 0, marker: PhantomData }
    }

    /// The pair that C code sees for `slice`.
    pub fn from_slice(slice: &[T]) -> (r: Self)
        ensures
            r.describes(slice@),
    {
        SliceInner { ptr: slice_addr(slice), len: slice.len(), marker: PhantomData }
    }
}

/// A shared view of a slice that lives for ever. It can be copied freely and
/// frees nothing.
pub struct SliceRef<T: 'static>(&'static [T]);

/// A shared view of bytes.
pub type ByteSliceRef = SliceRef<u8>;

/// The one view of a slice that lives for ever, through which it can be
/// written. It frees nothing.
pub struct MutSliceRef<T: 'static>(&'static mut [T]);

/// A slice on the heap that this value owns, or the null pair that stands
/// for no slice at all. The buffer is freed once, when the value is dropped,
/// and not at all when it holds no element.
pub struct BoxedSlice<T: 'static>(Option<Box<[T]>>);

impl<T> View for SliceRef<T> {
    type V = Seq<T>;

    closed spec fn view(&self) -> Seq<T> {
        self.0@
    }
}

impl<T> Clone for SliceRef<T> {
    fn clone(&self) -> (r: Self)
        ensures
            r == *self,
    {
        SliceRef(self.0)
    }
}

impl<T> Copy for SliceRef<T> {

}

impl<T> SliceRef<T> {
    /// The wrapper of `slice`, as a value of specifications.
    pub closed spec fn spec_new(slice: &'static [T]) -> Self {
        SliceRef(slice)
    }

    /// The slice under the wrapper, as a value of specifications.
    pub closed spec fn spec_into_slice(self) -> &'static [T] {
        self.0
    }

    /// Wraps a static slice. Nothing is copied or allocated.
    #[verifier::when_used_as_spec(spec_new)]
    pub fn new(slice: &'static [T]) -> (r: Self)
        ensures
            r == Self::spec_new(slice),
            r@ == slice@,
    {
        SliceRef(slice)
    }

    /// Gives the wrapped slice back; the inverse of [`SliceRef::new`].
    #[verifier::when_used_as_spec(spec_into_slice)]
    pub fn into_slice(self) -> (r: &'static [T])
        ensures
            r == self.spec_into_slice(),
            r@ == self@,
    {
        self.0
    }

    /// The elements, borrowed for as long as the wrapper is.
    pub fn as_ref(&self) -> (r: &[T])
        ensures
            r@ == self@,
    {
        self.0
    }

    /// The pair that C code sees for this view.
    pub fn inner(&self) -> (r: SliceInner<T>)
        ensures
            r.describes(self@),
    {
        SliceInner::from_slice(self.0)
    }

    /// Wrapping a slice and unwrapping it gives the slice back, and the other
    /// way round.
    pub proof fn lemma_round_trip(slice: &'static [T], wrapped: Self)
        ensures
            Self::new(slice).into_slice() == slice,
            Self::new(wrapped.into_slice()) == wrapped,
            Self::new(slice)@ == slice@,
    {
    }
}

impl<T> From<&'static [T]> for SliceRef<T> {
    fn from(slice: &'static [T]) -> (r: Self)
        ensures
            r@ == slice@,
    {
        Self::new(slice)
    }
}

impl<T> FromSpecImpl<&'static [T]> for SliceRef<T> {
    open spec fn obeys_from_spec() -> bool {
        true
    }

    open spec fn from_spec(slice: &'static [T]) -> Self {
        Self::new(slice)
    }
}

impl<T> From<SliceRef<T>> for &'static [T] {
    fn from(slice: SliceRef<T>) -> (r: Self)
        ensures
            r@ == slice@,
    {
        slice.into_slice()
    }
}

impl<T> FromSpecImpl<SliceRef<T>> for &'static [T] {
    open spec fn obeys_from_spec() -> bool {
        true
    }

    open spec fn from_spec(slice: SliceRef<T>) -> Self {
        slice.into_slice()
    }
}

impl<T> core::ops::Deref for SliceRef<T> {
    type Target = [T];

    fn deref(&self) -> (r: &[T])
        ensures
            r@ == self@,
    {
        self.0
    }
}

impl<T> View for MutSliceRef<T> {
    type V = Seq<T>;

    closed spec fn view(&self) -> Seq<T> {
        self.0@
    }
}

impl<T> MutSliceRef<T> {
    /// Wraps an exclusive static slice. Nothing is copied or allocated, and
    /// nothing is checked: the reference's type is the whole warrant that no
    /// other view of the buffer is in use.
    pub fn new(slice: &'static mut [T]) -> (r: Self)
        ensures
            r@ == old(slice)@,
    {
        MutSliceRef(slice)
    }

    /// Gives the wrapped reference back; the inverse of [`MutSliceRef::new`].
    pub fn into_mut_slice(self) -> (r: &'static mut [T])
        ensures
            r@ == self@,
    {
        self.0
    }

    /// The elements, borrowed for as long as the wrapper is.
    pub fn as_ref(&self) -> (r: &[T])
        ensures
            r@ == self@,
    {
        &*self.0
    }

    /// The elements, open to writing for as long as the wrapper is borrowed.
    /// What is written through the result is what the wrapper then holds.
    pub fn as_mut(&mut self) -> (r: &mut [T])
        ensures
            r@ == old(self)@,
            final(self)@ == final(r)@,
    {
        &mut *self.0
    }

    /// The pair that C code sees for this view.
    pub fn inner(&self) -> (r: SliceInner<T>)
        ensures
            r.describes(self@),
    {
        SliceInner::from_slice(&*self.0)
    }
}

impl<T> From<&'static mut [T]> for MutSliceRef<T> {
    fn from(slice: &'static mut [T]) -> (r: Self)
        ensures
            r@ == old(slice)@,
    {
        Self::new(slice)
    }
}

impl<T> FromSpecImpl<&'static mut [T]> for MutSliceRef<T> {
    /// An exclusive reference is not compared as a whole: the contract of
    /// `from` speaks of the elements instead.
    open spec fn obeys_from_spec() -> bool {
        false
    }

    closed spec fn from_spec(slice: &'static mut [T]) -> Self {
        MutSliceRef(slice)
    }
}

impl<T> From<MutSliceRef<T>> for &'static mut [T] {
    fn from(slice: MutSliceRef<T>) -> (r: Self)
        ensures
            r@ == slice@,
    {
        slice.into_mut_slice()
    }
}

impl<T> FromSpecImpl<MutSliceRef<T>> for &'static mut [T] {
    /// An exclusive reference is not compared as a whole: the contract of
    /// `from` speaks of the elements instead.
    open spec fn obeys_from_spec() -> bool {
        false
    }

    closed spec fn from_spec(slice: MutSliceRef<T>) -> Self {
        slice.0
    }
}

impl<T> core::ops::Deref for MutSliceRef<T> {
    type Target = [T];

    fn deref(&self) -> (r: &[T])
        ensures
            r@ == self@,
    {
        &*self.0
    }
}

impl<T> core::ops::DerefMut for MutSliceRef<T> {
    fn deref_mut(&mut self) -> (r: &mut [T])
        ensures
            r@ == old(self)@,
            final(self)@ == final(r)@,
    {
        &mut *self.0
    }
}

impl<T> View for BoxedSlice<T> {
    type V = Seq<T>;

    closed spec fn view(&self) -> Seq<T> {
        match self.0 {
            Some(boxed) => boxed@,
            None => Seq::empty(),
        }
    }
}

impl<T> BoxedSlice<T> {
    /// The wrapper holds no box, as a value of specifications.
    pub closed spec fn spec_is_null(&self) -> bool {
        self.0 is None
    }

    /// The wrapper holds no box: C code sees the null pair of length zero.
    #[verifier::when_used_as_spec(spec_is_null)]
    pub fn is_null(&self) -> (r: bool)
        ensures
            r == self.spec_is_null(),
    {
        self.0.is_none()
    }

    /// The wrapper of `boxed`, as a value of specifications.
    pub closed spec fn spec_new(boxed: Box<[T]>) -> Self {
        BoxedSlice(Some(boxed))
    }

    /// The null wrapper, as a value of specifications.
    pub closed spec fn spec_empty() -> Self {
        BoxedSlice(None)
    }

    /// The box that unwrapping gives, as a value of specifications: the box
    /// under the wrapper, and a box without elements for the null wrapper.
    pub closed spec fn spec_into_boxed_slice(self) -> Box<[T]> {
        match self.0 {
            Some(boxed) => boxed,
            None => choose|boxed: Box<[T]>| boxed@ == Seq::<T>::empty(),
        }
    }

    /// Takes over a boxed slice. Nothing is copied or allocated; the buffer is
    /// freed when the wrapper is dropped, unless it is unwrapped first. The
    /// wrapper is not null, also when the slice has no element.
    #[verifier::when_used_as_spec(spec_new)]
    pub fn new(boxed: Box<[T]>) -> (r: Self)
        ensures
            r == Self::spec_new(boxed),
            r@ == boxed@,
            !r.is_null(),
    {
        BoxedSlice(Some(boxed))
    }

    /// The null wrapper: an owned slice without elements and without a
    /// buffer, so that dropping it frees nothing.
    #[verifier::when_used_as_spec(spec_empty)]
    pub fn empty() -> (r: Self)
        ensures
            r == Self::spec_empty(),
            r.is_null(),
            r@ == Seq::<T>::empty(),
    {
        BoxedSlice(None)
    }

    /// Gives the box back to the caller, who owns it again; the inverse of
    /// [`BoxedSlice::new`]. The null wrapper gives a box without elements,
    /// which holds no buffer either.
    #[verifier::when_used_as_spec(spec_into_boxed_slice)]
    pub fn into_boxed_slice(self) -> (r: Box<[T]>)
        ensures
            r == self.spec_into_boxed_slice(),
            r@ == self@,
    {
        match self.0 {
            Some(boxed) => boxed,
            None => {
                let boxed: Box<[T]> = Box::new([]);
                proof {
                    let chosen = choose|b: Box<[T]>| b@ == Seq::<T>::empty();
                    assert(boxed@ == Seq::<T>::empty());
                    assert(chosen@ =~= boxed@);
                    assert(chosen =~= boxed);
                }
                boxed
            },
        }
    }

    /// The elements, borrowed for as long as the wrapper is.
    pub fn as_ref(&self) -> (r: &[T])
        ensures
            r@ == self@,
    {
        match &self.0 {
            Some(boxed) => &**boxed,
            None => &[],
        }
    }

    /// The elements, open to writing for as long as the wrapper is borrowed.
    /// The wrapper stays null, or not null, as it was.
    pub fn as_mut(&mut self) -> (r: &mut [T])
        ensures
            r@ == old(self)@,
            final(self)@ == final(r)@,
            final(self).is_null() == old(self).is_null(),
    {
        match &mut self.0 {
            Some(boxed) => &mut **boxed,
            None => &mut [],
        }
    }

    /// The box itself, borrowed, for a wrapper that holds one.
    pub fn as_box(&self) -> (r: &Box<[T]>)
        requires
            !self.is_null(),
        ensures
            r@ == self@,
            *r == self.spec_into_boxed_slice(),
    {
        match &self.0 {
            Some(boxed) => boxed,
            None => unreached(),
        }
    }

    /// The box itself, open to change for as long as the wrapper is borrowed,
    /// for a wrapper that holds one.
    pub fn as_box_mut(&mut self) -> (r: &mut Box<[T]>)
        requires
            !old(self).is_null(),
        ensures
            r@ == old(self)@,
            final(self)@ == final(r)@,
            !final(self).is_null(),
    {
        match &mut self.0 {
            Some(boxed) => boxed,
            None => unreached(),
        }
    }

    /// The pair that C code sees for this buffer: the null pair for the null
    /// wrapper, else the place and the length of the slice.
    pub fn inner(&self) -> (r: SliceInner<T>)
        ensures
            self.is_null() ==> r.is_null_empty(),
            !self.is_null() ==> r.describes(self@),
    {
        match &self.0 {
            Some(boxed) => SliceInner::from_slice(&**boxed),
            None => SliceInner::empty(),
        }
    }

    /// Wrapping a box and unwrapping it gives the box back. A wrapper that is
    /// not null is rebuilt from what its unwrapping gave. There is one null
    /// wrapper, which is the empty one, and it has no element.
    pub proof fn lemma_round_trip(boxed: Box<[T]>, wrapped: Self)
        ensures
            Self::new(boxed).into_boxed_slice() == boxed,
            Self::new(boxed)@ == boxed@,
            !Self::new(boxed).is_null(),
            !wrapped.is_null() ==> Self::new(wrapped.into_boxed_slice()) == wrapped,
            wrapped.is_null() <==> wrapped == Self::empty(),
            wrapped.is_null() ==> wrapped@ == Seq::<T>::empty(),
    {
    }
}

impl<T> From<Box<[T]>> for BoxedSlice<T> {
    fn from(value: Box<[T]>) -> (r: Self)
        ensures
            r@ == value@,
            !r.is_null(),
    {
        Self::new(value)
    }
}

impl<T> FromSpecImpl<Box<[T]>> for BoxedSlice<T> {
    open spec fn obeys_from_spec() -> bool {
        true
    }

    open spec fn from_spec(value: Box<[T]>) -> Self {
        Self::new(value)
    }
}

impl<T> From<BoxedSlice<T>> for Box<[T]> {
    fn from(value: BoxedSlice<T>) -> (r: Self)
        ensures
            r@ == value@,
    {
        value.into_boxed_slice()
    }
}

impl<T> FromSpecImpl<BoxedSlice<T>> for Box<[T]> {
    open spec fn obeys_from_spec() -> bool {
        true
    }

    open spec fn from_spec(value: BoxedSlice<T>) -> Self {
        value.into_boxed_slice()
    }
}

impl<T> core::ops::Deref for BoxedSlice<T> {
    type Target = [T];

    fn deref(&self) -> (r: &[T])
        ensures
            r@ == self@,
    {
        self.as_ref()
    }
}

impl<T> core::ops::DerefMut for BoxedSlice<T> {
    fn deref_mut(&mut self) -> (r: &mut [T])
        ensures
            r@ == old(self)@,
            final(self)@ == final(r)@,
    {
        self.as_mut()
    }
}

impl<T> core::convert::AsRef<[T]> for SliceRef<T> {
    fn as_ref(&self) -> (r: &[T])
        ensures
            r.view() == self.view(),
    {
        SliceRef::as_ref(self)
    }
}

impl<T> core::borrow::Borrow<[T]> for SliceRef<T> {
    fn borrow(&self) -> (r: &[T])
        ensures
            <[T] as View>::view(r) == self.view(),
    {
        SliceRef::as_ref(self)
    }
}

impl<T> core::convert::AsRef<[T]> for MutSliceRef<T> {
    fn as_ref(&self) -> (r: &[T])
        ensures
            r.view() == self.view(),
    {
        MutSliceRef::as_ref(self)
    }
}

impl<T> core::borrow::Borrow<[T]> for MutSliceRef<T> {
    fn borrow(&self) -> (r: &[T])
        ensures
            <[T] as View>::view(r) == self.view(),
    {
        MutSliceRef::as_ref(self)
    }
}

impl<T> core::convert::AsMut<[T]> for MutSliceRef<T> {
    fn as_mut(&mut self) -> (r: &mut [T])
        ensures
            r.view() == old(self).view(),
            final(self).view() == final(r).view(),
    {
        MutSliceRef::as_mut(self)
    }
}

impl<T> core::borrow::BorrowMut<[T]> for MutSliceRef<T> {
    fn borrow_mut(&mut self) -> (r: &mut [T])
        ensures
            <[T] as View>::view(&*r) == old(self).view(),
            final(self).view() == <[T] as View>::view(&*final(r)),
    {
        MutSliceRef::as_mut(self)
    }
}

impl<T> core::convert::AsRef<[T]> for BoxedSlice<T> {
    fn as_ref(&self) -> (r: &[T])
        ensures
            r.view() == self.view(),
    {
        BoxedSlice::as_ref(self)
    }
}

impl<T> core::borrow::Borrow<[T]> for BoxedSlice<T> {
    fn borrow(&self) -> (r: &[T])
        ensures
            <[T] as View>::view(r) == self.view(),
    {
        BoxedSlice::as_ref(self)
    }
}

impl<T> core::convert::AsMut<[T]> for BoxedSlice<T> {
    fn as_mut(&mut self) -> (r: &mut [T])
        ensures
            r.view() == old(self).view(),
            final(self).view() == final(r).view(),
    {
        BoxedSlice::as_mut(self)
    }
}

impl<T> core::borrow::BorrowMut<[T]> for BoxedSlice<T> {
    fn borrow_mut(&mut self) -> (r: &mut [T])
        ensures
            <[T] as View>::view(&*r) == old(self).view(),
            final(self).view() == <[T] as View>::view(&*final(r)),
    {
        BoxedSlice::as_mut(self)
    }
}

} // verus!
