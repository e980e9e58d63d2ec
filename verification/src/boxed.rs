//! An optional owned value behind one pointer: null when absent, the address of
//! the value when present, with no tag beside it.

use vstd::layout::align_of;
use vstd::prelude::*;
use vstd::std_specs::convert::FromSpecImpl;

verus! {

/// `std::boxed::Box<T>`, which needs no wrapper: it is one pointer already.
pub type Box<T> = std::boxed::Box<T>;

/// `Option<Box<T>>` as C code sees it: one pointer, null for `None`. A value
/// that is present is freed once, when the wrapper is dropped, unless it is
/// unwrapped first.
pub struct OptionBox<T> {
    inner: Option<Box<T>>,
}

/// Address of `value`, taken with `core::ptr::from_ref`. A reference is never
/// null and always aligned for `T`; nothing more is claimed of the address.
#[verifier::external_body]
fn ref_addr<T>(value: &T) -> (addr: usize)
    ensures
        addr != 0,
        addr as nat % align_of::<T>() == 0,
{
    core::ptr::from_ref(value) as usize
}

impl<T> View for OptionBox<T> {
    type V = Option<T>;

    closed spec fn view(&self) -> Option<T> {
        match self.inner {
            Some(boxed) => Some(*boxed),
            None => None,
        }
    }
}

impl<T> OptionBox<T> {
    /// The wrapper of `boxed`, as a value of specifications.
    pub closed spec fn spec_new(boxed: Box<T>) -> Self {
        OptionBox { inner: Some(boxed) }
    }

    /// The wrapper of nothing, as a value of specifications.
    pub closed spec fn spec_none() -> Self {
        OptionBox { inner: None }
    }

    /// The option under the wrapper, as a value of specifications.
    pub closed spec fn spec_into_box(self) -> Option<Box<T>> {
        self.inner
    }

    /// Takes over a box. Nothing is copied or allocated.
    #[verifier::when_used_as_spec(spec_new)]
    pub fn new(boxed: Box<T>) -> (r: Self)
        ensures
            r == Self::spec_new(boxed),
            r@ == Some(*boxed),
    {
        OptionBox { inner: Some(boxed) }
    }

    /// Moves `value` to the heap and wraps it.
    pub fn from_value(value: T) -> (r: Self)
        ensures
            r == Self::spec_new(Box::new(value)),
            r@ == Some(value),
    {
        Self::new(Box::new(value))
    }

    /// Gives the value back as an owned box, or `None` where the wrapper holds
    /// nothing. Unwrapping an absent value frees nothing.
    #[verifier::when_used_as_spec(spec_into_box)]
    pub fn into_box(self) -> (r: Option<Box<T>>)
        ensures
            r == self.spec_into_box(),
            r is None <==> self@ is None,
            r matches Some(boxed) ==> self@ == Some(*boxed),
    {
        self.inner
    }

    /// The wrapper that holds nothing.
    #[verifier::when_used_as_spec(spec_none)]
    pub fn none() -> (r: Self)
        ensures
            r == Self::spec_none(),
            r@ is None,
    {
        OptionBox { inner: None }
    }

    /// The value, borrowed, where there is one.
    pub fn as_ref(&self) -> (r: Option<&T>)
        ensures
            r is None <==> self@ is None,
            r matches Some(value) ==> self@ == Some(*value),
    {
        match &self.inner {
            Some(boxed) => Some(&**boxed),
            None => None,
        }
    }

    /// The pointer that C code sees: null exactly when the wrapper holds
    /// nothing, else the address of the value.
    pub fn ptr(&self) -> (p: usize)
        ensures
            p == 0 <==> self@ is None,
            self@ is Some ==> p as nat % align_of::<T>() == 0,
    {
        match &self.inner {
            Some(boxed) => ref_addr(&**boxed),
            None => 0,
        }
    }

    /// Wrapping a box and unwrapping it gives the box back; wrapping nothing
    /// and unwrapping it gives nothing; and a wrapper is rebuilt from what its
    /// unwrapping gave.
    pub proof fn lemma_round_trip(boxed: Box<T>, wrapped: Self)
        ensures
            Self::new(boxed).into_box() == Some(boxed),
            Self::none().into_box() == None::<Box<T>>,
            Self::new(boxed)@ == Some(*boxed),
            Self::none()@ == None::<T>,
            wrapped.into_box() matches Some(b) ==> Self::new(b) == wrapped,
            wrapped.into_box() is None ==> Self::none() == wrapped,
    {
    }
}

impl<T: Clone> Clone for OptionBox<T> {
    /// Nothing stays nothing. A present value is cloned into a box of its own,
    /// and the original keeps its value.
    fn clone(&self) -> (r: Self)
        ensures
            r@ is None <==> self@ is None,
            self@ matches Some(value) ==> r@ is Some && cloned::<T>(value, r@->0),
    {
        match &self.inner {
            None => Self::none(),
            Some(boxed) => {
                let copy: Box<T> = boxed.clone();
                Self::new(copy)
            },
        }
    }
}

impl<T> From<Box<T>> for OptionBox<T> {
    fn from(boxed: Box<T>) -> (r: Self)
        ensures
            r@ == Some(*boxed),
    {
        Self::new(boxed)
    }
}

impl<T> FromSpecImpl<Box<T>> for OptionBox<T> {
    open spec fn obeys_from_spec() -> bool {
        true
    }

    open spec fn from_spec(boxed: Box<T>) -> Self {
        Self::new(boxed)
    }
}

impl<T> From<Option<Box<T>>> for OptionBox<T> {
    fn from(boxed: Option<Box<T>>) -> (r: Self)
        ensures
            r@ is None <==> boxed is None,
            boxed matches Some(value) ==> r@ == Some(*value),
    {
        if let Some(boxed) = boxed {
            Self::new(boxed)
        } else {
            Self::none()
        }
    }
}

impl<T> FromSpecImpl<Option<Box<T>>> for OptionBox<T> {
    open spec fn obeys_from_spec() -> bool {
        true
    }

    open spec fn from_spec(boxed: Option<Box<T>>) -> Self {
        match boxed {
            Some(boxed) => Self::new(boxed),
            None => Self::none(),
        }
    }
}

impl<T> Default for OptionBox<T> {
    fn default() -> (r: Self)
        ensures
            r == Self::none(),
            r@ is None,
    {
        Self::none()
    }
}

} // verus!
