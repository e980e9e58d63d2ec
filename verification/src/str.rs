//! Borrowed and owned strings. Their bytes are UTF-8 for as long as they live,
//! which C code relies on and cannot check.

use crate::slice::SliceInner;
use vstd::prelude::*;
use vstd::std_specs::convert::FromSpecImpl;
use vstd::utf8::{decode_utf8, encode_utf8, valid_utf8};

verus! {

/// A view of a string that lives for ever. It can be copied freely and frees
/// nothing.
pub struct StrRef(&'static str);

/// A string on the heap that this value owns. The buffer is freed once, when
/// the value is dropped, and not at all when the string is empty.
pub struct BoxedStr(Box<str>);

impl SliceInner<u8> {
    /// The pair that C code sees for the bytes of `value`.
    pub fn from_str(value: &str) -> (r: Self)
        ensures
            r.describes(encode_utf8(value@)),
    {
        Self::from_slice(value.as_bytes())
    }
}

impl View for StrRef {
    type V = Seq<char>;

    closed spec fn view(&self) -> Seq<char> {
        self.0@
    }
}

impl Clone for StrRef {
    fn clone(&self) -> (r: Self)
        ensures
            r == *self,
    {
        StrRef(self.0)
    }
}

impl Copy for StrRef {

}

impl StrRef {
    /// The bytes that make up the text.
    pub open spec fn bytes(self) -> Seq<u8> {
        encode_utf8(self@)
    }

    /// The wrapper of `value`, as a value of specifications.
    pub closed spec fn spec_new(value: &'static str) -> Self {
        StrRef(value)
    }

    /// The string under the wrapper, as a value of specifications.
    pub closed spec fn spec_into_str(self) -> &'static str {
        self.0
    }

    /// Wraps a static string. Nothing is copied or allocated.
    #[verifier::when_used_as_spec(spec_new)]
    pub fn new(value: &'static str) -> (r: Self)
        ensures
            r == Self::spec_new(value),
            r@ == value@,
    {
        StrRef(value)
    }

    /// The wrapped string; the wrapper stays usable.
    pub fn as_str(&self) -> (r: &'static str)
        ensures
            r == self.spec_into_str(),
            r@ == self@,
    {
        self.0
    }

    /// Gives the wrapped string back; the inverse of [`StrRef::new`].
    #[verifier::when_used_as_spec(spec_into_str)]
    pub fn into_str(self) -> (r: &'static str)
        ensures
            r == self.spec_into_str(),
            r@ == self@,
    {
        self.0
    }

    /// The text, borrowed for as long as the wrapper is.
    pub fn as_ref(&self) -> (r: &str)
        ensures
            r@ == self@,
    {
        self.0
    }

    /// The pair that C code sees for the bytes of this string.
    pub fn inner(&self) -> (r: SliceInner<u8>)
        ensures
            r.describes(self.bytes()),
    {
        SliceInner::from_str(self.0)
    }

    /// Wrapping a string and unwrapping it gives the string back, and the other
    /// way round.
    pub proof fn lemma_round_trip(value: &'static str, wrapped: Self)
        ensures
            Self::new(value).into_str() == value,
            Self::new(wrapped.into_str()) == wrapped,
            Self::new(value)@ == value@,
    {
    }

    /// The bytes of a wrapped string are UTF-8, and decode to its text.
    pub proof fn lemma_bytes_are_utf8(self)
        ensures
            valid_utf8(self.bytes()),
            decode_utf8(self.bytes()) == self@,
    {
        vstd::utf8::encode_utf8_valid_utf8(self@);
        vstd::utf8::encode_utf8_decode_utf8(self@);
    }
}

impl From<&'static str> for StrRef {
    fn from(s: &'static str) -> (r: Self)
        ensures
            r@ == s@,
    {
        Self::new(s)
    }
}

impl FromSpecImpl<&'static str> for StrRef {
    open spec fn obeys_from_spec() -> bool {
        true
    }

    open spec fn from_spec(s: &'static str) -> Self {
        Self::new(s)
    }
}

impl From<StrRef> for &'static str {
    fn from(s: StrRef) -> (r: Self)
        ensures
            r@ == s@,
    {
        s.into_str()
    }
}

impl FromSpecImpl<StrRef> for &'static str {
    open spec fn obeys_from_spec() -> bool {
        true
    }

    open spec fn from_spec(s: StrRef) -> Self {
        s.into_str()
    }
}

impl core::ops::Deref for StrRef {
    type Target = str;

    fn deref(&self) -> (r: &str)
        ensures
            r@ == self@,
    {
        self.0
    }
}

/// A fresh copy of `value`, made with `<Box<str> as Clone>::clone`: the copy
/// holds the same text.
#[verifier::external_body]
fn clone_boxed_str(value: &Box<str>) -> (r: Box<str>)
    ensures
        r@ == value@,
{
    value.clone()
}

impl View for BoxedStr {
    type V = Seq<char>;

    closed spec fn view(&self) -> Seq<char> {
        self.0@
    }
}

impl BoxedStr {
    /// The bytes that make up the text.
    pub open spec fn bytes(self) -> Seq<u8> {
        encode_utf8(self@)
    }

    /// The wrapper of `value`, as a value of specifications.
    pub closed spec fn spec_new(value: Box<str>) -> Self {
        BoxedStr(value)
    }

    /// The box under the wrapper, as a value of specifications.
    pub closed spec fn spec_into_boxed_str(self) -> Box<str> {
        self.0
    }

    /// Takes over a boxed string. Nothing is copied or allocated; the buffer is
    /// freed when the wrapper is dropped, unless it is unwrapped first.
    #[verifier::when_used_as_spec(spec_new)]
    pub fn new(value: Box<str>) -> (r: Self)
        ensures
            r == Self::spec_new(value),
            r@ == value@,
    {
        BoxedStr(value)
    }

    /// Gives the box back to the caller, who owns it again; the inverse of
    /// [`BoxedStr::new`].
    #[verifier::when_used_as_spec(spec_into_boxed_str)]
    pub fn into_boxed_str(self) -> (r: Box<str>)
        ensures
            r == self.spec_into_boxed_str(),
            r@ == self@,
    {
        self.0
    }

    /// The text, borrowed for as long as the wrapper is.
    pub fn as_ref(&self) -> (r: &str)
        ensures
            r@ == self@,
    {
        &*self.0
    }

    /// The box itself, borrowed.
    pub fn as_box(&self) -> (r: &Box<str>)
        ensures
            r@ == self@,
    {
        &self.0
    }

    /// The pair that C code sees for the bytes of this string.
    pub fn inner(&self) -> (r: SliceInner<u8>)
        ensures
            r.describes(self.bytes()),
    {
        SliceInner::from_str(&*self.0)
    }

    /// Wrapping a box and unwrapping it gives the box back, and the other way
    /// round.
    pub proof fn lemma_round_trip(value: Box<str>, wrapped: Self)
        ensures
            Self::new(value).into_boxed_str() == value,
            Self::new(wrapped.into_boxed_str()) == wrapped,
            Self::new(value)@ == value@,
    {
    }

    /// The bytes of a wrapped string are UTF-8, and decode to its text.
    pub proof fn lemma_bytes_are_utf8(self)
        ensures
            valid_utf8(self.bytes()),
            decode_utf8(self.bytes()) == self@,
    {
        vstd::utf8::encode_utf8_valid_utf8(self@);
        vstd::utf8::encode_utf8_decode_utf8(self@);
    }
}

impl Clone for BoxedStr {
    /// A copy in a buffer of its own, with the same text.
    fn clone(&self) -> (r: Self)
        ensures
            r@ == self@,
    {
        BoxedStr(clone_boxed_str(&self.0))
    }
}

impl From<Box<str>> for BoxedStr {
    fn from(value: Box<str>) -> (r: Self)
        ensures
            r@ == value@,
    {
        Self::new(value)
    }
}

impl FromSpecImpl<Box<str>> for BoxedStr {
    open spec fn obeys_from_spec() -> bool {
        true
    }

    open spec fn from_spec(value: Box<str>) -> Self {
        Self::new(value)
    }
}

impl From<BoxedStr> for Box<str> {
    fn from(value: BoxedStr) -> (r: Self)
        ensures
            r@ == value@,
    {
        value.into_boxed_str()
    }
}

impl FromSpecImpl<BoxedStr> for Box<str> {
    open spec fn obeys_from_spec() -> bool {
        true
    }

    open spec fn from_spec(value: BoxedStr) -> Self {
        value.into_boxed_str()
    }
}

impl core::ops::Deref for BoxedStr {
    type Target = str;

    fn deref(&self) -> (r: &str)
        ensures
            r@ == self@,
    {
        &*self.0
    }
}

impl core::convert::AsRef<str> for StrRef {
    fn as_ref(&self) -> (r: &str)
        ensures
            r.view() == self.view(),
    {
        StrRef::as_ref(self)
    }
}

impl core::borrow::Borrow<str> for StrRef {
    fn borrow(&self) -> (r: &str)
        ensures
            <str as View>::view(r) == self.view(),
    {
        StrRef::as_ref(self)
    }
}

impl core::convert::AsRef<str> for BoxedStr {
    fn as_ref(&self) -> (r: &str)
        ensures
            r.view() == self.view(),
    {
        BoxedStr::as_ref(self)
    }
}

impl core::borrow::Borrow<str> for BoxedStr {
    fn borrow(&self) -> (r: &str)
        ensures
            <str as View>::view(r) == self.view(),
    {
        BoxedStr::as_ref(self)
    }
}

} // verus!
