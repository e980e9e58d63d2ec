//! The names under which C code knows the containers, and the way in which
//! bytes that come from C code become strings.

use crate::boxed::OptionBox;
use crate::slice::{BoxedSlice, ByteSliceRef, SliceRef};
use crate::str::{BoxedStr, StrRef};
use vstd::prelude::*;
use vstd::std_specs::convert::FromSpecImpl;
use vstd::utf8::{decode_utf8, encode_utf8, partial_valid_utf8, valid_utf8};

verus! {

pub type COptionBox<T> = OptionBox<T>;

pub type CBox<T> = COptionBox<T>;

pub type CSliceRef<T> = SliceRef<T>;

pub type CBoxedSlice<T> = BoxedSlice<T>;

pub type CByteSliceRef = ByteSliceRef;

pub type CStrRef = StrRef;

pub type CBoxedStr = BoxedStr;

/// Bytes that C code calls a string. They are not known to be UTF-8 until
/// [`CharStrRef::into_rust`] or [`CharStrRef::to_str`] has said so.
pub type CharStrRef = SliceRef<u8>;

/// `n` is the length of the longest prefix of `bytes` that is UTF-8.
pub open spec fn is_valid_up_to(bytes: Seq<u8>, n: int) -> bool {
    &&& partial_valid_utf8(bytes, n)
    &&& forall|m: int| n < m ==> !#[trigger] partial_valid_utf8(bytes, m)
}

/// `core::str::Utf8Error`, of which nothing is known but its `valid_up_to`.
#[verifier::external_type_specification]
#[verifier::external_body]
pub struct ExUtf8Error(core::str::Utf8Error);

/// What `core::str::Utf8Error::valid_up_to` returns for `error`: the offset
/// that the error holds.
pub uninterp spec fn error_valid_up_to(error: core::str::Utf8Error) -> usize;

/// `core::str::from_utf8` succeeds exactly on UTF-8, and the string it gives
/// is made of the very bytes it was given. When it fails, the error's
/// `valid_up_to` is the length of the longest prefix that is UTF-8.
pub assume_specification<'a>[ core::str::from_utf8 ](v: &'a [u8]) -> (r: Result<
    &'a str,
    core::str::Utf8Error,
>)
    ensures
        r is Ok <==> valid_utf8(v@),
        r matches Ok(s) ==> encode_utf8(s@) == v@,
        r matches Err(e) ==> is_valid_up_to(v@, error_valid_up_to(e) as int),
;

/// `core::str::Utf8Error::valid_up_to` reads the offset that the error holds.
pub assume_specification[ core::str::Utf8Error::valid_up_to ](e: &core::str::Utf8Error) -> (n:
    usize)
    ensures
        n == error_valid_up_to(*e),
;

/// Bytes have one longest prefix that is UTF-8.
pub proof fn lemma_valid_up_to_is_unique(bytes: Seq<u8>, a: int, b: int)
    requires
        is_valid_up_to(bytes, a),
        is_valid_up_to(bytes, b),
    ensures
        a == b,
{
    if a < b {
        assert(!partial_valid_utf8(bytes, b));
    } else if b < a {
        assert(!partial_valid_utf8(bytes, a));
    }
}

/// Bytes always have a longest prefix that is UTF-8: all of them where they are
/// UTF-8 as a whole, and a shorter one, the empty one at the least, where they
/// are not.
pub proof fn lemma_valid_up_to_exists(bytes: Seq<u8>) -> (n: int)
    ensures
        is_valid_up_to(bytes, n),
        valid_utf8(bytes) <==> n == bytes.len(),
{
    let n = longest_valid_prefix(bytes, bytes.len() as int);
    assert(bytes.subrange(0, bytes.len() as int) =~= bytes);
    n
}

/// The longest prefix that is UTF-8 among those of at most `limit` bytes, when
/// no longer one is.
proof fn longest_valid_prefix(bytes: Seq<u8>, limit: int) -> (n: int)
    requires
        0 <= limit <= bytes.len(),
        forall|m: int| limit < m ==> !#[trigger] partial_valid_utf8(bytes, m),
    ensures
        is_valid_up_to(bytes, n),
        n <= limit,
        n == limit <==> partial_valid_utf8(bytes, limit),
    decreases limit,
{
    if partial_valid_utf8(bytes, limit) {
        limit
    } else {
        assert(limit > 0) by {
            assert(bytes.subrange(0, 0).len() == 0);
        }
        assert forall|m: int| limit - 1 < m implies !#[trigger] partial_valid_utf8(bytes, m) by {
            if m == limit {
            }
        }
        longest_valid_prefix(bytes, limit - 1)
    }
}

/// Checks `bytes` and gives them back as a string of the same lifetime, or
/// the error that says where they stop being UTF-8.
fn check_utf8<'a>(bytes: &'a [u8]) -> (r: Result<&'a str, core::str::Utf8Error>)
    ensures
        r is Ok <==> valid_utf8(bytes@),
        r matches Ok(s) ==> encode_utf8(s@) == bytes@ && s@ == decode_utf8(bytes@),
        r matches Err(e) ==> is_valid_up_to(bytes@, error_valid_up_to(e) as int),
{
    let r = core::str::from_utf8(bytes);
    proof {
        if let Ok(s) = r {
            vstd::utf8::encode_utf8_decode_utf8(s@);
        }
    }
    r
}

impl CharStrRef {
    /// The bytes as they are.
    pub fn as_bytes(&self) -> (r: &[u8])
        ensures
            r@ == self@,
    {
        self.as_ref()
    }

    /// The bytes as a string where they are UTF-8, else an error whose
    /// `valid_up_to` is the place where they stop being so.
    pub fn to_str(&self) -> (r: Result<&str, core::str::Utf8Error>)
        ensures
            r is Ok <==> valid_utf8(self@),
            r matches Ok(s) ==> encode_utf8(s@) == self@ && s@ == decode_utf8(self@),
            r matches Err(e) ==> is_valid_up_to(self@, error_valid_up_to(e) as int),
    {
        check_utf8(self.as_bytes())
    }

    /// The bytes as a string, for bytes that are UTF-8.
    pub fn unwrap_str(&self) -> (r: &str)
        requires
            valid_utf8(self@),
        ensures
            r@ == decode_utf8(self@),
            encode_utf8(r@) == self@,
    {
        match self.to_str() {
            Ok(s) => s,
            // not reached: the bytes are UTF-8
            Err(_) => "",
        }
    }

    /// The bytes as a string, for bytes that are UTF-8. `msg` says what the
    /// caller took for granted.
    pub fn expect_str(&self, msg: &str) -> (r: &str)
        requires
            valid_utf8(self@),
        ensures
            r@ == decode_utf8(self@),
            encode_utf8(r@) == self@,
    {
        let _ = msg;
        self.unwrap_str()
    }

    /// The string view of bytes that the caller knows to be UTF-8.
    pub fn into_rust_unchecked(self) -> (r: StrRef)
        requires
            valid_utf8(self@),
        ensures
            r@ == decode_utf8(self@),
            r.bytes() == self@,
    {
        match check_utf8(self.into_slice()) {
            Ok(s) => StrRef::new(s),
            // not reached: the bytes are UTF-8
            Err(_) => StrRef::new(""),
        }
    }

    /// The string view of the bytes where they are UTF-8, else an error whose
    /// `valid_up_to` is the place where they stop being so. The bytes stay
    /// readable either way.
    pub fn into_rust(self) -> (r: Result<StrRef, core::str::Utf8Error>)
        ensures
            r is Ok <==> valid_utf8(self@),
            r matches Ok(s) ==> s.bytes() == self@ && s@ == decode_utf8(self@),
            r matches Err(e) ==> is_valid_up_to(self@, error_valid_up_to(e) as int),
    {
        match check_utf8(self.into_slice()) {
            Ok(s) => Ok(StrRef::new(s)),
            Err(e) => Err(e),
        }
    }
}

impl From<StrRef> for CharStrRef {
    /// The bytes of a string, which are UTF-8.
    fn from(s: StrRef) -> (r: Self)
        ensures
            r@ == s.bytes(),
            valid_utf8(r@),
    {
        proof {
            s.lemma_bytes_are_utf8();
        }
        SliceRef::new(s.into_str().as_bytes())
    }
}

impl FromSpecImpl<StrRef> for CharStrRef {
    /// The view is described by its bytes alone: the contract of `from` says
    /// which they are.
    open spec fn obeys_from_spec() -> bool {
        false
    }

    open spec fn from_spec(s: StrRef) -> Self {
        arbitrary()
    }
}

} // verus!
