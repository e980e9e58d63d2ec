//! Conversions that a caller's own types offer into their C-side forms.

use vstd::prelude::*;
use vstd::std_specs::convert::IntoSpec;

verus! {

/// A value that can show itself in its C-side form without being given up.
pub trait AsFfiType {
    type FfiType;

    fn as_ffi_type(&self) -> Self::FfiType;
}

/// A value that is turned into its C-side form.
pub trait ToFfiType {
    type FfiType;

    fn to_ffi_type(self) -> Self::FfiType;
}

/// A value whose C-side form is the one that `Into` gives.
pub trait IntoFfiType where Self: Into<Self::FfiType> {
    type FfiType;

    fn into_ffi_type(self) -> (r: Self::FfiType)
        default_ensures
            <Self as IntoSpec<Self::FfiType>>::obeys_into_spec() ==> r == self.into_spec(),
    {
        self.into()
    }
}

} // verus!
