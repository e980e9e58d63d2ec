use ffi_types::{AsFfiType, BoxedStr, IntoFfiType, SliceRef, StrRef, ToFfiType};

struct Label(&'static str);

impl AsFfiType for Label {
    type FfiType = StrRef;

    fn as_ffi_type(&self) -> StrRef {
        StrRef::new(self.0)
    }
}

impl ToFfiType for Label {
    type FfiType = SliceRef<u8>;

    fn to_ffi_type(self) -> SliceRef<u8> {
        SliceRef::new(self.0.as_bytes())
    }
}

struct Title(String);

impl From<Title> for BoxedStr {
    fn from(title: Title) -> BoxedStr {
        BoxedStr::new(title.0.into_boxed_str())
    }
}

impl IntoFfiType for Title {
    type FfiType = BoxedStr;
}

#[test]
fn as_ffi_type_leaves_the_value_in_place() {
    let label = Label("shown");
    assert_eq!(label.as_ffi_type().as_str(), "shown");
    assert_eq!(label.as_ffi_type().as_str(), "shown");
}

#[test]
fn to_ffi_type_gives_the_value_up() {
    assert_eq!(Label("raw").to_ffi_type().as_ref(), b"raw");
}

#[test]
fn into_ffi_type_is_what_into_gives() {
    let wrapped = Title(String::from("A Title")).into_ffi_type();
    assert_eq!(wrapped.as_ref(), "A Title");
}
