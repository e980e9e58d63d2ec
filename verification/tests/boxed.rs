use ffi_types::{Box, OptionBox};

#[test]
fn option_box_none_is_the_null_pointer() {
    let absent = OptionBox::<u32>::none();
    assert_eq!(absent.ptr(), 0);
    assert!(absent.as_ref().is_none());
    assert!(absent.into_box().is_none());
}

#[test]
fn option_box_default_is_none() {
    let absent = OptionBox::<String>::default();
    assert_eq!(absent.ptr(), 0);
    assert!(absent.into_box().is_none());
}

#[test]
fn option_box_present_is_not_null() {
    let present = OptionBox::from_value(5u64);
    assert_ne!(present.ptr(), 0);
    assert_eq!(present.ptr() % std::mem::align_of::<u64>(), 0);
    assert_eq!(present.as_ref(), Some(&5));
}

#[test]
fn option_box_of_a_value_without_size_is_not_null() {
    let present = OptionBox::from_value(());
    assert_ne!(present.ptr(), 0);
    assert_eq!(present.into_box(), Some(Box::new(())));
}

#[test]
fn option_box_round_trip_keeps_place_and_value() {
    let wrapped = OptionBox::new(Box::new(String::from("kept")));
    let place = wrapped.ptr();
    let back = wrapped.into_box().unwrap();
    assert_eq!(*back, "kept");
    let again = OptionBox::new(back);
    assert_eq!(again.ptr(), place);
    assert_eq!(again.as_ref().map(|s| s.as_str()), Some("kept"));
}

#[test]
fn option_box_from_value_boxes_the_value() {
    let wrapped = OptionBox::from_value(vec![1, 2, 3]);
    assert_eq!(wrapped.into_box(), Some(Box::new(vec![1, 2, 3])));
}

#[test]
fn option_box_clone_is_equal_in_value_and_apart_in_place() {
    let first = OptionBox::from_value(String::from("twice"));
    let second = first.clone();
    assert_eq!(first.as_ref(), second.as_ref());
    assert_ne!(first.ptr(), 0);
    assert_ne!(second.ptr(), 0);
    assert_ne!(first.ptr(), second.ptr());
    drop(first);
    assert_eq!(second.as_ref().map(|s| s.as_str()), Some("twice"));
    drop(second);
}

#[test]
fn option_box_clone_of_none_is_none() {
    let first = OptionBox::<String>::none();
    let second = first.clone();
    assert_eq!(second.ptr(), 0);
    assert!(second.into_box().is_none());
    assert!(first.into_box().is_none());
}

#[test]
fn option_box_converts_from_a_box() {
    let wrapped: OptionBox<i32> = Box::new(-4).into();
    assert_eq!(wrapped.as_ref(), Some(&-4));
}

#[test]
fn option_box_converts_from_an_option() {
    let present: OptionBox<i32> = Some(Box::new(3)).into();
    assert_eq!(present.into_box(), Some(Box::new(3)));
    let absent: OptionBox<i32> = None.into();
    assert_eq!(absent.ptr(), 0);
    assert_eq!(absent.into_box(), None);
}
