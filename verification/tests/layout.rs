use ffi_types::{BoxedSlice, BoxedStr, MutSliceRef, OptionBox, SliceInner, SliceRef, StrRef};
use std::mem::{align_of, size_of};

fn same_layout<A, B>() -> bool {
    size_of::<A>() == size_of::<B>() && align_of::<A>() == align_of::<B>()
}

fn slice_wrappers_mirror_native_slices<T: 'static>() {
    assert!(same_layout::<SliceRef<T>, &'static [T]>());
    assert!(same_layout::<MutSliceRef<T>, &'static mut [T]>());
    assert!(same_layout::<BoxedSlice<T>, Box<[T]>>());
    assert!(same_layout::<BoxedSlice<T>, Option<Box<[T]>>>());
    assert!(same_layout::<SliceInner<T>, &'static [T]>());
    assert!(same_layout::<SliceInner<T>, (usize, usize)>());
}

fn option_box_mirrors_one_pointer<T>() {
    assert!(same_layout::<OptionBox<T>, usize>());
    assert!(same_layout::<OptionBox<T>, Box<T>>());
    assert!(same_layout::<OptionBox<T>, Option<Box<T>>>());
}

#[test]
fn slice_wrappers_are_a_pointer_and_a_length_for_every_element() {
    slice_wrappers_mirror_native_slices::<u8>();
    slice_wrappers_mirror_native_slices::<i8>();
    slice_wrappers_mirror_native_slices::<u16>();
    slice_wrappers_mirror_native_slices::<u32>();
    slice_wrappers_mirror_native_slices::<u64>();
    slice_wrappers_mirror_native_slices::<u128>();
    slice_wrappers_mirror_native_slices::<()>();
    slice_wrappers_mirror_native_slices::<[u8; 3]>();
    slice_wrappers_mirror_native_slices::<(u8, u64)>();
    slice_wrappers_mirror_native_slices::<String>();
    slice_wrappers_mirror_native_slices::<Box<u8>>();
    slice_wrappers_mirror_native_slices::<&'static str>();
    assert_eq!(size_of::<SliceRef<u8>>(), 2 * size_of::<usize>());
    assert_eq!(align_of::<SliceRef<u8>>(), align_of::<usize>());
}

#[test]
fn string_wrappers_are_a_pointer_and_a_length() {
    assert!(same_layout::<StrRef, &'static str>());
    assert!(same_layout::<StrRef, &'static [u8]>());
    assert!(same_layout::<BoxedStr, Box<str>>());
    assert!(same_layout::<BoxedStr, Option<Box<str>>>());
    assert!(same_layout::<BoxedStr, SliceInner<u8>>());
    assert_eq!(size_of::<StrRef>(), 2 * size_of::<usize>());
}

#[test]
fn option_box_is_one_pointer_for_every_pointee() {
    option_box_mirrors_one_pointer::<u8>();
    option_box_mirrors_one_pointer::<u64>();
    option_box_mirrors_one_pointer::<u128>();
    option_box_mirrors_one_pointer::<()>();
    option_box_mirrors_one_pointer::<[u32; 7]>();
    option_box_mirrors_one_pointer::<String>();
    option_box_mirrors_one_pointer::<Vec<u8>>();
    option_box_mirrors_one_pointer::<OptionBox<u8>>();
    assert_eq!(size_of::<OptionBox<u8>>(), size_of::<usize>());
    assert_eq!(align_of::<OptionBox<u8>>(), align_of::<usize>());
}

fn is_send<T: Send>() {}

fn is_sync<T: Sync>() {}

#[test]
fn containers_are_as_safe_between_threads_as_what_they_hold() {
    is_send::<SliceRef<u8>>();
    is_sync::<SliceRef<u8>>();
    is_send::<MutSliceRef<u8>>();
    is_sync::<MutSliceRef<u8>>();
    is_send::<BoxedSlice<String>>();
    is_sync::<BoxedSlice<String>>();
    is_send::<StrRef>();
    is_sync::<StrRef>();
    is_send::<BoxedStr>();
    is_sync::<BoxedStr>();
    is_send::<OptionBox<Vec<u8>>>();
    is_sync::<OptionBox<Vec<u8>>>();
    is_send::<SliceInner<u8>>();
    is_sync::<SliceInner<u8>>();
}
