use rawvec::{alloc_guard, AllocError, Failure, Layout, LayoutError};
use std::mem::{align_of, size_of};

const MAX_BYTES: usize = isize::MAX as usize;

#[test]
fn array_of_four_byte_elements() {
    let layout = Layout::array::<u32>(1000).unwrap();
    assert_eq!(layout.size(), 4000);
    assert_eq!(layout.align(), align_of::<u32>());
}

#[test]
fn array_of_no_elements() {
    let layout = Layout::array::<u64>(0).unwrap();
    assert_eq!(layout.size(), 0);
    assert_eq!(layout.align(), align_of::<u64>());
}

#[test]
fn array_of_zero_sized_elements() {
    let layout = Layout::array::<()>(usize::MAX).unwrap();
    assert_eq!(layout.size(), 0);
    assert_eq!(layout.align(), 1);
}

#[test]
fn array_keeps_element_alignment() {
    let layout = Layout::array::<[u64; 3]>(5).unwrap();
    assert_eq!(layout.size(), 5 * size_of::<[u64; 3]>());
    assert_eq!(layout.align(), align_of::<u64>());
    assert_eq!(layout.size() % layout.align(), 0);
}

#[test]
fn array_of_bytes_up_to_the_limit() {
    let layout = Layout::array::<u8>(MAX_BYTES).unwrap();
    assert_eq!(layout.size(), MAX_BYTES);
    assert_eq!(layout.align(), 1);
}

#[test]
fn array_of_bytes_past_the_limit() {
    assert_eq!(Layout::array::<u8>(MAX_BYTES + 1), Err(LayoutError));
}

#[test]
fn array_whose_padding_passes_the_limit() {
    let align = align_of::<u32>();
    let most = (MAX_BYTES - (align - 1)) / 4;
    assert_eq!(Layout::array::<u32>(most).unwrap().size(), most * 4);
    assert_eq!(Layout::array::<u32>(MAX_BYTES / 4 + 1), Err(LayoutError));
}

#[test]
fn array_whose_size_overflows() {
    assert_eq!(Layout::array::<u64>(usize::MAX), Err(LayoutError));
    assert_eq!(Layout::array::<u16>(usize::MAX / 2 + 1), Err(LayoutError));
}

#[test]
fn layouts_compare_by_size_and_alignment() {
    assert_eq!(Layout::array::<u16>(4).unwrap(), Layout::array::<u16>(4).unwrap());
    assert_ne!(Layout::array::<u16>(4).unwrap(), Layout::array::<u16>(5).unwrap());
}

#[test]
fn guard_accepts_up_to_the_limit() {
    assert_eq!(alloc_guard(0), Ok(()));
    assert_eq!(alloc_guard(4000), Ok(()));
    assert_eq!(alloc_guard(MAX_BYTES), Ok(()));
}

#[test]
fn guard_refuses_past_the_limit() {
    assert_eq!(alloc_guard(MAX_BYTES + 1), Err(Failure::CapacityOverflow));
    assert_eq!(alloc_guard(usize::MAX), Err(Failure::CapacityOverflow));
}

#[test]
fn failure_from_layout_error() {
    assert_eq!(Failure::from(LayoutError), Failure::Layout);
}

#[test]
fn failure_from_alloc_error() {
    assert_eq!(Failure::from(AllocError), Failure::Allocation);
}
