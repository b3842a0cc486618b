use std::mem;

use wrs32::layout::{check_buf_layout, is_power_of_two, BufError, BufLayout};

#[test]
fn powers_of_two() {
    assert!(!is_power_of_two(0));
    assert!(is_power_of_two(1));
    assert!(is_power_of_two(2));
    assert!(!is_power_of_two(3));
    assert!(is_power_of_two(4096));
    assert!(!is_power_of_two(4097));
    assert!(is_power_of_two(1usize << 63));
    assert!(!is_power_of_two(usize::MAX));
}

#[test]
fn layout_from_size_align() {
    let l = BufLayout::from_size_align(10, 8).unwrap();
    assert_eq!(l.size(), 10);
    assert_eq!(l.align(), 8);
    assert!(BufLayout::from_size_align(10, 3).is_none());
    assert!(BufLayout::from_size_align(10, 0).is_none());
    assert!(BufLayout::from_size_align(isize::MAX as usize, 1).is_some());
    assert!(BufLayout::from_size_align(isize::MAX as usize, 2).is_none());
    assert!(BufLayout::from_size_align(isize::MAX as usize - 7, 8).is_some());
    assert!(BufLayout::from_size_align(isize::MAX as usize - 6, 8).is_none());
    assert!(BufLayout::from_size_align(0, 1).is_some());
}

#[test]
fn layout_agrees_with_std() {
    for size in [0usize, 1, 7, 8, 100, isize::MAX as usize - 15, isize::MAX as usize] {
        for align in [0usize, 1, 2, 3, 4, 8, 12, 16, 4096] {
            assert_eq!(
                BufLayout::from_size_align(size, align).is_some(),
                std::alloc::Layout::from_size_align(size, align).is_ok()
            );
        }
    }
}

#[test]
fn size_smaller_than_value_is_refused() {
    assert_eq!(
        check_buf_layout::<u64>(1, mem::align_of::<u64>()).err(),
        Some(BufError::SizeTooSmall)
    );
}

#[test]
fn alignment_not_multiple_is_refused() {
    assert_eq!(
        check_buf_layout::<u64>(mem::size_of::<u64>(), 3).err(),
        Some(BufError::AlignmentNotMultiple)
    );
}

#[test]
fn alignment_not_power_of_two_is_refused() {
    assert_eq!(check_buf_layout::<u8>(4, 3).err(), Some(BufError::AlignmentNotPowerOfTwo));
    assert_eq!(check_buf_layout::<u8>(4, 0).err(), Some(BufError::AlignmentNotPowerOfTwo));
    assert_eq!(check_buf_layout::<u32>(8, 12).err(), Some(BufError::AlignmentNotPowerOfTwo));
}

#[test]
fn oversized_layout_is_refused() {
    assert_eq!(
        check_buf_layout::<u8>(isize::MAX as usize, 2).err(),
        Some(BufError::LayoutOverflow)
    );
}

#[test]
fn size_check_comes_first() {
    assert_eq!(check_buf_layout::<u64>(0, 3).err(), Some(BufError::SizeTooSmall));
}

#[test]
fn good_layout_is_accepted() {
    let l = check_buf_layout::<u32>(12, 16).unwrap();
    assert_eq!(l.size(), 12);
    assert_eq!(l.align(), 16);
}
