use core_alloc::Layout;

#[test]
fn from_size_align_accepts_a_valid_request() {
    let l = Layout::from_size_align(64, 8).unwrap();
    assert_eq!(l.size, 64);
    assert_eq!(l.align, 8);
}

#[test]
fn from_size_align_accepts_a_zero_size() {
    let l = Layout::from_size_align(0, 1).unwrap();
    assert_eq!(l.size, 0);
    assert_eq!(l.align, 1);
}

#[test]
fn from_size_align_rejects_a_zero_alignment() {
    assert!(Layout::from_size_align(64, 0).is_none());
}

#[test]
fn from_size_align_rejects_a_non_power_of_two_alignment() {
    assert!(Layout::from_size_align(64, 3).is_none());
    assert!(Layout::from_size_align(64, 6).is_none());
    assert!(Layout::from_size_align(64, 24).is_none());
}

#[test]
fn from_size_align_rejects_an_overflowing_size() {
    assert!(Layout::from_size_align(usize::MAX, 1).is_none());
}

#[test]
fn from_size_align_size_boundary_is_exact() {
    let max: usize = isize::MAX as usize;
    assert!(Layout::from_size_align(max, 1).is_some());
    assert!(Layout::from_size_align(max, 2).is_none());
    assert!(Layout::from_size_align(max - 1, 2).is_some());
}

#[test]
fn from_size_align_takes_the_largest_alignment() {
    let top: usize = 1usize << 63;
    assert!(Layout::from_size_align(0, top).is_some());
    assert!(Layout::from_size_align(1, top).is_none());
}
