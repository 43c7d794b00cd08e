use wapps::bridge::{frame_region, update_frame};
use wapps::frame::HostInterface;

#[test]
fn new_buffer_has_no_frame() {
    let mut h = HostInterface::new();
    assert!(h.borrow_frame().is_none());
    assert_eq!(h.frame_dimensions(), (0, 0));
    let mut d = HostInterface::default();
    assert!(d.borrow_frame().is_none());
}

#[test]
fn take_twice_returns_frame_then_nothing() {
    let mut h = HostInterface::new();
    h.set_frame(1, 1, &[1, 2, 3, 4]);
    assert_eq!(h.borrow_frame(), Some((1, 1, &[1u8, 2, 3, 4][..])));
    assert!(h.borrow_frame().is_none());
    assert_eq!(h.frame_dimensions(), (1, 1));
}

#[test]
fn second_set_overwrites_first() {
    let mut h = HostInterface::new();
    h.set_frame(2, 1, &[9; 8]);
    h.set_frame(1, 1, &[5, 6, 7, 8]);
    assert_eq!(h.borrow_frame(), Some((1, 1, &[5u8, 6, 7, 8][..])));
    assert!(h.borrow_frame().is_none());
}

#[test]
fn larger_frame_after_smaller_one() {
    let mut h = HostInterface::new();
    h.set_frame(1, 1, &[1; 4]);
    let big: Vec<u8> = (0..64).collect();
    h.set_frame(4, 4, &big);
    let (w, hh, p) = h.borrow_frame().unwrap();
    assert_eq!((w, hh), (4, 4));
    assert_eq!(p, &big[..]);
}

#[test]
fn in_bounds_request_is_copied() {
    let mut memory = vec![0u8; 64];
    for i in 0..16 {
        memory[8 + i] = i as u8 + 100;
    }
    let mut h = HostInterface::new();
    assert!(update_frame(&mut h, &memory, 2, 2, 8));
    let expected: Vec<u8> = (100..116).collect();
    assert_eq!(h.borrow_frame(), Some((2, 2, &expected[..])));
}

#[test]
fn request_ending_at_memory_end_is_copied() {
    let memory = vec![7u8; 16];
    let mut h = HostInterface::new();
    assert!(update_frame(&mut h, &memory, 2, 2, 0));
    assert_eq!(h.borrow_frame().unwrap().2.len(), 16);
}

#[test]
fn out_of_bounds_request_keeps_prior_frame() {
    let memory = vec![1u8; 32];
    let mut h = HostInterface::new();
    h.set_frame(1, 1, &[4, 3, 2, 1]);
    assert!(!update_frame(&mut h, &memory, 2, 2, 17));
    assert!(!update_frame(&mut h, &memory, -1, 2, 0));
    assert!(!update_frame(&mut h, &memory, 2, 2, -4));
    assert!(!update_frame(&mut h, &memory, i32::MAX, i32::MAX, 0));
    assert_eq!(h.borrow_frame(), Some((1, 1, &[4u8, 3, 2, 1][..])));
}

#[test]
fn frame_region_lengths() {
    assert_eq!(frame_region(2, 2, 0, 16), Some(16));
    assert_eq!(frame_region(2, 2, 1, 16), None);
    assert_eq!(frame_region(0, 5, 10, 10), Some(0));
    assert_eq!(frame_region(3, -1, 0, 100), None);
    assert_eq!(frame_region(100, 50, 1000, 21000), Some(20000));
    assert_eq!(frame_region(i32::MAX, i32::MAX, -1, usize::MAX), Some(18446744056529682436));
    assert_eq!(frame_region(i32::MAX, i32::MAX, 0, 1 << 40), None);
}
