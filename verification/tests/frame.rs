//! Frame geometry arithmetic.

use swbuf::frame::{frame_size_bytes, stride_bytes};

#[test]
fn frame_sizes_are_exact() {
    assert_eq!(frame_size_bytes(0, 7), 0);
    assert_eq!(frame_size_bytes(2, 2), 16);
    assert_eq!(frame_size_bytes(10, 10), 400);
    assert_eq!(frame_size_bytes(20, 20), 1600);
    assert_eq!(frame_size_bytes(1920, 1080), 8294400);
}

#[test]
fn largest_frame_does_not_overflow() {
    assert_eq!(frame_size_bytes(65535, 65535), 17179344900);
}

#[test]
fn strides_are_four_bytes_per_pixel() {
    assert_eq!(stride_bytes(0), 0);
    assert_eq!(stride_bytes(2), 8);
    assert_eq!(stride_bytes(65535), 262140);
}
