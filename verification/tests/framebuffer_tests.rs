use softraster::framebuffer::{Framebuffer, DEPTH_ONE, DEPTH_SCALE};

#[test]
fn new_framebuffer_is_zeroed() {
    let fb = Framebuffer::new(4, 3);
    assert_eq!(fb.width(), 4);
    assert_eq!(fb.height(), 3);
    for y in 0..3 {
        for x in 0..4 {
            assert_eq!(fb.get_pixel(x, y), 0);
        }
    }
}

#[test]
fn new_framebuffer_may_be_empty() {
    let fb = Framebuffer::new(0, 7);
    assert_eq!(fb.width(), 0);
    assert_eq!(fb.height(), 7);
    let mut fb = Framebuffer::new(5, 0);
    fb.clear(9);
    assert_eq!(fb.width(), 5);
    assert_eq!(fb.height(), 0);
}

#[test]
fn set_pixel_changes_one_cell() {
    let mut fb = Framebuffer::new(4, 3);
    fb.set_pixel(1, 2, 0xabcdef);
    for y in 0..3 {
        for x in 0..4 {
            let expected = if (x, y) == (1, 2) { 0xabcdef } else { 0 };
            assert_eq!(fb.get_pixel(x, y), expected);
        }
    }
    fb.set_pixel(1, 2, 7);
    assert_eq!(fb.get_pixel(1, 2), 7);
}

#[test]
fn pixels_are_stored_row_by_row() {
    let mut fb = Framebuffer::new(4, 3);
    // the cell of (x, y) is x + y * width: (5, 0) is the cell of (1, 1)
    fb.set_pixel(5, 0, 42);
    assert_eq!(fb.get_pixel(1, 1), 42);
    fb.set_pixel(3, 2, 43);
    assert_eq!(fb.get_pixel(11, 0), 43);
}

#[test]
fn clear_sets_every_cell() {
    let mut fb = Framebuffer::new(5, 4);
    fb.set_pixel(2, 2, 99);
    fb.clear(0x141414);
    assert_eq!(fb.width(), 5);
    assert_eq!(fb.height(), 4);
    for y in 0..4 {
        for x in 0..5 {
            assert_eq!(fb.get_pixel(x, y), 0x141414);
        }
    }
}

#[test]
fn depth_is_scaled_to_the_range_of_the_cell() {
    let mut fb = Framebuffer::new(2, 2);
    fb.set_pixel_f32(1, 0, DEPTH_ONE);
    assert_eq!(fb.get_pixel(1, 0), u32::MAX);
    fb.set_pixel_f32(0, 1, 32768);
    assert_eq!(fb.get_pixel(0, 1), 32768 * DEPTH_SCALE);
    assert_eq!(fb.get_pixel(0, 1), 0x8000_0000);
    fb.set_pixel_f32(1, 1, 1);
    assert_eq!(fb.get_pixel(1, 1), 65536);
    fb.set_pixel_f32(1, 1, 65535);
    assert_eq!(fb.get_pixel(1, 1), 0xffff_0000);
    assert_eq!(fb.get_pixel(0, 0), 0);
}

#[test]
fn stored_value_reads_back_as_a_depth() {
    let mut fb = Framebuffer::new(1, 1);
    for (stored, depth) in [
        (0u32, 0),
        (1, 0),
        (65534, 0),
        (65535, 1),
        (65536, 1),
        (0x8000_0000, 32768),
        (0xffff_0000, 65535),
        (0xffff_fffe, 65535),
        (u32::MAX, 65536),
    ] {
        fb.set_pixel(0, 0, stored);
        assert_eq!(fb.get_pixel_f32(0, 0), depth);
    }
}

#[test]
fn depth_round_trips_exactly() {
    let mut fb = Framebuffer::new(3, 3);
    for z in [0, 1, 2, 100, 32767, 32768, 32769, 65535, 65536] {
        fb.set_pixel_f32(2, 1, z);
        assert_eq!(fb.get_pixel_f32(2, 1), z);
    }
}

#[test]
fn depth_outside_zero_to_one_is_limited() {
    let mut fb = Framebuffer::new(3, 3);
    fb.set_pixel_f32(0, 0, -1);
    assert_eq!(fb.get_pixel_f32(0, 0), 0);
    fb.set_pixel_f32(0, 0, i32::MIN);
    assert_eq!(fb.get_pixel_f32(0, 0), 0);
    fb.set_pixel_f32(0, 0, 65537);
    assert_eq!(fb.get_pixel_f32(0, 0), 65536);
    fb.set_pixel_f32(0, 0, i32::MAX);
    assert_eq!(fb.get_pixel_f32(0, 0), 65536);
}

#[test]
fn cleared_depth_reads_back_as_one() {
    let mut fb = Framebuffer::new(2, 2);
    fb.clear(u32::MAX);
    assert_eq!(fb.get_pixel_f32(1, 1), DEPTH_ONE);
    // the read changes no cell
    for y in 0..2 {
        for x in 0..2 {
            assert_eq!(fb.get_pixel(x, y), u32::MAX);
        }
    }
}

#[test]
fn depth_of_one_does_not_pass_on_a_cleared_cell() {
    let mut fb = Framebuffer::new(2, 2);
    fb.clear(u32::MAX);
    assert!(!fb.depth_test(1, 1, DEPTH_ONE));
    assert!(!fb.depth_test(1, 1, DEPTH_ONE + 1));
    assert!(!fb.depth_test(1, 1, i32::MAX));
    assert_eq!(fb.get_pixel(1, 1), u32::MAX);
    assert!(fb.depth_test(1, 1, DEPTH_ONE - 1));
    assert_eq!(fb.get_pixel_f32(1, 1), DEPTH_ONE - 1);
    assert_eq!(fb.get_pixel(1, 1), 0xffff_0000);
    assert_eq!(fb.get_pixel(0, 0), u32::MAX);
}

#[test]
fn depth_test_far_then_near_passes_twice() {
    let mut depth = Framebuffer::new(4, 4);
    depth.clear(u32::MAX);
    let (z1, z2) = (20000, 40000);
    let mut writes = 0;
    for z in [z2, z1] {
        if depth.depth_test(2, 3, z) {
            writes += 1;
        }
    }
    assert_eq!(writes, 2);
    assert_eq!(depth.get_pixel_f32(2, 3), z1);
    assert_eq!(depth.get_pixel(2, 3), 20000 * 65536);
}

#[test]
fn depth_test_near_then_far_passes_once() {
    let mut depth = Framebuffer::new(4, 4);
    depth.clear(u32::MAX);
    let (z1, z2) = (20000, 40000);
    let mut writes = 0;
    for z in [z1, z2] {
        if depth.depth_test(2, 3, z) {
            writes += 1;
        }
    }
    assert_eq!(writes, 1);
    assert_eq!(depth.get_pixel_f32(2, 3), z1);
}

#[test]
fn depth_test_tells_adjacent_depths_apart() {
    for z1 in [0, 1, 777, 65533, 65534] {
        let z2 = z1 + 1;
        let mut depth = Framebuffer::new(1, 1);
        depth.clear(u32::MAX);
        assert!(depth.depth_test(0, 0, z2));
        assert!(depth.depth_test(0, 0, z1));
        assert!(!depth.depth_test(0, 0, z1));
        assert!(!depth.depth_test(0, 0, z2));
        assert_eq!(depth.get_pixel_f32(0, 0), z1);
    }
}

#[test]
fn depth_test_leaves_other_cells_alone() {
    let mut depth = Framebuffer::new(3, 2);
    depth.clear(u32::MAX);
    assert!(depth.depth_test(1, 1, 100));
    assert!(!depth.depth_test(1, 1, 100));
    assert!(!depth.depth_test(1, 1, 200));
    for y in 0..2 {
        for x in 0..3 {
            let expected = if (x, y) == (1, 1) { 100 * 65536 } else { u32::MAX };
            assert_eq!(depth.get_pixel(x, y), expected);
        }
    }
}

#[test]
fn depth_test_below_zero_passes_again() {
    // depths below zero are all stored as zero, so each of them passes
    let mut depth = Framebuffer::new(1, 1);
    depth.clear(u32::MAX);
    assert!(depth.depth_test(0, 0, -2));
    assert!(depth.depth_test(0, 0, -1));
    assert_eq!(depth.get_pixel(0, 0), 0);
}

#[test]
fn data_holds_the_cells_row_by_row() {
    let mut fb = Framebuffer::new(3, 2);
    fb.set_pixel(1, 0, 5);
    fb.set_pixel(0, 1, 6);
    fb.set_pixel(2, 1, 7);
    assert_eq!(fb.data(), &vec![0, 5, 0, 6, 0, 7]);
}

#[test]
fn resize_to_the_same_size_keeps_the_cells() {
    let mut fb = Framebuffer::new(3, 2);
    fb.clear(9);
    assert!(!fb.resize(3, 2));
    assert_eq!((fb.width(), fb.height()), (3, 2));
    assert_eq!(fb.data(), &vec![9; 6]);
}

#[test]
fn resize_to_another_size_discards_the_cells() {
    let mut fb = Framebuffer::new(3, 2);
    fb.clear(9);
    assert!(fb.resize(2, 3));
    assert_eq!((fb.width(), fb.height()), (2, 3));
    assert_eq!(fb.data(), &vec![0; 6]);
    fb.clear(9);
    assert!(fb.resize(4, 4));
    assert_eq!(fb.data(), &vec![0; 16]);
    assert!(fb.resize(0, 4));
    assert_eq!(fb.data().len(), 0);
}
