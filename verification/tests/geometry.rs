use screencopy::geometry::{
    BufferGeometry, LengthMismatch, PixelFormat, BYTES_PER_PIXEL, TARGET_HEIGHT, TARGET_WIDTH,
    WIRE_INT_MAX,
};

#[test]
fn target_geometry_is_full_hd_xrgb() {
    let g = BufferGeometry::target();
    assert_eq!(TARGET_WIDTH, 1920);
    assert_eq!(TARGET_HEIGHT, 1080);
    assert_eq!(g.offset(), 0);
    assert_eq!(g.width(), 1920);
    assert_eq!(g.height(), 1080);
    assert_eq!(g.stride(), 7680);
    assert_eq!(g.size(), 8_294_400);
    assert_eq!(g.byte_len(), 8_294_400usize);
    assert_eq!(g.format(), PixelFormat::Xrgb8888);
}

#[test]
fn target_equals_geometry_built_from_its_numbers() {
    let built = BufferGeometry::new(1920, 1080, PixelFormat::Xrgb8888);
    assert_eq!(built, Some(BufferGeometry::target()));
}

#[test]
fn stride_is_four_times_width_and_size_is_stride_times_height() {
    let pairs: [(u32, u32); 8] =
        [(0, 0), (1, 1), (2, 2), (3, 5), (640, 480), (1920, 1080), (3840, 2160), (7, 0)];
    for (width, height) in pairs {
        let g = BufferGeometry::new(width, height, PixelFormat::Xrgb8888).unwrap();
        assert_eq!(g.width() as u32, width);
        assert_eq!(g.height() as u32, height);
        assert_eq!(g.stride() as u32, width * 4);
        assert_eq!(g.size() as u32, width * 4 * height);
        assert_eq!(g.size(), g.stride() * g.height());
        assert_eq!(g.byte_len(), g.size() as usize);
        assert_eq!(g.offset(), 0);
    }
}

#[test]
fn small_geometry_has_exact_numbers() {
    let g = BufferGeometry::new(3, 5, PixelFormat::Xrgb8888).unwrap();
    assert_eq!(g.stride(), 12);
    assert_eq!(g.size(), 60);
}

#[test]
fn largest_size_that_fits_is_accepted() {
    // 4 * 1 * 536_870_911 = 2_147_483_644 <= i32::MAX
    let g = BufferGeometry::new(1, 536_870_911, PixelFormat::Xrgb8888).unwrap();
    assert_eq!(g.size(), 2_147_483_644);
    // 4 * 536_870_911 = 2_147_483_644 as a stride
    let g = BufferGeometry::new(536_870_911, 1, PixelFormat::Xrgb8888).unwrap();
    assert_eq!(g.stride(), 2_147_483_644);
    assert_eq!(g.size(), 2_147_483_644);
}

#[test]
fn size_beyond_the_wire_is_refused() {
    // 4 * 1 * 536_870_912 = 2^31
    assert_eq!(BufferGeometry::new(1, 536_870_912, PixelFormat::Xrgb8888), None);
    assert_eq!(BufferGeometry::new(46_341, 46_341, PixelFormat::Xrgb8888), None);
    assert_eq!(BufferGeometry::new(u32::MAX, u32::MAX, PixelFormat::Xrgb8888), None);
}

#[test]
fn stride_beyond_the_wire_is_refused_even_without_rows() {
    // 4 * 536_870_912 = 2^31 does not fit although the size would be 0
    assert_eq!(BufferGeometry::new(536_870_912, 0, PixelFormat::Xrgb8888), None);
    assert_eq!(BufferGeometry::new(u32::MAX, 0, PixelFormat::Xrgb8888), None);
}

#[test]
fn height_beyond_the_wire_is_refused_even_without_columns() {
    assert_eq!(BufferGeometry::new(0, WIRE_INT_MAX + 1, PixelFormat::Xrgb8888), None);
    assert!(BufferGeometry::new(0, WIRE_INT_MAX, PixelFormat::Xrgb8888).is_some());
}

#[test]
fn format_has_four_bytes_per_pixel() {
    assert_eq!(BYTES_PER_PIXEL, 4);
    assert_eq!(PixelFormat::Xrgb8888.bytes_per_pixel(), 4);
}

#[test]
fn region_of_exact_length_is_accepted() {
    let g = BufferGeometry::target();
    assert_eq!(g.check_region(8_294_400), Ok(()));
    let small = BufferGeometry::new(2, 2, PixelFormat::Xrgb8888).unwrap();
    assert_eq!(small.check_region(16), Ok(()));
}

#[test]
fn shorter_region_is_refused() {
    let g = BufferGeometry::target();
    assert_eq!(
        g.check_region(8_294_399),
        Err(LengthMismatch { expected: 8_294_400, actual: 8_294_399 })
    );
    assert_eq!(g.check_region(0), Err(LengthMismatch { expected: 8_294_400, actual: 0 }));
}

#[test]
fn longer_region_is_refused_not_truncated() {
    let g = BufferGeometry::target();
    assert_eq!(
        g.check_region(8_294_401),
        Err(LengthMismatch { expected: 8_294_400, actual: 8_294_401 })
    );
    let small = BufferGeometry::new(2, 2, PixelFormat::Xrgb8888).unwrap();
    assert_eq!(small.check_region(20), Err(LengthMismatch { expected: 16, actual: 20 }));
}
