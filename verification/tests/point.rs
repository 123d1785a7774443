use lasercube::point::Point;

#[test]
fn test_point_size() {
    assert_eq!(std::mem::size_of::<Point>(), Point::SIZE);
}

#[test]
fn test_point_new() {
    let p = Point::new([0x800, 0x800], [0x800, 0x400, 0]);
    assert_eq!(p.pos[0], 0x800);
    assert_eq!(p.pos[1], 0x800);
    assert_eq!(p.rgb[0], 0x800);
    assert_eq!(p.rgb[1], 0x400);
    assert_eq!(p.rgb[2], 0);
}

#[test]
fn test_bytes() {
    let point = Point::new([0x1234, 0x5678], [0x9ABC, 0xDEF0, 0x1234]);

    // Convert to bytes
    let bytes: [u8; Point::SIZE] = point.into();

    // Check little-endian byte representation
    assert_eq!(bytes[0], 0x34); // low byte of x
    assert_eq!(bytes[1], 0x12); // high byte of x
    assert_eq!(bytes[2], 0x78); // low byte of y
    assert_eq!(bytes[3], 0x56); // high byte of y
    assert_eq!(bytes[4], 0xBC); // low byte of r
    assert_eq!(bytes[5], 0x9A); // high byte of r
    assert_eq!(bytes[6], 0xF0); // low byte of g
    assert_eq!(bytes[7], 0xDE); // high byte of g
    assert_eq!(bytes[8], 0x34); // low byte of b
    assert_eq!(bytes[9], 0x12); // high byte of b

    // Convert back to Point
    let restored = Point::from(bytes);

    // Check that we got the same point back
    assert_eq!(restored.pos[0], point.pos[0]);
    assert_eq!(restored.pos[1], point.pos[1]);
    assert_eq!(restored.rgb[0], point.rgb[0]);
    assert_eq!(restored.rgb[1], point.rgb[1]);
    assert_eq!(restored.rgb[2], point.rgb[2]);
}

#[test]
fn point_constants() {
    assert_eq!(Point::CENTER_COORD, 0x800);
    assert_eq!(Point::MAX_COORD, 0xFFF);
    assert_eq!(Point::MAX_COLOR, 0xFFF);
    assert_eq!(Point::SIZE, 10);
    let p = Point::center_blank();
    assert_eq!(p, Point::new([0x800, 0x800], [0, 0, 0]));
}

#[test]
fn point_round_trip_keeps_every_value() {
    let values = [0u16, 1, 0xFF, 0x100, 0x7FF, 0x800, 0xFFF, 0x1000, 0x8000, 0xFFFE, 0xFFFF];
    for &x in values.iter() {
        for &y in values.iter() {
            let p = Point::new([x, y], [y, x, x ^ y]);
            assert_eq!(Point::from_bytes(p.to_bytes()), p);
            let bytes: [u8; 10] = p.into();
            assert_eq!(bytes, p.to_bytes());
            assert_eq!(Point::from(bytes), p);
        }
    }
}

#[test]
fn bytes_round_trip_keeps_every_byte() {
    let mut bytes = [0u8; 10];
    for seed in 0..=255u8 {
        for (i, b) in bytes.iter_mut().enumerate() {
            *b = seed.wrapping_mul(31).wrapping_add((i as u8).wrapping_mul(77));
        }
        assert_eq!(Point::from_bytes(bytes).to_bytes(), bytes);
    }
}

#[test]
fn out_of_range_values_pass_through() {
    let p = Point::from_bytes([0xFF; 10]);
    assert_eq!(p.pos, [0xFFFF, 0xFFFF]);
    assert_eq!(p.rgb, [0xFFFF, 0xFFFF, 0xFFFF]);
    assert_eq!(p.to_bytes(), [0xFF; 10]);
}

#[test]
fn field_order_on_the_wire() {
    let p = Point::new([1, 2], [3, 4, 5]);
    assert_eq!(p.to_bytes(), [1, 0, 2, 0, 3, 0, 4, 0, 5, 0]);
    let q = Point::new([0x100, 0x200], [0x300, 0x400, 0x500]);
    assert_eq!(q.to_bytes(), [0, 1, 0, 2, 0, 3, 0, 4, 0, 5]);
}
