use plotters_druid::color::{pack_rgba32, unpack_rgba32, Color};

#[test]
fn packed_layout_concrete() {
    let c = Color { r: 1, g: 2, b: 3, a: 4 };
    assert_eq!(pack_rgba32(c), 0x0102_0304);
    let red = Color { r: 255, g: 0, b: 0, a: 255 };
    assert_eq!(pack_rgba32(red), 0xFF00_00FF);
    let clear = Color { r: 0, g: 0, b: 0, a: 0 };
    assert_eq!(pack_rgba32(clear), 0);
}

#[test]
fn round_trip_preserves_channels() {
    let samples = vec![
        Color { r: 0, g: 0, b: 0, a: 0 },
        Color { r: 255, g: 255, b: 255, a: 255 },
        Color { r: 12, g: 200, b: 99, a: 31 },
        Color { r: 1, g: 2, b: 3, a: 4 },
    ];
    for c in samples {
        let v = pack_rgba32(c);
        assert_eq!(v >> 24, c.r as u32);
        assert_eq!((v >> 16) & 0xff, c.g as u32);
        assert_eq!((v >> 8) & 0xff, c.b as u32);
        assert_eq!(v & 0xff, c.a as u32);
        assert_eq!(unpack_rgba32(v), c);
    }
}

#[test]
fn alpha_scaling_matches_rounding() {
    // The byte handed to the packer for an alpha in [0, 1] is the rounded
    // scaling to [0, 255]; the low byte of the packed value reports it back.
    let cases: Vec<(f64, u8)> = vec![(0.0, 0), (1.0, 255), (0.5, 128), (0.25, 64), (0.996, 254)];
    for (alpha, expected) in cases {
        let a = (255.0 * alpha).round() as u8;
        assert_eq!(a, expected);
        let v = pack_rgba32(Color { r: 10, g: 20, b: 30, a });
        assert_eq!(v & 0xff, expected as u32);
        assert_eq!(v >> 24, 10);
    }
}
