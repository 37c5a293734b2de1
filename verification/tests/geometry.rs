use masonry_testing::{Float64, PhysicalSize, Size, TestHarnessParams};
use vello::peniko::Color;

fn scalar(value: f64) -> Float64 {
    Float64 {
        bits: value.to_bits(),
    }
}

#[test]
fn conversion_of_chosen_numbers() {
    let cases: Vec<(f64, u32)> = vec![
        (0.0, 0),
        (-0.0, 0),
        (0.5, 0),
        (0.9999999999999999, 0),
        (1.0, 1),
        (1.9999999999999998, 1),
        (2.0, 2),
        (399.99, 399),
        (400.0, 400),
        (2147483648.5, 2147483648),
        (4294967294.9999995, 4294967294),
        (4294967295.0, 4294967295),
        (4294967295.9999995, 4294967295),
        (4294967296.0, 4294967295),
        (1e300, 4294967295),
        (-1.0, 0),
        (-400.0, 0),
        (-1e300, 0),
        (f64::INFINITY, 4294967295),
        (f64::NEG_INFINITY, 0),
        (f64::NAN, 0),
        (-f64::NAN, 0),
        (f64::MIN_POSITIVE, 0),
        (5e-324, 0),
    ];
    for (value, expected) in cases {
        assert_eq!(scalar(value).to_u32(), expected);
        assert_eq!(value as u32, expected);
    }
}

#[test]
fn conversion_agrees_with_a_cast() {
    let mut bits: u64 = 0x9e37_79b9_7f4a_7c15;
    for _ in 0..100_000 {
        bits = bits
            .wrapping_mul(6364136223846793005)
            .wrapping_add(1442695040888963407);
        assert_eq!(Float64 { bits }.to_u32(), f64::from_bits(bits) as u32);
        // Exponents around the range of the result.
        let near = (bits & 0x000f_ffff_ffff_ffff) | ((1020 + (bits >> 58)) << 52);
        assert_eq!(
            Float64 { bits: near }.to_u32(),
            f64::from_bits(near) as u32
        );
    }
}

#[test]
fn conversion_is_exact_on_whole_numbers() {
    for n in [0u32, 1, 2, 3, 255, 256, 65535, 65536, 16777217, u32::MAX - 1, u32::MAX] {
        assert_eq!(scalar(n as f64).to_u32(), n);
    }
}

#[test]
fn size_drops_fractions() {
    let size = Size {
        width: scalar(640.75),
        height: scalar(-3.5),
    };
    assert_eq!(
        size.to_physical(),
        PhysicalSize {
            width: 640,
            height: 0
        }
    );
}

#[test]
fn default_params() {
    let params = TestHarnessParams::default();
    assert_eq!(params.window_size.width, scalar(400.));
    assert_eq!(params.window_size.height, scalar(400.));
    assert_eq!(params.scale_factor, scalar(1.0));
    let [red, green, blue, alpha] = Color::from_rgba8(0x29, 0x29, 0x29, 0xff).components;
    assert_eq!(params.background_color.red.bits, red.to_bits());
    assert_eq!(params.background_color.green.bits, green.to_bits());
    assert_eq!(params.background_color.blue.bits, blue.to_bits());
    assert_eq!(params.background_color.alpha.bits, alpha.to_bits());
}

#[test]
fn render_root_options_of_params() {
    let mut params = TestHarnessParams::default();
    params.scale_factor = scalar(1.5);
    let options = params.render_root_options(vec![1, 2, 3]);
    assert!(!options.use_system_fonts);
    assert_eq!(
        options.size_policy,
        masonry_testing::WindowSizePolicy::User
    );
    assert_eq!(options.scale_factor, scalar(1.5));
    assert_eq!(options.test_font, Some(vec![1, 2, 3]));
}
