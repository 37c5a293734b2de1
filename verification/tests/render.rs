use masonry_testing::{
    Color, Float32, PhysicalSize, RenderStep, RenderTarget, RgbaImage, TestHarnessParams,
};

fn gray() -> Color {
    let level = Float32 { bits: 0x3f00_0000 };
    Color {
        red: level,
        green: level,
        blue: level,
        alpha: level,
    }
}

fn size(width: u32, height: u32) -> PhysicalSize {
    PhysicalSize { width, height }
}

#[test]
fn rows_are_padded() {
    let target = RenderTarget::new(size(400, 300), gray());
    assert_eq!(target.width, 400);
    assert_eq!(target.height, 300);
    assert_eq!(target.base_color, gray());
    assert_eq!(target.padded_byte_width, 1792);
    assert_eq!(target.buffer_size, 537_600);
    assert_eq!(
        target.padded_byte_width,
        (target.width * 4).next_multiple_of(256)
    );
}

#[test]
fn aligned_rows_are_not_padded() {
    let target = RenderTarget::new(size(64, 2), gray());
    assert_eq!(target.padded_byte_width, 256);
    assert_eq!(target.buffer_size, 512);
    let target = RenderTarget::new(size(65, 2), gray());
    assert_eq!(target.padded_byte_width, 512);
    assert_eq!(target.buffer_size, 1024);
}

#[test]
fn frames_that_fit() {
    assert!(RenderTarget::fits(size(0, 0)));
    assert!(RenderTarget::fits(size(0, u32::MAX)));
    assert!(RenderTarget::fits(size(400, 400)));
    assert!(RenderTarget::fits(size(32767, 32767)));
    // The image has more bytes than `u32` can count.
    assert!(!RenderTarget::fits(size(32768, 32768)));
    // The row does.
    assert!(!RenderTarget::fits(size(0x4000_0000, 1)));
    assert!(!RenderTarget::fits(size(u32::MAX, 0)));
    // The start of the last row does.
    assert!(RenderTarget::fits(size(1, 0x0100_0000)));
    assert!(!RenderTarget::fits(size(1, 0x0100_0001)));
}

#[test]
fn padding_is_dropped() {
    let target = RenderTarget::new(size(3, 2), gray());
    let mut data = vec![0xeeu8; 512];
    for i in 0..12 {
        data[i] = i as u8;
        data[256 + i] = 100 + i as u8;
    }
    let image = target.read_back(&data);
    assert_eq!(image.width, 3);
    assert_eq!(image.height, 2);
    let mut expected: Vec<u8> = (0..12).collect();
    expected.extend(100..112);
    assert_eq!(image.data, expected);
}

#[test]
fn pixels_come_from_their_rows() {
    let target = RenderTarget::new(size(70, 5), gray());
    let data: Vec<u8> = (0..target.buffer_size).map(|i| (i % 251) as u8).collect();
    let image = target.read_back(&data);
    for y in 0..5usize {
        for x in 0..70usize {
            for c in 0..4usize {
                assert_eq!(
                    image.data[(y * 70 + x) * 4 + c],
                    data[y * 512 + x * 4 + c]
                );
            }
        }
    }
}

#[test]
fn empty_frame() {
    let target = RenderTarget::new(size(0, 7), gray());
    assert_eq!(target.buffer_size, 0);
    let image = target.read_back(&[]);
    assert_eq!(image.width, 0);
    assert_eq!(image.height, 7);
    assert!(image.data.is_empty());
}

#[test]
fn image_needs_enough_bytes() {
    assert_eq!(RgbaImage::from_vec(2, 2, vec![0; 15]), None);
    let image = RgbaImage::from_vec(2, 2, (0..16).collect()).unwrap();
    assert_eq!((image.width, image.height), (2, 2));
    assert_eq!(image.data, (0..16).collect::<Vec<u8>>());
    assert!(RgbaImage::from_vec(2, 2, vec![0; 17]).is_some());
}

#[test]
fn image_of_one_color() {
    let image = RgbaImage::from_pixel(2, 1, [1, 2, 3, 4]);
    assert_eq!((image.width, image.height), (2, 1));
    assert_eq!(image.data, vec![1, 2, 3, 4, 1, 2, 3, 4]);
}

#[test]
fn alpha_is_left_out() {
    let image = RgbaImage::from_vec(2, 1, vec![10, 20, 30, 0, 40, 50, 60, 128]).unwrap();
    let rgb = image.to_rgb8();
    assert_eq!((rgb.width, rgb.height), (2, 1));
    assert_eq!(rgb.data, vec![10, 20, 30, 40, 50, 60]);
}

#[test]
fn every_byte_survives_the_loss_of_alpha() {
    let data: Vec<u8> = (0..1024usize).map(|i| (i / 4) as u8).collect();
    let rgb = RgbaImage::from_vec(16, 16, data).unwrap().to_rgb8();
    for k in 0..768usize {
        assert_eq!(rgb.data[k], (k / 3) as u8);
    }
}

#[test]
fn blank_and_drawn_steps_differ() {
    let blank = RenderStep::Blank(RgbaImage::from_pixel(1, 1, [255, 255, 255, 255]));
    let draw = RenderStep::Draw(RenderTarget::new(
        size(400, 400),
        TestHarnessParams::default().background_color,
    ));
    assert_ne!(blank, draw);
}
