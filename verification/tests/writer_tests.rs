use frame_sampler::frame::Converter;
use frame_sampler::writer::encode_frame;

// Encoding a single red pixel produces a real PNG: it starts with the PNG
// signature, differs from the raw pixel buffer, and decodes back to the
// same dimensions and pixel values.
#[test]
fn encoded_frame_is_png_and_round_trips() {
    let converter = Converter::new(1, 1).unwrap();
    let frame = converter.accept(1, 1, Some(0), vec![255u8, 0, 0]).unwrap();
    let png = encode_frame(&frame);

    assert_ne!(png, vec![255u8, 0, 0]);
    assert_eq!(&png[..8], &[0x89, b'P', b'N', b'G', 0x0d, 0x0a, 0x1a, 0x0a]);

    let decoded = image::load_from_memory(&png).unwrap().to_rgb8();
    assert_eq!(decoded.width(), 1);
    assert_eq!(decoded.height(), 1);
    assert_eq!(decoded.get_pixel(0, 0).0, [255u8, 0, 0]);
}

// A larger frame with a gradient round-trips pixel for pixel.
#[test]
fn gradient_round_trips() {
    let w = 4u32;
    let h = 3u32;
    let data: Vec<u8> = (0..w * h * 3).map(|i| (i * 7 % 256) as u8).collect();
    let converter = Converter::new(w, h).unwrap();
    let frame = converter.accept(w, h, Some(0), data.clone()).unwrap();
    let png = encode_frame(&frame);

    let decoded = image::load_from_memory(&png).unwrap().to_rgb8();
    assert_eq!(decoded.width(), w);
    assert_eq!(decoded.height(), h);
    assert_eq!(decoded.into_raw(), data);
}

// Two different pixel buffers encode to different PNG bytes.
#[test]
fn different_pixels_encode_differently() {
    let converter = Converter::new(1, 1).unwrap();
    let red = converter.accept(1, 1, Some(0), vec![255u8, 0, 0]).unwrap();
    let blue = converter.accept(1, 1, Some(0), vec![0u8, 0, 255]).unwrap();
    assert_ne!(encode_frame(&red), encode_frame(&blue));
}
