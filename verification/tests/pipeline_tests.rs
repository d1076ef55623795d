use image::ImageEncoder;
use thumbnailer::{thumbnail, thumbnail_image_rs};

fn sample_rgb(width: u32, height: u32) -> image::ImageBuffer<image::Rgb<u8>, Vec<u8>> {
    image::ImageBuffer::from_fn(width, height, |x, y| {
        image::Rgb([(x % 256) as u8, (y % 256) as u8, ((x + y) % 256) as u8])
    })
}

fn sample_png(width: u32, height: u32) -> Vec<u8> {
    let img = sample_rgb(width, height);
    let mut out: Vec<u8> = Vec::new();
    img.write_with_encoder(image::codecs::png::PngEncoder::new(&mut out))
        .unwrap();
    out
}

fn sample_jpeg(width: u32, height: u32) -> Vec<u8> {
    let img = sample_rgb(width, height);
    let mut out: Vec<u8> = Vec::new();
    img.write_with_encoder(image::codecs::jpeg::JpegEncoder::new(&mut out))
        .unwrap();
    out
}

fn sample_bmp(width: u32, height: u32) -> Vec<u8> {
    let img = sample_rgb(width, height);
    let mut out: Vec<u8> = Vec::new();
    image::codecs::bmp::BmpEncoder::new(&mut out)
        .write_image(
            img.as_raw(),
            width,
            height,
            image::ExtendedColorType::Rgb8,
        )
        .unwrap();
    out
}

#[test]
fn png_source_yields_jpeg_with_markers_and_exact_dimensions() {
    let source = sample_png(100, 100);
    let out = thumbnail(&source, 10, 10);
    assert!(out.len() > 0);
    assert_eq!(out[0], 0xFF);
    assert_eq!(out[1], 0xD8);
    assert_eq!(out[out.len() - 2], 0xFF);
    assert_eq!(out[out.len() - 1], 0xD9);
    let decoded = image::load_from_memory(&out).unwrap();
    assert_eq!(decoded.width(), 10);
    assert_eq!(decoded.height(), 10);
}

#[test]
fn jpeg_source_is_recognized_and_resized() {
    let source = sample_jpeg(32, 16);
    let out = thumbnail(&source, 8, 4);
    assert!(out.len() > 0);
    let decoded = image::load_from_memory(&out).unwrap();
    assert_eq!(decoded.width(), 8);
    assert_eq!(decoded.height(), 4);
}

#[test]
fn bmp_source_is_recognized_and_resized() {
    let source = sample_bmp(7, 5);
    let out = thumbnail(&source, 3, 2);
    assert!(out.len() > 0);
    let decoded = image::load_from_memory(&out).unwrap();
    assert_eq!(decoded.width(), 3);
    assert_eq!(decoded.height(), 2);
}

#[test]
fn upscaling_is_supported() {
    let source = sample_png(4, 4);
    let out = thumbnail(&source, 16, 9);
    let decoded = image::load_from_memory(&out).unwrap();
    assert_eq!(decoded.width(), 16);
    assert_eq!(decoded.height(), 9);
}

#[test]
fn empty_source_yields_empty_result() {
    let source: Vec<u8> = Vec::new();
    let out = thumbnail(&source, 50, 50);
    assert_eq!(out.len(), 0);
}

#[test]
fn malformed_source_yields_empty_result() {
    let source: Vec<u8> = (0u8..=255).cycle().take(1024).collect();
    let out = thumbnail(&source, 10, 10);
    assert_eq!(out.len(), 0);
    let truncated: Vec<u8> = sample_png(20, 20)[..40].to_vec();
    assert_eq!(thumbnail(&truncated, 10, 10).len(), 0);
}

#[test]
fn zero_width_yields_empty_result() {
    let source = sample_png(16, 16);
    assert_eq!(thumbnail(&source, 0, 8).len(), 0);
}

#[test]
fn zero_height_yields_empty_result() {
    let source = sample_png(16, 16);
    assert_eq!(thumbnail(&source, 8, 0).len(), 0);
}

#[test]
fn oversize_dimension_yields_empty_result() {
    let source = sample_png(16, 16);
    assert_eq!(thumbnail(&source, 70000, 8).len(), 0);
    assert_eq!(thumbnail(&source, 8, 70000).len(), 0);
}

#[test]
fn repeated_calls_are_byte_identical() {
    let source = sample_png(33, 21);
    let a = thumbnail(&source, 12, 7);
    let b = thumbnail(&source, 12, 7);
    assert!(a.len() > 0);
    assert_eq!(a, b);
}

#[test]
fn result_differs_from_source() {
    let source = sample_png(24, 24);
    let out = thumbnail(&source, 24, 24);
    assert!(out.len() > 0);
    assert_ne!(out, source);
}

#[test]
fn thumbnail_image_rs_ok_matches_thumbnail() {
    let source = sample_png(40, 30);
    let via_result = thumbnail_image_rs(&source, 5, 5).unwrap();
    let via_empty_policy = thumbnail(&source, 5, 5);
    assert_eq!(via_result, via_empty_policy);
}

#[test]
fn thumbnail_image_rs_reports_decode_failure() {
    let source: Vec<u8> = vec![0x00, 0x01, 0x02, 0x03];
    assert!(thumbnail_image_rs(&source, 10, 10).is_err());
}

#[test]
fn thumbnail_image_rs_reports_encode_failure_on_zero_dimension() {
    let source = sample_png(16, 16);
    assert!(thumbnail_image_rs(&source, 0, 10).is_err());
    assert!(thumbnail_image_rs(&source, 10, 0).is_err());
}
