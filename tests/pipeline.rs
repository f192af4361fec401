use edgepass::engine::finish_frame;
use edgepass::geometry::FACE_UNITS_PER_PIXEL;
use edgepass::raster::Raster;
use edgepass::{FaceCenter, PassportEngine, PassportStandard, ProcessError};
use std::io::Cursor;

fn solid(width: u32, height: u32, rgb: [u8; 3]) -> Raster {
    let mut pixels = Vec::new();
    for _ in 0..(width * height) {
        pixels.extend_from_slice(&rgb);
    }
    Raster { width, height, pixels }
}

fn png_bytes(width: u32, height: u32) -> Vec<u8> {
    let img = image::RgbImage::from_fn(width, height, |x, y| {
        image::Rgb([(x % 200) as u8, (y % 200) as u8, 90])
    });
    let mut out = Vec::new();
    image::DynamicImage::ImageRgb8(img)
        .write_to(&mut Cursor::new(&mut out), image::ImageOutputFormat::Png)
        .unwrap();
    out
}

fn at_pixel(x: i64, y: i64) -> FaceCenter {
    FaceCenter { x: x * FACE_UNITS_PER_PIXEL, y: y * FACE_UNITS_PER_PIXEL }
}

#[test]
fn engine_keeps_model_path() {
    let engine = PassportEngine::new("models/seg.bin");
    assert_eq!(engine.model_path(), "models/seg.bin");
}

#[test]
fn resize_mode_gives_exact_frame_without_white() {
    let engine = PassportEngine::new("");
    let src = solid(1000, 1000, [40, 80, 120]);
    let config = PassportStandard::UK.to_config();
    let out = engine.apply_crop_and_white_bg(&src, config, None, false).unwrap();
    assert_eq!((out.width, out.height), (350, 450));
    assert_eq!(out.pixels.len(), 350 * 450 * 3);
    for px in out.pixels.chunks(3) {
        assert_ne!(px, &[255, 255, 255]);
    }
}

#[test]
fn resize_mode_upscales_small_input() {
    let engine = PassportEngine::new("");
    let src = solid(7, 5, [10, 20, 30]);
    let config = PassportStandard::Custom.to_config();
    let out = engine.apply_crop_and_white_bg(&src, config, None, false).unwrap();
    assert_eq!((out.width, out.height), (500, 500));
    assert_eq!(out.pixels.len(), 500 * 500 * 3);
}

#[test]
fn removal_whitens_corner_and_keeps_center() {
    let engine = PassportEngine::new("");
    let mut src = solid(500, 500, [12, 34, 56]);
    let center = (250 * 500 + 250) * 3;
    src.pixels[center] = 200;
    src.pixels[center + 1] = 100;
    src.pixels[center + 2] = 50;
    let config = PassportStandard::SaudiEVisa.to_config();
    let face = at_pixel(250, 250);
    let out = engine.apply_crop_and_white_bg(&src, config, Some(face), true).unwrap();
    assert_eq!((out.width, out.height), (500, 500));
    assert_eq!(&out.pixels[0..3], &[255, 255, 255]);
    assert_eq!(&out.pixels[center..center + 3], &[200, 100, 50]);
}

#[test]
fn finish_without_removal_is_identity() {
    let frame = solid(4, 3, [255, 1, 2]);
    let out = finish_frame(&frame, false);
    assert_eq!(out.pixels, frame.pixels);
}

#[test]
fn face_crop_on_small_source_is_degenerate() {
    let engine = PassportEngine::new("");
    let src = solid(100, 100, [1, 2, 3]);
    let config = PassportStandard::US.to_config();
    let r = engine.apply_crop_and_white_bg(&src, config, Some(at_pixel(50, 50)), false);
    assert_eq!(r.unwrap_err(), ProcessError::GeometryDegenerate);
}

#[test]
fn process_round_trip_keeps_dimensions() {
    let engine = PassportEngine::new("");
    let bytes = png_bytes(1000, 1000);
    let out = engine.process(&bytes, PassportStandard::UK, None, None, false).unwrap();
    assert!(!out.is_empty());
    let decoded = image::load_from_memory(&out).unwrap();
    assert_eq!((decoded.width(), decoded.height()), (350, 450));
}

#[test]
fn process_face_crop_with_removal() {
    let engine = PassportEngine::new("");
    let bytes = png_bytes(800, 900);
    let face = at_pixel(400, 300);
    let out = engine
        .process(&bytes, PassportStandard::US, Some(bytes.as_slice()), Some(face), true)
        .unwrap();
    let decoded = image::load_from_memory(&out).unwrap().to_rgb8();
    assert_eq!(decoded.dimensions(), (600, 600));
    let corner = decoded.get_pixel(0, 0);
    assert!(corner[0] > 240 && corner[1] > 240 && corner[2] > 240);
}

#[test]
fn process_rejects_garbage() {
    let engine = PassportEngine::new("");
    let r = engine.process(&[1, 2, 3, 4, 5], PassportStandard::US, None, None, false);
    assert_eq!(r, Err(ProcessError::DecodeError));
}

#[test]
fn process_face_crop_on_small_image_is_degenerate() {
    let engine = PassportEngine::new("");
    let bytes = png_bytes(100, 100);
    let r = engine.process(&bytes, PassportStandard::US, None, Some(at_pixel(50, 50)), false);
    assert_eq!(r, Err(ProcessError::GeometryDegenerate));
}

#[test]
fn error_messages_differ() {
    assert_ne!(ProcessError::DecodeError.message(), ProcessError::EncodeError.message());
    assert_ne!(ProcessError::EncodeError.message(), ProcessError::GeometryDegenerate.message());
}

#[test]
fn render_photo_gives_jpeg_of_target_size() {
    let engine = PassportEngine::new("");
    let src = solid(1000, 1000, [90, 60, 30]);
    let config = PassportStandard::UK.to_config();
    let out = engine.render_photo(&src, config, None, false).unwrap();
    assert_eq!(&out[0..2], &[0xFF, 0xD8]);
    let decoded = image::load_from_memory(&out).unwrap();
    assert_eq!((decoded.width(), decoded.height()), (350, 450));
}

#[test]
fn render_photo_reports_degenerate_geometry() {
    let engine = PassportEngine::new("");
    let src = solid(10, 10, [1, 2, 3]);
    let config = PassportStandard::UK.to_config();
    let r = engine.render_photo(&src, config, Some(at_pixel(5, 5)), false);
    assert_eq!(r, Err(ProcessError::GeometryDegenerate));
    let empty = Raster { width: 0, height: 0, pixels: Vec::new() };
    assert_eq!(engine.render_photo(&empty, config, None, false), Err(ProcessError::GeometryDegenerate));
}

#[test]
fn process_output_starts_with_jpeg_marker() {
    let engine = PassportEngine::new("");
    let bytes = png_bytes(120, 80);
    let out = engine.process(&bytes, PassportStandard::India, None, None, true).unwrap();
    assert_eq!(&out[0..2], &[0xFF, 0xD8]);
}

#[test]
fn process_reads_jpeg_input() {
    let img = image::RgbImage::from_fn(640, 480, |x, y| image::Rgb([(x % 256) as u8, (y % 256) as u8, 7]));
    let mut jpeg = Vec::new();
    image::codecs::jpeg::JpegEncoder::new_with_quality(&mut jpeg, 90)
        .encode(img.as_raw(), 640, 480, image::ColorType::Rgb8)
        .unwrap();
    let engine = PassportEngine::new("");
    let out = engine.process(&jpeg, PassportStandard::GeneralID, None, None, false).unwrap();
    let decoded = image::load_from_memory(&out).unwrap();
    assert_eq!((decoded.width(), decoded.height()), (450, 550));
}

#[test]
fn resize_mode_removal_at_target_size_whitens_corners_keeps_center() {
    let engine = PassportEngine::new("");
    let mut src = solid(500, 500, [12, 34, 56]);
    let center = (250 * 500 + 250) * 3;
    src.pixels[center] = 200;
    src.pixels[center + 1] = 100;
    src.pixels[center + 2] = 50;
    let config = PassportStandard::Custom.to_config();
    let out = engine.apply_crop_and_white_bg(&src, config, None, true).unwrap();
    for (x, y) in [(0usize, 0usize), (499, 0), (0, 499), (499, 499)] {
        let i = (y * 500 + x) * 3;
        assert_eq!(&out.pixels[i..i + 3], &[255, 255, 255]);
    }
    assert_eq!(&out.pixels[center..center + 3], &[200, 100, 50]);
}
