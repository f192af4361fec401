use edgepass::geometry::{crop, face_crop_offsets, FaceCenter, FACE_UNITS_PER_PIXEL};
use edgepass::raster::Raster;
use edgepass::standards::{CropConfig, PassportStandard};
use edgepass::ProcessError;

fn gradient(width: u32, height: u32) -> Raster {
    let mut pixels = Vec::new();
    for y in 0..height {
        for x in 0..width {
            pixels.push((x % 256) as u8);
            pixels.push((y % 256) as u8);
            pixels.push(((x + y) % 256) as u8);
        }
    }
    Raster { width, height, pixels }
}

fn at_pixel(x: i64, y: i64) -> FaceCenter {
    FaceCenter { x: x * FACE_UNITS_PER_PIXEL, y: y * FACE_UNITS_PER_PIXEL }
}

#[test]
fn every_standard_has_positive_frame() {
    let all = [
        PassportStandard::SaudiEVisa,
        PassportStandard::US,
        PassportStandard::Schengen,
        PassportStandard::GeneralID,
        PassportStandard::UK,
        PassportStandard::India,
        PassportStandard::Custom,
    ];
    for s in all {
        let c = s.to_config();
        assert!(c.target_width > 0);
        assert!(c.target_height > 0);
        assert_eq!(c.top_margin_permille, 450);
    }
}

#[test]
fn standard_table() {
    let uk = PassportStandard::UK.to_config();
    assert_eq!((uk.target_width, uk.target_height), (350, 450));
    let general = PassportStandard::GeneralID.to_config();
    assert_eq!((general.target_width, general.target_height), (450, 550));
    let india = PassportStandard::India.to_config();
    assert_eq!((india.target_width, india.target_height), (350, 500));
}

#[test]
fn unknown_id_falls_back_to_general_id() {
    assert_eq!(PassportStandard::from_id(0), PassportStandard::SaudiEVisa);
    assert_eq!(PassportStandard::from_id(1), PassportStandard::US);
    assert_eq!(PassportStandard::from_id(2), PassportStandard::Schengen);
    assert_eq!(PassportStandard::from_id(3), PassportStandard::GeneralID);
    assert_eq!(PassportStandard::from_id(4), PassportStandard::UK);
    assert_eq!(PassportStandard::from_id(5), PassportStandard::India);
    assert_eq!(PassportStandard::from_id(6), PassportStandard::GeneralID);
    assert_eq!(PassportStandard::from_id(-1), PassportStandard::GeneralID);
}

#[test]
fn face_at_center_of_equal_source_gives_zero_offsets() {
    let config = PassportStandard::UK.to_config();
    let face = at_pixel(175, 225);
    assert_eq!(face_crop_offsets(350, 450, config, face), Ok((0, 0)));
}

#[test]
fn face_offsets_follow_the_margin_formula() {
    // 500 - 600 / 2 = 200; 500 - 600 * 0.45 / 2 = 365
    let config = PassportStandard::US.to_config();
    let face = at_pixel(500, 500);
    assert_eq!(face_crop_offsets(1000, 1000, config, face), Ok((200, 365)));
}

#[test]
fn face_offsets_are_clamped_into_the_source() {
    let config = PassportStandard::US.to_config();
    assert_eq!(face_crop_offsets(1000, 800, config, at_pixel(-50, -50)), Ok((0, 0)));
    assert_eq!(
        face_crop_offsets(1000, 800, config, at_pixel(5000, 5000)),
        Ok((400, 200))
    );
    let (left, top) = face_crop_offsets(1000, 800, config, at_pixel(990, 10)).unwrap();
    assert!(left + 600 <= 1000 && top + 600 <= 800);
}

#[test]
fn small_source_is_degenerate() {
    let config = CropConfig { target_width: 350, target_height: 450, top_margin_permille: 450 };
    let face = at_pixel(10, 10);
    assert_eq!(face_crop_offsets(349, 1000, config, face), Err(ProcessError::GeometryDegenerate));
    assert_eq!(face_crop_offsets(1000, 449, config, face), Err(ProcessError::GeometryDegenerate));
}

#[test]
fn crop_copies_the_region() {
    let src = gradient(20, 10);
    let out = crop(&src, 5, 3, 4, 2);
    assert_eq!((out.width, out.height), (4, 2));
    assert_eq!(out.pixels.len(), 4 * 2 * 3);
    for y in 0..2u32 {
        for x in 0..4u32 {
            for c in 0..3usize {
                assert_eq!(out.channel_value(x, y, c), src.channel_value(x + 5, y + 3, c));
            }
        }
    }
}

#[test]
fn fractional_face_is_not_truncated_first() {
    // 110.9 - 450 * 0.45 / 2 = 9.65, so the top edge is 9
    let config = PassportStandard::UK.to_config();
    let y = (110.9f32 * FACE_UNITS_PER_PIXEL as f32) as i64;
    let face = FaceCenter { x: 500 * FACE_UNITS_PER_PIXEL, y };
    assert_eq!(face_crop_offsets(1000, 1000, config, face), Ok((325, 9)));
}
