//! The engine: decode, frame, mask, composite and encode one photo.
use crate::codec::{decode_rgb, decoded_size, encode_jpeg, jpeg_of, resize_lanczos, JPEG_MAX_SIDE};
use crate::compose::{composite_on_white, composited, WHITE};
use crate::error::ProcessError;
use crate::format::{signature_format, sniff_format};
use crate::geometry::{crop, crop_left, crop_top, cropped, face_crop_offsets, frame_fits, FaceCenter};
use crate::mask::{create_alpha_mask, in_silhouette, lemma_silhouette_center_and_corners, silhouette_mask};
use crate::raster::{lemma_pixel_coordinates, lemma_pixel_in_grid};
use crate::raster::Raster;
use crate::standards::{config_of, CropConfig, PassportStandard};
use vstd::prelude::*;

verus! {

/// JPEG quality of every output photo.
pub const JPEG_QUALITY: u8 = 95;

/// A frame can be cut from a `src_width` by `src_height` source: with a
/// face, the frame fits inside the source; without one, the source has a
/// pixel to scale.
pub open spec fn can_frame(
    src_width: u32,
    src_height: u32,
    config: CropConfig,
    face: Option<FaceCenter>,
) -> bool {
    match face {
        Some(_) => frame_fits(src_width as int, src_height as int, config),
        None => src_width > 0 && src_height > 0,
    }
}

/// The face-centred frame of the configuration's size.
pub open spec fn face_frame(
    src: Seq<u8>,
    src_width: u32,
    src_height: u32,
    config: CropConfig,
    face: FaceCenter,
) -> Seq<u8> {
    cropped(
        src,
        src_width as int,
        crop_left(src_width as int, config, face),
        crop_top(src_height as int, config, face),
        config.target_width as int,
        config.target_height as int,
    )
}

/// A frame on the white canvas: through the silhouette mask when the
/// background is removed, otherwise with every pixel kept.
pub open spec fn finished(frame: Seq<u8>, width: int, height: int, remove_background: bool) -> Seq<
    u8,
> {
    if remove_background {
        composited(frame, Some(silhouette_mask(width, height)))
    } else {
        composited(frame, None)
    }
}

/// `photo` is the finished form of the frame that the mode gives: with a
/// face, of the face-centred crop; without one, of some frame of the target
/// size (the resampled source, whose values the codec does not fix).
pub open spec fn is_photo_of(
    photo: Seq<u8>,
    src: Seq<u8>,
    src_width: u32,
    src_height: u32,
    config: CropConfig,
    face: Option<FaceCenter>,
    remove_background: bool,
) -> bool {
    let w = config.target_width as int;
    let h = config.target_height as int;
    match face {
        Some(f) => photo == finished(
            face_frame(src, src_width, src_height, config, f),
            w,
            h,
            remove_background,
        ),
        None => exists|frame: Seq<u8>|
            frame.len() == w * h * 3 && photo == #[trigger] finished(
                frame,
                w,
                h,
                remove_background,
            ),
    }
}

/// The encoder's answer for a finished photo of the given size.
pub open spec fn jpeg_result(width: u32, height: u32, photo: Seq<u8>) -> Result<
    Seq<u8>,
    ProcessError,
> {
    match jpeg_of(width, height, photo, JPEG_QUALITY) {
        None => Err(ProcessError::EncodeError),
        Some(out) => Ok(out),
    }
}

/// `out` is what rendering a decoded source gives: a degenerate geometry, or
/// the encoder's answer for a photo of that source.
pub open spec fn rendered(
    out: Result<Seq<u8>, ProcessError>,
    src: Seq<u8>,
    src_width: u32,
    src_height: u32,
    config: CropConfig,
    face: Option<FaceCenter>,
    remove_background: bool,
) -> bool {
    if !can_frame(src_width, src_height, config, face) {
        out == Err::<Seq<u8>, ProcessError>(ProcessError::GeometryDegenerate)
    } else {
        exists|photo: Seq<u8>|
            #[trigger] is_photo_of(
                photo,
                src,
                src_width,
                src_height,
                config,
                face,
                remove_background,
            ) && out == jpeg_result(config.target_width, config.target_height, photo)
    }
}

/// The bytes are a JPEG or PNG stream whose size the codec can read.
pub open spec fn decodable(bytes: Seq<u8>) -> bool {
    signature_format(bytes) is Some && decoded_size(bytes) is Some
}

/// The stream starts with the JPEG start-of-image marker.
pub open spec fn starts_as_jpeg(out: Seq<u8>) -> bool {
    out.len() >= 2 && out[0] == 0xFF && out[1] == 0xD8
}

/// The view of a pipeline result.
pub open spec fn output_view(r: Result<Vec<u8>, ProcessError>) -> Result<Seq<u8>, ProcessError> {
    match r {
        Ok(v) => Ok(v@),
        Err(e) => Err(e),
    }
}

/// Masks (when asked) and composites a frame onto white.
pub fn finish_frame(frame: &Raster, remove_background: bool) -> (r: Raster)
    requires
        frame.wf(),
    ensures
        r.wf(),
        r.width == frame.width,
        r.height == frame.height,
        r.pixels@ == finished(
            frame.pixels@,
            frame.width as int,
            frame.height as int,
            remove_background,
        ),
        !remove_background ==> r.pixels@ == frame.pixels@,
{
    let n = frame.pixels.len();
    proof {
        assert(frame.width * frame.height <= usize::MAX) by (nonlinear_arith)
            requires
                frame.width * frame.height * 3 == n,
                n <= usize::MAX,
        ;
    }
    let mask: Option<Vec<u8>> = if remove_background {
        Some(create_alpha_mask(frame.width, frame.height))
    } else {
        None
    };
    let r = composite_on_white(frame, &mask);
    proof {
        lemma_no_removal_keeps_frame(frame.pixels@, frame.width as int, frame.height as int);
    }
    r
}

/// Without background removal the canvas takes every byte of the frame:
/// no white pixel is introduced and each RGB value is the frame's own.
pub proof fn lemma_no_removal_keeps_frame(frame: Seq<u8>, width: int, height: int)
    ensures
        finished(frame, width, height, false) == frame,
{
    assert(finished(frame, width, height, false) =~= frame);
}

/// With background removal, a pixel outside the silhouette is pure white.
pub proof fn lemma_removal_whitens_outside(
    frame: Seq<u8>,
    width: int,
    height: int,
    x: int,
    y: int,
)
    requires
        0 <= x < width,
        0 <= y < height,
        frame.len() == width * height * 3,
        !in_silhouette(x, y, width, height),
    ensures
        forall|c: int|
            0 <= c < 3 ==> #[trigger] finished(frame, width, height, true)[(y * width + x) * 3
                + c] == WHITE,
{
    lemma_pixel_coordinates(width, x, y);
    lemma_pixel_in_grid(width, height, x, y);
    let p = y * width + x;
    assert forall|c: int| 0 <= c < 3 implies #[trigger] finished(frame, width, height, true)[p * 3
        + c] == WHITE by {
        assert((p * 3 + c) / 3 == p);
    }
}

/// With background removal on a frame of at least two by two, the two left
/// corners are pure white (the right ones too from a width of eleven) and
/// the centre pixel keeps the frame's colour.
pub proof fn lemma_removal_whitens_corners_keeps_center(frame: Seq<u8>, width: int, height: int)
    requires
        width >= 2,
        height >= 2,
        frame.len() == width * height * 3,
    ensures
        forall|c: int|
            0 <= c < 3 ==> #[trigger] finished(frame, width, height, true)[c] == WHITE,
        forall|c: int|
            0 <= c < 3 ==> #[trigger] finished(frame, width, height, true)[((height - 1) * width)
                * 3 + c] == WHITE,
        width >= 11 ==> forall|c: int|
            0 <= c < 3 ==> #[trigger] finished(frame, width, height, true)[(width - 1) * 3 + c]
                == WHITE,
        width >= 11 ==> forall|c: int|
            0 <= c < 3 ==> #[trigger] finished(frame, width, height, true)[((height - 1) * width
                + (width - 1)) * 3 + c] == WHITE,
        forall|c: int|
            0 <= c < 3 ==> #[trigger] finished(frame, width, height, true)[((height / 2) * width
                + width / 2) * 3 + c] == frame[((height / 2) * width + width / 2) * 3 + c],
{
    lemma_silhouette_center_and_corners(width, height);
    lemma_removal_whitens_outside(frame, width, height, 0, 0);
    assert((0 * width + 0) == 0);
    lemma_removal_whitens_outside(frame, width, height, 0, height - 1);
    assert((height - 1) * width + 0 == (height - 1) * width);
    if width >= 11 {
        lemma_removal_whitens_outside(frame, width, height, width - 1, 0);
        assert(0 * width + (width - 1) == width - 1);
        lemma_removal_whitens_outside(frame, width, height, width - 1, height - 1);
    }
    let p = (height / 2) * width + width / 2;
    assert(0 <= p < width * height) by (nonlinear_arith)
        requires
            width >= 2,
            height >= 2,
            p == (height / 2) * width + width / 2,
    ;
    assert forall|c: int| 0 <= c < 3 implies #[trigger] finished(frame, width, height, true)[p * 3
        + c] == frame[p * 3 + c] by {
        assert((p * 3 + c) / 3 == p);
    }
}

/// A document photo engine. It keeps the resource path it was made with and
/// no per-request state, so one engine serves any number of calls.
pub struct PassportEngine {
    model_path: String,
}

impl PassportEngine {
    /// The resource path the engine was made with.
    pub closed spec fn stored_path(&self) -> Seq<char> {
        self.model_path@
    }

    /// An engine holding `model_path`, which is reserved for a future
    /// segmentation model and read by nothing yet.
    pub fn new(model_path: &str) -> (r: Self)
        ensures
            r.stored_path() == model_path@,
    {
        PassportEngine { model_path: model_path.to_owned() }
    }

    /// The resource path the engine was made with.
    pub fn model_path(&self) -> (r: &str)
        ensures
            r@ == self.stored_path(),
    {
        self.model_path.as_str()
    }

    /// Cuts the frame of `config` out of `img` (face-centred with a face,
    /// resampled without one), then masks and composites it onto white.
    pub fn apply_crop_and_white_bg(
        &self,
        img: &Raster,
        config: CropConfig,
        face_center: Option<FaceCenter>,
        remove_background: bool,
    ) -> (r: Result<Raster, ProcessError>)
        requires
            img.wf(),
            config.wf(),
            config.target_width * config.target_height * 3 <= usize::MAX,
        ensures
            r is Ok <==> can_frame(img.width, img.height, config, face_center),
            r is Err ==> r->Err_0 == ProcessError::GeometryDegenerate,
            r is Ok ==> {
                &&& r->Ok_0.wf()
                &&& r->Ok_0.width == config.target_width
                &&& r->Ok_0.height == config.target_height
                &&& is_photo_of(
                    r->Ok_0.pixels@,
                    img.pixels@,
                    img.width,
                    img.height,
                    config,
                    face_center,
                    remove_background,
                )
            },
            face_center is None && img.width == config.target_width && img.height
                == config.target_height ==> r is Ok && r->Ok_0.pixels@ == finished(
                img.pixels@,
                config.target_width as int,
                config.target_height as int,
                remove_background,
            ),
    {
        let frame = match face_center {
            Some(face) => {
                let (left, top) = match face_crop_offsets(img.width, img.height, config, face) {
                    Ok(offsets) => offsets,
                    Err(e) => {
                        return Err(e);
                    },
                };
                crop(img, left, top, config.target_width, config.target_height)
            },
            None => {
                if img.width == 0 || img.height == 0 {
                    return Err(ProcessError::GeometryDegenerate);
                }
                resize_lanczos(img, config.target_width, config.target_height)
            },
        };
        Ok(finish_frame(&frame, remove_background))
    }

    /// Turns a decoded source into a JPEG document photo of `config`'s frame.
    pub fn render_photo(
        &self,
        img: &Raster,
        config: CropConfig,
        face_center: Option<FaceCenter>,
        remove_background: bool,
    ) -> (r: Result<Vec<u8>, ProcessError>)
        requires
            img.wf(),
            config.wf(),
            config.target_width * config.target_height * 3 <= usize::MAX,
        ensures
            rendered(
                output_view(r),
                img.pixels@,
                img.width,
                img.height,
                config,
                face_center,
                remove_background,
            ),
            can_frame(img.width, img.height, config, face_center) && config.target_width
                <= JPEG_MAX_SIDE && config.target_height <= JPEG_MAX_SIDE ==> r is Ok,
            r is Ok ==> starts_as_jpeg(r->Ok_0@),
            r is Err ==> r->Err_0 != ProcessError::DecodeError,
    {
        let processed = match self.apply_crop_and_white_bg(
            img,
            config,
            face_center,
            remove_background,
        ) {
            Ok(p) => p,
            Err(e) => {
                return Err(e);
            },
        };
        match encode_jpeg(&processed, JPEG_QUALITY) {
            Ok(bytes) => Ok(bytes),
            Err(_) => Err(ProcessError::EncodeError),
        }
    }

    /// Turns an encoded JPEG or PNG photo into a JPEG document photo of
    /// `standard`; any other input is a decode error.
    /// `_suit_bytes` is accepted and reserved; nothing reads it.
    pub fn process(
        &self,
        image_bytes: &[u8],
        standard: PassportStandard,
        _suit_bytes: Option<&[u8]>,
        face_center: Option<FaceCenter>,
        remove_background: bool,
    ) -> (r: Result<Vec<u8>, ProcessError>)
        ensures
            !decodable(image_bytes@) <==> r == Err::<Vec<u8>, ProcessError>(
                ProcessError::DecodeError,
            ),
            decodable(image_bytes@) ==> exists|src: Seq<u8>|
                src.len() == decoded_size(image_bytes@)->Some_0.0 * decoded_size(
                    image_bytes@,
                )->Some_0.1 * 3 && #[trigger] rendered(
                    output_view(r),
                    src,
                    decoded_size(image_bytes@)->Some_0.0,
                    decoded_size(image_bytes@)->Some_0.1,
                    config_of(standard),
                    face_center,
                    remove_background,
                ),
            decodable(image_bytes@) && can_frame(
                decoded_size(image_bytes@)->Some_0.0,
                decoded_size(image_bytes@)->Some_0.1,
                config_of(standard),
                face_center,
            ) ==> r is Ok,
            r is Ok ==> starts_as_jpeg(r->Ok_0@),
    {
        let format = match sniff_format(image_bytes) {
            Some(f) => f,
            None => {
                return Err(ProcessError::DecodeError);
            },
        };
        let img = match decode_rgb(image_bytes, format) {
            Ok(img) => img,
            Err(_) => {
                return Err(ProcessError::DecodeError);
            },
        };
        let config = standard.to_config();
        proof {
            crate::standards::lemma_config_frame_fits_memory(standard);
        }
        let r = self.render_photo(&img, config, face_center, remove_background);
        proof {
            assert(rendered(
                output_view(r),
                img.pixels@,
                img.width,
                img.height,
                config,
                face_center,
                remove_background,
            ));
            let w = decoded_size(image_bytes@)->Some_0.0;
            let h = decoded_size(image_bytes@)->Some_0.1;
            assert(w == img.width && h == img.height);
            assert(img.pixels@.len() == w * h * 3);
            assert(rendered(
                output_view(r),
                img.pixels@,
                w,
                h,
                config_of(standard),
                face_center,
                remove_background,
            ));
        }
        r
    }
}

} // verus!
