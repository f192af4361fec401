//! The calls into the `image` crate: decoding, resampling and JPEG encoding.
use crate::format::{signature_format, SourceFormat};
use crate::raster::Raster;
use vstd::prelude::*;

verus! {

/// Largest width or height that a JPEG stream can record.
pub const JPEG_MAX_SIDE: u32 = 65535;

#[verifier::external_type_specification]
#[verifier::external_body]
pub struct ExImageError(image::ImageError);

/// The width and height that the codec reads from a JPEG or PNG stream, or
/// nothing where it cannot read one. (The pixel values are not named: the
/// JPEG decoder picks its transform by the CPU it runs on.)
pub uninterp spec fn decoded_size(bytes: Seq<u8>) -> Option<(u32, u32)>;

/// The JPEG stream that the encoder writes for an RGB grid at a quality.
pub uninterp spec fn jpeg_of(width: u32, height: u32, pixels: Seq<u8>, quality: u8) -> Option<
    Seq<u8>,
>;

/// Relies on `image::load_from_memory_with_format`, built with only its JPEG
/// and PNG decoders and the default 512 MiB allocation limit, and on
/// `DynamicImage::to_rgb8`, whose buffer holds three bytes per pixel.
/// Malformed streams come back as errors: jpeg-decoder's `Decoder::read_info`
/// and `decode` return `Error::Format` (src/decoder.rs), and png's
/// `StreamingDecoder` returns a `FormatError` (src/decoder/stream.rs), which
/// image maps to `ImageError` (src/codecs/jpeg/decoder.rs, src/codecs/png.rs).
#[verifier::external_body]
pub(crate) fn decode_rgb(bytes: &[u8], format: SourceFormat) -> (r: Result<
    Raster,
    image::ImageError,
>)
    requires
        signature_format(bytes@) == Some(format),
    ensures
        r is Ok <==> decoded_size(bytes@) is Some,
        r is Ok ==> r->Ok_0.wf(),
        r is Ok ==> decoded_size(bytes@) == Some((r->Ok_0.width, r->Ok_0.height)),
{
    let f = match format {
        SourceFormat::Jpeg => image::ImageFormat::Jpeg,
        SourceFormat::Png => image::ImageFormat::Png,
    };
    let img = image::load_from_memory_with_format(bytes, f)?.to_rgb8();
    Ok(Raster { width: img.width(), height: img.height(), pixels: img.into_raw() })
}

/// Relies on `image::imageops::resize` with the Lanczos-3 filter: the result
/// is exactly `new_width` by `new_height` pixels, and at an unchanged size it
/// is a copy of the source. Other values rest on `f32::sin`, whose precision
/// varies by platform, so they are not named.
#[verifier::external_body]
pub(crate) fn resize_lanczos(src: &Raster, new_width: u32, new_height: u32) -> (r: Raster)
    requires
        src.wf(),
        src.width > 0,
        src.height > 0,
        new_width > 0,
        new_height > 0,
        new_width * new_height * 3 <= usize::MAX,
    ensures
        r.wf(),
        r.width == new_width,
        r.height == new_height,
        src.width == new_width && src.height == new_height ==> r.pixels@ == src.pixels@,
{
    let buf = image::RgbImage::from_raw(src.width, src.height, src.pixels.clone()).unwrap();
    let out = image::imageops::resize(
        &buf,
        new_width,
        new_height,
        image::imageops::FilterType::Lanczos3,
    );
    Raster { width: new_width, height: new_height, pixels: out.into_raw() }
}

/// Relies on `JpegEncoder::encode` for RGB bytes, which writes the stream into
/// the vector and panics only on a buffer of the wrong length. Writing into a
/// vector cannot fail, so it fails only on a side above 65535; the stream
/// starts with the start-of-image marker `FF D8`.
#[verifier::external_body]
pub(crate) fn encode_jpeg(img: &Raster, quality: u8) -> (r: Result<Vec<u8>, image::ImageError>)
    requires
        img.wf(),
        1 <= quality <= 100,
    ensures
        r is Ok <==> jpeg_of(img.width, img.height, img.pixels@, quality) is Some,
        r is Ok ==> jpeg_of(img.width, img.height, img.pixels@, quality) == Some(r->Ok_0@),
        img.width <= JPEG_MAX_SIDE && img.height <= JPEG_MAX_SIDE ==> r is Ok,
        r is Ok ==> r->Ok_0@.len() >= 2 && r->Ok_0@[0] == 0xFF && r->Ok_0@[1] == 0xD8,
{
    let mut out: Vec<u8> = Vec::new();
    image::codecs::jpeg::JpegEncoder::new_with_quality(&mut out, quality).encode(
        &img.pixels,
        img.width,
        img.height,
        image::ColorType::Rgb8,
    )?;
    Ok(out)
}

} // verus!
