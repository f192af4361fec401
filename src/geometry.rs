//! Placement of a face-centred crop and the extraction of that region.
use crate::error::ProcessError;
use crate::raster::{channel_at, lemma_pixel_in_grid, Raster};
use crate::standards::{CropConfig, PERMILLE};
use vstd::prelude::*;

verus! {

/// Subdivisions of a pixel in which a face location is given.
pub const FACE_UNITS_PER_PIXEL: i64 = 1024;

/// A face location in source-image coordinates, in units of
/// `1 / FACE_UNITS_PER_PIXEL` pixel; it may lie outside the image, in which
/// case the crop is pushed against the nearest edge.
#[derive(Clone, Copy, Debug, PartialEq, Eq, Structural)]
pub struct FaceCenter {
    pub x: i64,
    pub y: i64,
}

/// `v` forced into `[lo, hi]`.
pub open spec fn clamp(v: int, lo: int, hi: int) -> int {
    if v < lo {
        lo
    } else if v > hi {
        hi
    } else {
        v
    }
}

/// A frame of the configuration's size fits inside the source.
pub open spec fn frame_fits(src_width: int, src_height: int, config: CropConfig) -> bool {
    config.target_width <= src_width && config.target_height <= src_height
}

/// Left edge that puts the face at the horizontal middle of the frame,
/// `face_x - target_width / 2` in pixels, rounded down.
pub open spec fn desired_left(face_x: int, config: CropConfig) -> int {
    (2 * face_x - FACE_UNITS_PER_PIXEL * config.target_width) / (2 * FACE_UNITS_PER_PIXEL)
}

/// Top edge that puts the face at the middle of the face region,
/// `face_y - target_height * ratio / 2` in pixels, rounded down.
pub open spec fn desired_top(face_y: int, config: CropConfig) -> int {
    (2 * PERMILLE * face_y - FACE_UNITS_PER_PIXEL * config.target_height
        * config.top_margin_permille) / (2 * PERMILLE * FACE_UNITS_PER_PIXEL)
}

/// Left edge of the face-centred crop, kept inside the source.
pub open spec fn crop_left(src_width: int, config: CropConfig, face: FaceCenter) -> int {
    clamp(desired_left(face.x as int, config), 0, src_width - config.target_width)
}

/// Top edge of the face-centred crop, kept inside the source.
pub open spec fn crop_top(src_height: int, config: CropConfig, face: FaceCenter) -> int {
    clamp(desired_top(face.y as int, config), 0, src_height - config.target_height)
}

/// The offsets of a face-centred crop of the configuration's size on a
/// source of the given size; a source smaller than the frame along either
/// axis is refused.
pub fn face_crop_offsets(src_width: u32, src_height: u32, config: CropConfig, face: FaceCenter) -> (r:
    Result<(u32, u32), ProcessError>)
    requires
        config.wf(),
    ensures
        r is Ok <==> frame_fits(src_width as int, src_height as int, config),
        r is Err ==> r->Err_0 == ProcessError::GeometryDegenerate,
        r is Ok ==> r->Ok_0.0 == crop_left(src_width as int, config, face),
        r is Ok ==> r->Ok_0.1 == crop_top(src_height as int, config, face),
        r is Ok ==> r->Ok_0.0 + config.target_width <= src_width,
        r is Ok ==> r->Ok_0.1 + config.target_height <= src_height,
{
    if config.target_width > src_width || config.target_height > src_height {
        return Err(ProcessError::GeometryDegenerate);
    }
    let max_left: u32 = src_width - config.target_width;
    let max_top: u32 = src_height - config.target_height;

    let units: i128 = FACE_UNITS_PER_PIXEL as i128;
    let tw: i128 = config.target_width as i128;
    let th: i128 = config.target_height as i128;
    let ratio: i128 = config.top_margin_permille as i128;
    let fx: i128 = face.x as i128;
    let fy: i128 = face.y as i128;
    let scale: i128 = 2 * (PERMILLE as i128);
    proof {
        assert(0 <= units * tw <= 0x1_0000_0000_0000) by (nonlinear_arith)
            requires
                units == 1024,
                0 <= tw <= 0x1_0000_0000,
        ;
        assert(-0x1_0000_0000_0000_0000_0000 <= scale * fy <= 0x1_0000_0000_0000_0000_0000)
            by (nonlinear_arith)
            requires
                scale == 2000,
                -0x8000_0000_0000_0000 <= fy <= 0x8000_0000_0000_0000,
        ;
        assert(0 <= units * th * ratio <= 0x1_0000_0000_0000_0000) by (nonlinear_arith)
            requires
                units == 1024,
                0 <= th <= 0x1_0000_0000,
                0 <= ratio <= 1000,
        ;
    }

    let twice_x: i128 = 2 * fx - units * tw;
    let left: u32 = if twice_x < 0 {
        0
    } else if twice_x / (2 * units) > max_left as i128 {
        max_left
    } else {
        (twice_x / (2 * units)) as u32
    };

    let scaled_y: i128 = scale * fy - units * th * ratio;
    let top: u32 = if scaled_y < 0 {
        0
    } else if scaled_y / (scale * units) > max_top as i128 {
        max_top
    } else {
        (scaled_y / (scale * units)) as u32
    };
    Ok((left, top))
}

/// On a source exactly the frame's size the crop starts at `(0, 0)`,
/// wherever the face is: the clamp leaves a single position.
pub proof fn lemma_frame_sized_source_crops_at_origin(config: CropConfig, face: FaceCenter)
    ensures
        crop_left(config.target_width as int, config, face) == 0,
        crop_top(config.target_height as int, config, face) == 0,
{
}

/// The region of `src` whose top-left corner is `(left, top)` and whose size
/// is `width` by `height`, as a row-major RGB buffer.
pub open spec fn cropped(
    src: Seq<u8>,
    src_width: int,
    left: int,
    top: int,
    width: int,
    height: int,
) -> Seq<u8> {
    Seq::new(
        (width * height * 3) as nat,
        |k: int| channel_at(src, src_width, left + (k / 3) % width, top + (k / 3) / width, k % 3),
    )
}

/// Copies the `width` by `height` region at `(left, top)` out of `src`.
pub fn crop(src: &Raster, left: u32, top: u32, width: u32, height: u32) -> (r: Raster)
    requires
        src.wf(),
        left + width <= src.width,
        top + height <= src.height,
    ensures
        r.wf(),
        r.width == width,
        r.height == height,
        r.pixels@ == cropped(
            src.pixels@,
            src.width as int,
            left as int,
            top as int,
            width as int,
            height as int,
        ),
{
    let ghost spec_out = cropped(
        src.pixels@,
        src.width as int,
        left as int,
        top as int,
        width as int,
        height as int,
    );
    let n_src = src.pixels.len();
    let w = width as usize;
    let sw = src.width as usize;
    proof {
        assert(width * height <= src.width * src.height) by (nonlinear_arith)
            requires
                width <= src.width,
                height <= src.height,
        ;
    }
    let count: usize = w * (height as usize);
    let mut out: Vec<u8> = Vec::with_capacity(count * 3);
    let mut p: usize = 0;
    while p < count
        invariant
            count == width * height,
            w == width,
            sw == src.width,
            n_src == src.pixels@.len(),
            src.wf(),
            left + width <= src.width,
            top + height <= src.height,
            p <= count,
            out@.len() == 3 * p,
            spec_out == cropped(
                src.pixels@,
                src.width as int,
                left as int,
                top as int,
                width as int,
                height as int,
            ),
            spec_out.len() == 3 * count,
            forall|k: int| 0 <= k < out@.len() ==> #[trigger] out@[k] == spec_out[k],
        decreases count - p,
    {
        let col = p % w;
        let row = p / w;
        proof {
            assert(row < height) by (nonlinear_arith)
                requires
                    p < width * height,
                    row == p as int / width as int,
                    width > 0,
            ;
            lemma_pixel_in_grid(
                src.width as int,
                src.height as int,
                left + col,
                top + row,
            );
        }
        let base = ((top as usize + row) * sw + left as usize + col) * 3;
        let ghost before = out@;
        out.push(src.pixels[base]);
        out.push(src.pixels[base + 1]);
        out.push(src.pixels[base + 2]);
        proof {
            assert forall|k: int| 0 <= k < out@.len() implies #[trigger] out@[k] == spec_out[k] by {
                if k >= before.len() {
                    let c = k - 3 * p;
                    assert(0 <= c < 3);
                    assert(k / 3 == p);
                    assert(k % 3 == c);
                    assert(out@[k] == src.pixels@[base + c]);
                    assert(spec_out[k] == channel_at(
                        src.pixels@,
                        src.width as int,
                        left + col,
                        top + row,
                        c,
                    ));
                } else {
                    assert(out@[k] == before[k]);
                }
            }
        }
        p = p + 1;
    }
    proof {
        assert(out@ =~= spec_out);
    }
    Raster { width, height, pixels: out }
}

} // verus!
