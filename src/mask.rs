//! The silhouette mask: a fixed ellipse inscribed in the frame.
use crate::raster::lemma_pixel_coordinates;
use vstd::prelude::*;

verus! {

/// Mask value of a foreground pixel.
pub const FOREGROUND: u8 = 255;

/// Mask value of a background pixel.
pub const BACKGROUND: u8 = 0;

/// Pixel `(x, y)` of a `width` by `height` frame lies in the ellipse centred
/// at `(width / 2, height / 2)` with semi-axes `0.4 * width` and
/// `0.5 * height`, boundary included.
///
/// With `dx = 2x - width` and `dy = 2y - height` the normalised distance
/// `sqrt((5 dx / 4 width)^2 + (dy / height)^2)` is at most one exactly when
/// the inequality below holds; it is that inequality multiplied through by
/// `16 width^2 height^2`.
pub open spec fn in_silhouette(x: int, y: int, width: int, height: int) -> bool {
    let dx = 2 * x - width;
    let dy = 2 * y - height;
    25 * (dx * dx) * (height * height) + 16 * (dy * dy) * (width * width) <= 16 * (width * width)
        * (height * height)
}

/// The mask value of pixel `(x, y)`.
pub open spec fn mask_value(x: int, y: int, width: int, height: int) -> u8 {
    if in_silhouette(x, y, width, height) {
        FOREGROUND
    } else {
        BACKGROUND
    }
}

/// The whole mask of a `width` by `height` frame, one byte per pixel, row by row.
pub open spec fn silhouette_mask(width: int, height: int) -> Seq<u8> {
    Seq::new((width * height) as nat, |p: int| mask_value(p % width, p / width, width, height))
}

/// `|2v - size|`, the doubled distance of `v` from the middle of `size`.
fn doubled_offset(v: u32, size: u32) -> (r: u64)
    ensures
        r == if 2 * v >= size {
            2 * v - size
        } else {
            size - 2 * v
        },
{
    let twice: u64 = 2 * (v as u64);
    if twice >= size as u64 {
        twice - size as u64
    } else {
        size as u64 - twice
    }
}

/// Whether pixel `(x, y)` of a `width` by `height` frame is foreground.
pub fn is_foreground(x: u32, y: u32, width: u32, height: u32) -> (r: bool)
    requires
        x < width,
        y < height,
    ensures
        r == in_silhouette(x as int, y as int, width as int, height as int),
{
    let ghost dx = 2 * x - width;
    let ghost dy = 2 * y - height;
    let ax: u64 = doubled_offset(x, width);
    let ay: u64 = doubled_offset(y, height);
    let w: u128 = width as u128;
    let h: u128 = height as u128;
    proof {
        assert(ax <= w && ay <= h);
        assert(w * h <= 0xffff_ffff_ffff_ffff) by (nonlinear_arith)
            requires
                w < 0x1_0000_0000,
                h < 0x1_0000_0000,
        ;
        assert((ax as u128) * h <= w * h) by (nonlinear_arith)
            requires
                ax <= w,
        ;
        assert((ay as u128) * w <= w * h) by (nonlinear_arith)
            requires
                ay <= h,
        ;
    }
    // a and b are |dx| * height and |dy| * width; the test reads
    // 25 a^2 + 16 b^2 <= 16 (width * height)^2.
    let area: u128 = w * h;
    let a: u128 = (ax as u128) * h;
    let b: u128 = (ay as u128) * w;
    proof {
        assert(area * area <= 0xffff_ffff_ffff_fffe_0000_0000_0000_0001) by (nonlinear_arith)
            requires
                area <= 0xffff_ffff_ffff_ffff,
        ;
        assert(a * a <= area * area && b * b <= area * area) by (nonlinear_arith)
            requires
                a <= area,
                b <= area,
        ;
    }
    let room: u128 = area * area - b * b;
    let a2: u128 = a * a;
    proof {
        assert(dx * dx == ax * ax) by (nonlinear_arith)
            requires
                ax == dx || ax == -dx,
        ;
        assert(dy * dy == ay * ay) by (nonlinear_arith)
            requires
                ay == dy || ay == -dy,
        ;
        assert((dx * dx) * (height * height) == a2) by (nonlinear_arith)
            requires
                dx * dx == ax * ax,
                a == ax * h,
                a2 == a * a,
                h == height,
        ;
        assert((dy * dy) * (width * width) == b * b) by (nonlinear_arith)
            requires
                dy * dy == ay * ay,
                b == ay * w,
                w == width,
        ;
        assert((width * width) * (height * height) == area * area) by (nonlinear_arith)
            requires
                area == w * h,
                w == width,
                h == height,
        ;
    }
    proof {
        let dx2 = dx * dx;
        let dy2 = dy * dy;
        let w2 = (width as int) * (width as int);
        let h2 = (height as int) * (height as int);
        assert(25 * dx2 * h2 == 25 * (dx2 * h2)) by (nonlinear_arith);
        assert(16 * dy2 * w2 == 16 * (dy2 * w2)) by (nonlinear_arith);
        assert(16 * w2 * h2 == 16 * (w2 * h2)) by (nonlinear_arith);
        assert(in_silhouette(x as int, y as int, width as int, height as int) == (25 * a2 + 16 * (
        b * b) <= 16 * (area * area)));
    }
    if a2 > room {
        false
    } else {
        // floor(16 * room / 25), computed without overflow
        let bound: u128 = 16 * (room / 25) + (16 * (room % 25)) / 25;
        proof {
            let q = room / 25;
            let m = room % 25;
            assert(room == 25 * q + m);
            assert((25 * a2 <= 16 * room) == (a2 <= bound));
        }
        a2 <= bound
    }
}

/// The silhouette mask of a `width` by `height` frame.
pub fn create_alpha_mask(width: u32, height: u32) -> (r: Vec<u8>)
    requires
        width * height <= usize::MAX,
    ensures
        r@ == silhouette_mask(width as int, height as int),
{
    let ghost spec_mask = silhouette_mask(width as int, height as int);
    let count: usize = (width as usize) * (height as usize);
    let mut mask: Vec<u8> = Vec::with_capacity(count);
    let mut p: usize = 0;
    while p < count
        invariant
            count == width * height,
            spec_mask == silhouette_mask(width as int, height as int),
            p <= count,
            mask@.len() == p,
            forall|q: int| 0 <= q < p ==> #[trigger] mask@[q] == spec_mask[q],
        decreases count - p,
    {
        proof {
            assert(width > 0) by (nonlinear_arith)
                requires
                    p < width * height,
            ;
        }
        let x = p % (width as usize);
        let y = p / (width as usize);
        proof {
            assert(y < height) by (nonlinear_arith)
                requires
                    p < width * height,
                    y == p as int / width as int,
                    width > 0,
            ;
        }
        let inside = is_foreground(x as u32, y as u32, width, height);
        mask.push(if inside { FOREGROUND } else { BACKGROUND });
        p = p + 1;
    }
    proof {
        assert(mask@ =~= spec_mask);
    }
    mask
}

/// The pixel at the middle of a frame of at least two by two is foreground,
/// and the corners are background: the two left corners always, the top
/// right corner from a width of three, the bottom right corner from a width
/// of eleven. (On narrower frames the right-hand corners fall inside the
/// ellipse: at width two the right column is the centre column.)
pub proof fn lemma_silhouette_center_and_corners(width: int, height: int)
    requires
        width >= 2,
        height >= 2,
    ensures
        in_silhouette(width / 2, height / 2, width, height),
        !in_silhouette(0, 0, width, height),
        !in_silhouette(0, height - 1, width, height),
        width >= 3 ==> !in_silhouette(width - 1, 0, width, height),
        width >= 11 ==> !in_silhouette(width - 1, height - 1, width, height),
        silhouette_mask(width, height)[(height / 2) * width + width / 2] == FOREGROUND,
        silhouette_mask(width, height)[0] == BACKGROUND,
{
    let w2 = width * width;
    let h2 = height * height;
    assert(w2 >= 4 && h2 >= 4) by (nonlinear_arith)
        requires
            width >= 2,
            height >= 2,
            w2 == width * width,
            h2 == height * height,
    ;
    // centre: |dx| and |dy| are at most one
    let dx = 2 * (width / 2) - width;
    let dy = 2 * (height / 2) - height;
    assert(0 <= dx * dx <= 1 && 0 <= dy * dy <= 1) by (nonlinear_arith)
        requires
            -1 <= dx <= 0,
            -1 <= dy <= 0,
    ;
    assert(25 * (dx * dx) * h2 + 16 * (dy * dy) * w2 <= 16 * w2 * h2) by (nonlinear_arith)
        requires
            0 <= dx * dx <= 1,
            0 <= dy * dy <= 1,
            w2 >= 4,
            h2 >= 4,
    ;
    // corners in the left column: |dx| == width
    assert(25 * w2 * h2 > 16 * w2 * h2) by (nonlinear_arith)
        requires
            w2 >= 4,
            h2 >= 4,
    ;
    let ey0 = 2 * 0 - height;
    let ey1 = 2 * (height - 1) - height;
    assert(25 * ((-width) * (-width)) * h2 + 16 * (ey0 * ey0) * w2 > 16 * w2 * h2)
        by (nonlinear_arith)
        requires
            25 * w2 * h2 > 16 * w2 * h2,
            w2 == width * width,
            w2 >= 0,
    ;
    assert(25 * ((-width) * (-width)) * h2 + 16 * (ey1 * ey1) * w2 > 16 * w2 * h2)
        by (nonlinear_arith)
        requires
            25 * w2 * h2 > 16 * w2 * h2,
            w2 == width * width,
            w2 >= 0,
    ;
    if width >= 3 {
        let ex = 2 * (width - 1) - width;
        assert(25 * (ex * ex) * h2 + 16 * ((-height) * (-height)) * w2 > 16 * w2 * h2)
            by (nonlinear_arith)
            requires
                ex >= 1,
                h2 >= 4,
                h2 == height * height,
        ;
    }
    if width >= 11 {
        let ex = 2 * (width - 1) - width;
        let ey = 2 * (height - 1) - height;
        assert(25 * (ex * ex) > 16 * w2) by (nonlinear_arith)
            requires
                ex == width - 2,
                width >= 11,
                w2 == width * width,
        ;
        assert(25 * (ex * ex) * h2 + 16 * (ey * ey) * w2 > 16 * w2 * h2) by (nonlinear_arith)
            requires
                25 * (ex * ex) > 16 * w2,
                h2 >= 4,
                w2 >= 0,
        ;
    }
    lemma_pixel_coordinates(width, width / 2, height / 2);
    lemma_pixel_coordinates(width, 0, 0);
    assert(0 <= (height / 2) * width + width / 2 < width * height) by (nonlinear_arith)
        requires
            width >= 2,
            height >= 2,
    ;
}

} // verus!
