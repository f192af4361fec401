//! Compositing a frame onto an opaque white canvas through an optional mask.
use crate::raster::Raster;
use vstd::prelude::*;

verus! {

/// Mask values above this mark a pixel as foreground.
pub const MASK_THRESHOLD: u8 = 128;

/// Channel value of the white canvas.
pub const WHITE: u8 = 255;

/// The mask keeps pixel `p`: there is no mask, or its value there is above
/// the threshold.
pub open spec fn keeps(mask: Option<Seq<u8>>, p: int) -> bool {
    match mask {
        None => true,
        Some(m) => m[p] > MASK_THRESHOLD,
    }
}

/// The view of an optional mask.
pub open spec fn mask_view(mask: &Option<Vec<u8>>) -> Option<Seq<u8>> {
    match mask {
        None => None,
        Some(m) => Some(m@),
    }
}

/// Each byte of an RGB buffer, kept where the mask keeps its pixel and white
/// elsewhere.
pub open spec fn composited(pixels: Seq<u8>, mask: Option<Seq<u8>>) -> Seq<u8> {
    Seq::new(
        pixels.len(),
        |k: int|
            if keeps(mask, k / 3) {
                pixels[k]
            } else {
                WHITE
            },
    )
}

/// Paints `frame` onto a white canvas of its size, copying only the pixels
/// that `mask` keeps; every output pixel is opaque.
pub fn composite_on_white(frame: &Raster, mask: &Option<Vec<u8>>) -> (r: Raster)
    requires
        frame.wf(),
        mask is Some ==> mask->Some_0@.len() == frame.width * frame.height,
    ensures
        r.wf(),
        r.width == frame.width,
        r.height == frame.height,
        r.pixels@ == composited(frame.pixels@, mask_view(mask)),
{
    let ghost spec_out = composited(frame.pixels@, mask_view(mask));
    let n = frame.pixels.len();
    let mut out: Vec<u8> = Vec::with_capacity(n);
    let mut k: usize = 0;
    while k < n
        invariant
            frame.wf(),
            n == frame.pixels@.len(),
            mask is Some ==> mask->Some_0@.len() == frame.width * frame.height,
            spec_out == composited(frame.pixels@, mask_view(mask)),
            k <= n,
            out@.len() == k,
            forall|j: int| 0 <= j < k ==> #[trigger] out@[j] == spec_out[j],
        decreases n - k,
    {
        let keep = match mask {
            None => true,
            Some(m) => m[k / 3] > MASK_THRESHOLD,
        };
        out.push(if keep { frame.pixels[k] } else { WHITE });
        k = k + 1;
    }
    proof {
        assert(out@ =~= spec_out);
    }
    Raster { width: frame.width, height: frame.height, pixels: out }
}

} // verus!
