use vstd::prelude::*;
use crate::raster::Raster;

verus! {

/// The channel buffer the fixed windowed-sinc resampler (Lanczos with
/// three lobes) produces for the given source buffer, source dimensions
/// and target dimensions. The result is a pure function of these
/// arguments; its exact values are the resampling filter's business.
pub uninterp spec fn resampled(pixels: Seq<u8>, sw: int, sh: int, tw: int, th: int) -> Seq<u8>;

/// Relies on image::imageops::resize with FilterType::Lanczos3: it returns
/// an image of exactly the requested dimensions (three bytes per pixel),
/// computed from the source pixels and the dimensions alone, and it maps
/// an all-zero source to an all-zero result (every weighted sum it takes
/// is then a sum of zeros). The resampler builds four-channel
/// single-precision intermediates of sw×th and then tw×th pixels, and its
/// buffer allocations panic when an element count overflows usize, so all
/// three buffer sizes must fit.
#[verifier::external_body]
fn resample_raw(pixels: &Vec<u8>, sw: u32, sh: u32, tw: u32, th: u32) -> (r: Vec<u8>)
    requires
        0 < sw,
        0 < sh,
        0 < tw,
        0 < th,
        pixels@.len() == 3 * (sw as int) * (sh as int),
        3 * (tw as int) * (th as int) <= usize::MAX,
        4 * (sw as int) * (th as int) <= usize::MAX,
        4 * (tw as int) * (th as int) <= usize::MAX,
    ensures
        r@.len() == 3 * (tw as int) * (th as int),
        r@ == resampled(pixels@, sw as int, sh as int, tw as int, th as int),
        (forall|i: int| 0 <= i < pixels@.len() ==> pixels@[i] == 0) ==>
            (forall|i: int| 0 <= i < r@.len() ==> r@[i] == 0),
{
    let buf: image::RgbImage = image::RgbImage::from_raw(sw, sh, pixels.clone()).unwrap();
    let resized = image::imageops::resize(&buf, tw, th, image::imageops::FilterType::Lanczos3);
    resized.into_raw()
}

/// Resizes a raster to exactly the requested dimensions with the fixed
/// high-quality resampling filter; the target need not preserve the
/// aspect ratio. An all-black raster resizes to an all-black raster.
pub fn resize(image: &Raster, target_width: u32, target_height: u32) -> (r: Raster)
    requires
        image.wf(),
        0 < target_width,
        0 < target_height,
        3 * (target_width as int) * (target_height as int) <= usize::MAX,
        4 * (image.width as int) * (target_height as int) <= usize::MAX,
        4 * (target_width as int) * (target_height as int) <= usize::MAX,
    ensures
        r.wf(),
        r.width == target_width,
        r.height == target_height,
        r.pixels@ == resampled(image.pixels@, image.width as int, image.height as int,
            target_width as int, target_height as int),
        (forall|i: int| 0 <= i < image.pixels@.len() ==> image.pixels@[i] == 0) ==>
            (forall|i: int| 0 <= i < r.pixels@.len() ==> r.pixels@[i] == 0),
{
    let pixels = resample_raw(&image.pixels, image.width, image.height,
        target_width, target_height);
    Raster { width: target_width, height: target_height, pixels }
}

} // verus!
