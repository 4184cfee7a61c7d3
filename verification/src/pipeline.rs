use vstd::prelude::*;
use crate::convolve::{conv_result_channel, convolve};
use crate::kernel::{synth_kernel, synthesize};
use crate::raster::Raster;
use crate::resample::{resampled, resize};
use crate::tensor::{decode, decode_pixels, decode_shape_ok, encode, encode_data,
    lemma_decode_pixels_zero, EnhanceError, Tensor};

verus! {

/// The classical enhancement strategy: resize by the integer scale factor
/// with the fixed resampling filter, then sharpen with the kernel
/// synthesized from the intensity (in units of 1/KERNEL_SCALE). Border
/// pixels of the resized image pass through the sharpen unchanged.
pub fn enhance_classical(image: &Raster, scale_factor: u32, intensity: i32) -> (r: Raster)
    requires
        image.wf(),
        1 <= scale_factor,
        image.width * scale_factor <= u32::MAX,
        image.height * scale_factor <= u32::MAX,
        4 * (image.width * scale_factor) * (image.height * scale_factor) <= usize::MAX,
    ensures
        r.wf(),
        r.width == image.width * scale_factor,
        r.height == image.height * scale_factor,
        forall|x: int, y: int, c: int|
            0 <= x < r.width && 0 <= y < r.height && 0 <= c < 3 ==>
                r.channel(x, y, c) == conv_result_channel(
                    resampled(image.pixels@, image.width as int, image.height as int,
                        r.width as int, r.height as int),
                    r.width as int, r.height as int, synth_kernel(intensity), x, y, c),
{
    proof {
        let wi = image.width as int;
        let hi = image.height as int;
        let sf = scale_factor as int;
        assert(1 <= wi * sf && 1 <= hi * sf
            && 3 * (wi * sf) * (hi * sf) <= 4 * (wi * sf) * (hi * sf)
            && 4 * wi * (hi * sf) <= 4 * (wi * sf) * (hi * sf)) by (nonlinear_arith)
            requires
                1 <= wi,
                1 <= hi,
                1 <= sf;
    }
    let new_width: u32 = image.width * scale_factor;
    let new_height: u32 = image.height * scale_factor;
    let resized = resize(image, new_width, new_height);
    let kernel = synthesize(intensity);
    convolve(&resized, &kernel)
}

/// The first half of the AI enhancement strategy: squeeze the image onto
/// the model's square tile with the fixed resampler, then encode the tile
/// as the normalized channel-first inference input. The inference runtime
/// runs between this and `enhance_ai_finish`.
pub fn enhance_ai_prepare(image: &Raster, tile_size: u32) -> (t: Tensor)
    requires
        image.wf(),
        0 < tile_size,
        4 * (tile_size as int) * (tile_size as int) <= usize::MAX,
        4 * (image.width as int) * (tile_size as int) <= usize::MAX,
    ensures
        t.shape@ == seq![1usize, 3usize, tile_size as usize, tile_size as usize],
        t.data@ == encode_data(
            resampled(image.pixels@, image.width as int, image.height as int,
                tile_size as int, tile_size as int),
            tile_size as int),
{
    proof {
        let ti = tile_size as int;
        assert(3 * ti * ti <= 4 * ti * ti) by (nonlinear_arith)
            requires
                0 <= ti;
    }
    let tile = resize(image, tile_size, tile_size);
    encode(&tile, tile_size)
}

/// The second half of the AI enhancement strategy: validate the inference
/// output tensor's shape, denormalize it to a raster of the spatial
/// dimensions the tensor itself declares, and resize that to the final
/// target (twice the original image). Fails with the shape error, and
/// yields no raster, exactly when the tensor is not a four-axis,
/// single-batch, three-channel stack whose data matches its shape.
/// A zero tensor yields an all-black raster.
pub fn enhance_ai_finish(t: &Tensor, final_width: u32, final_height: u32)
    -> (r: Result<Raster, EnhanceError>)
    requires
        0 < final_width,
        0 < final_height,
        4 * (final_width as int) * (final_height as int) <= usize::MAX,
        decode_shape_ok(t.shape@, t.data@.len() as int) ==>
            4 * (t.shape@[3] as int) * (final_height as int) <= usize::MAX,
    ensures
        r is Ok <==> decode_shape_ok(t.shape@, t.data@.len() as int),
        r matches Err(e) ==> e == EnhanceError::Shape,
        r matches Ok(out) ==> {
            &&& out.wf()
            &&& out.width == final_width
            &&& out.height == final_height
            &&& out.pixels@ == resampled(
                decode_pixels(t.data@, t.shape@[2] as int, t.shape@[3] as int),
                t.shape@[3] as int, t.shape@[2] as int,
                final_width as int, final_height as int)
        },
        r matches Ok(out) ==> (
            (forall|i: int| 0 <= i < t.data@.len() ==> t.data@[i] == 0) ==>
                (forall|i: int| 0 <= i < out.pixels@.len() ==> out.pixels@[i] == 0)),
{
    proof {
        let fwi = final_width as int;
        let fhi = final_height as int;
        assert(3 * fwi * fhi <= 4 * fwi * fhi) by (nonlinear_arith)
            requires
                0 <= fwi,
                0 <= fhi;
    }
    let ai = match decode(t) {
        Ok(a) => a,
        Err(e) => {
            return Err(e);
        },
    };
    proof {
        if forall|i: int| 0 <= i < t.data@.len() ==> t.data@[i] == 0 {
            lemma_decode_pixels_zero(t.data@, t.shape@[2] as int, t.shape@[3] as int);
        }
    }
    Ok(resize(&ai, final_width, final_height))
}

} // verus!
