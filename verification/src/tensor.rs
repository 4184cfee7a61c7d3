use vstd::prelude::*;
use vstd::arithmetic::div_mod::{
    lemma_fundamental_div_mod, lemma_fundamental_div_mod_converse, lemma_mod_pos_bound,
    lemma_multiply_divide_lt,
};
use crate::raster::{channel_of, lemma_channel_index_in_bounds, Raster};

verus! {

/// Fixed-point scale of normalized tensor elements: a stored element `e`
/// stands for the real value `e / TENSOR_SCALE`, so the full 8-bit range
/// maps onto [0.0, 1.0] exactly.
pub const TENSOR_SCALE: u32 = 65535;

/// One 8-bit channel step on the tensor scale.
pub const TENSOR_UNIT: u32 = TENSOR_SCALE / 255;

/// A multi-dimensional numeric array exchanged with the inference engine:
/// `shape` lists the axis sizes, `data` holds the elements in row-major
/// order over the axes, each in units of 1/TENSOR_SCALE.
pub struct Tensor {
    pub shape: Vec<usize>,
    pub data: Vec<u32>,
}

/// The failures of the enhancement core: an inference tensor of unexpected
/// shape, a model graph that cannot be loaded, and a fault inside the
/// inference runtime. None is retried; the first one halts the pipeline.
#[derive(Clone, Copy, Debug, PartialEq, Eq, Structural)]
pub enum EnhanceError {
    Shape,
    ModelLoad,
    Inference,
}

/// Normalizes an 8-bit channel value onto the tensor scale.
pub open spec fn encode_channel(v: int) -> int {
    v * (TENSOR_UNIT as int)
}

/// Denormalizes a tensor element back to an 8-bit channel: clamp the real
/// value `e / TENSOR_SCALE` into [0, 1], multiply by 255 and truncate.
pub open spec fn decode_channel(e: int) -> int {
    if e <= 0 {
        0
    } else if e >= TENSOR_SCALE {
        255
    } else {
        (e * 255) / (TENSOR_SCALE as int)
    }
}

/// The data buffer `encode` builds from an n×n raster: channel-first
/// layout (the R plane, then G, then B), row-major within each plane,
/// each element the normalized channel value.
pub open spec fn encode_data(pixels: Seq<u8>, n: int) -> Seq<u32> {
    Seq::new((3 * n * n) as nat, |k: int|
        encode_channel(channel_of(
            pixels, n, (k % (n * n)) % n, (k % (n * n)) / n, k / (n * n)) as int) as u32)
}

/// The flat tensor index `decode` reads for the pixel-buffer position `m`
/// of an h×w raster: the channel plane of `m`, at `m`'s row and column.
pub open spec fn decode_source(m: int, h: int, w: int) -> int {
    (((m % (3 * w)) % 3) * h + m / (3 * w)) * w + (m % (3 * w)) / 3
}

/// The pixel buffer `decode` builds from the [1, 3, h, w] tensor data:
/// each channel read from its plane and denormalized.
pub open spec fn decode_pixels(data: Seq<u32>, h: int, w: int) -> Seq<u8> {
    Seq::new((3 * h * w) as nat, |m: int|
        decode_channel(data[decode_source(m, h, w)] as int) as u8)
}

/// The shape `decode` accepts: exactly four axes, a single batch, three
/// channels, positive spatial sizes a raster can carry, and a data buffer
/// of matching length.
pub open spec fn decode_shape_ok(shape: Seq<usize>, data_len: int) -> bool {
    &&& shape.len() == 4
    &&& shape[0] == 1
    &&& shape[1] == 3
    &&& 0 < shape[2] <= u32::MAX
    &&& 0 < shape[3] <= u32::MAX
    &&& data_len == 3 * (shape[2] as int) * (shape[3] as int)
}

/// Shared facts about the size of a three-plane h×w buffer.
proof fn lemma_plane_facts(h: int, w: int)
    by (nonlinear_arith)
    requires
        0 < h,
        0 < w,
    ensures
        3 * h * w == h * (3 * w),
        3 * h * w == (3 * w) * h,
        3 * h * w == 3 * (h * w),
        3 * w <= 3 * h * w,
        3 * h <= 3 * h * w,
        w <= 3 * h * w,
        h <= 3 * h * w,
        3 * h * w == 3 * w * h,
{
}

/// A channel-plane index stays inside a three-plane h×w buffer.
proof fn lemma_plane_index(h: int, w: int, c: int, y: int, x: int)
    by (nonlinear_arith)
    requires
        0 <= c < 3,
        0 <= y < h,
        0 <= x < w,
    ensures
        0 <= c * h + y < 3 * h,
        0 <= (c * h + y) * w + x < 3 * h * w,
{
}

/// Normalizes one channel value.
fn encode_channel_val(v: u8) -> (r: u32)
    ensures
        r as int == encode_channel(v as int),
{
    (v as u32) * TENSOR_UNIT
}

/// Denormalizes one tensor element.
fn decode_channel_val(e: u32) -> (r: u8)
    ensures
        r as int == decode_channel(e as int),
{
    if e >= TENSOR_SCALE {
        255
    } else {
        proof {
            lemma_multiply_divide_lt(e as int * 255, TENSOR_SCALE as int, 255);
            assert((e as int) * 255 < (TENSOR_SCALE as int) * 255) by (nonlinear_arith)
                requires
                    (e as int) < (TENSOR_SCALE as int),
            ;
        }
        ((e * 255) / TENSOR_SCALE) as u8
    }
}

/// Converts an RGB raster that already has the model's square tile size
/// into the normalized channel-first inference input tensor.
pub fn encode(image: &Raster, tile_size: u32) -> (t: Tensor)
    requires
        image.wf(),
        image.width == tile_size,
        image.height == tile_size,
    ensures
        t.shape@ == seq![1usize, 3usize, tile_size as usize, tile_size as usize],
        t.data@ == encode_data(image.pixels@, tile_size as int),
        t.data@.len() == 3 * (tile_size as int) * (tile_size as int),
{
    let ghost ni: int = tile_size as int;
    let total: usize = image.pixels.len();
    proof {
        lemma_plane_facts(ni, ni);
    }
    let n: usize = tile_size as usize;
    let nn: usize = n * n;
    let mut data: Vec<u32> = Vec::new();
    let mut k: usize = 0;
    while k < total
        invariant
            image.wf(),
            image.width == tile_size,
            image.height == tile_size,
            ni == tile_size as int,
            n == tile_size as usize,
            nn == ni * ni,
            total == image.pixels@.len(),
            total == 3 * ni * ni,
            3 * ni * ni == 3 * (ni * ni),
            k <= total,
            data@.len() == k,
            forall|j: int| 0 <= j < k ==>
                data@[j] == encode_data(image.pixels@, ni)[j],
        decreases total - k,
    {
        let c: usize = k / nn;
        let rem: usize = k % nn;
        let y: usize = rem / n;
        let x: usize = rem % n;
        proof {
            lemma_multiply_divide_lt(k as int, nn as int, 3);
            lemma_mod_pos_bound(k as int, nn as int);
            lemma_multiply_divide_lt(rem as int, ni, ni);
            lemma_mod_pos_bound(rem as int, ni);
            lemma_channel_index_in_bounds(ni, ni, x as int, y as int, c as int);
        }
        let idx: usize = 3 * (y * n + x) + c;
        let v: u8 = image.pixels[idx];
        data.push(encode_channel_val(v));
        k = k + 1;
    }
    proof {
        assert(data@ =~= encode_data(image.pixels@, ni));
    }
    Tensor {
        shape: vec![1usize, 3usize, tile_size as usize, tile_size as usize],
        data,
    }
}

/// Converts an inference output tensor back into an RGB raster of its
/// spatial dimensions, denormalizing and clamping every channel. Returns
/// the shape error, and no raster, exactly when the tensor is not a
/// four-axis, single-batch, three-channel stack of positive spatial size
/// whose data length matches its shape.
pub fn decode(t: &Tensor) -> (r: Result<Raster, EnhanceError>)
    ensures
        r is Ok <==> decode_shape_ok(t.shape@, t.data@.len() as int),
        r matches Err(e) ==> e == EnhanceError::Shape,
        r matches Ok(out) ==> {
            &&& out.wf()
            &&& out.width == t.shape@[3] as u32
            &&& out.height == t.shape@[2] as u32
            &&& out.pixels@ == decode_pixels(t.data@, t.shape@[2] as int, t.shape@[3] as int)
        },
{
    if t.shape.len() != 4 {
        return Err(EnhanceError::Shape);
    }
    let b: usize = t.shape[0];
    let ch: usize = t.shape[1];
    let hh: usize = t.shape[2];
    let ww: usize = t.shape[3];
    if b != 1 || ch != 3 || hh == 0 || ww == 0 {
        return Err(EnhanceError::Shape);
    }
    if hh > u32::MAX as usize || ww > u32::MAX as usize {
        return Err(EnhanceError::Shape);
    }
    let ghost hi: int = hh as int;
    let ghost wi: int = ww as int;
    proof {
        assert((3 * hi) * wi < 0x4_0000_0000_0000_0000) by (nonlinear_arith)
            requires 0 <= hi < 0x1_0000_0000, 0 <= wi < 0x1_0000_0000;
        assert(3 * (hi * wi) == (3 * hi) * wi) by (nonlinear_arith);
    }
    let need: u128 = (3u128 * (hh as u128)) * (ww as u128);
    if (t.data.len() as u128) != need {
        return Err(EnhanceError::Shape);
    }
    proof {
        lemma_plane_facts(hi, wi);
    }
    let total: usize = t.data.len();
    let row3: usize = 3 * ww;
    let mut pixels: Vec<u8> = Vec::new();
    let mut m: usize = 0;
    while m < total
        invariant
            hi == hh as int,
            wi == ww as int,
            0 < hh,
            0 < ww,
            row3 == 3 * wi,
            total == t.data@.len(),
            total == 3 * hi * wi,
            3 * hi * wi == hi * (3 * wi),
            m <= total,
            pixels@.len() == m,
            forall|j: int| 0 <= j < m ==>
                pixels@[j] == decode_pixels(t.data@, hi, wi)[j],
        decreases total - m,
    {
        let y: usize = m / row3;
        let rem: usize = m % row3;
        let x: usize = rem / 3;
        let c: usize = rem % 3;
        proof {
            lemma_plane_facts(hi, wi);
            lemma_multiply_divide_lt(m as int, row3 as int, hi);
            lemma_mod_pos_bound(m as int, row3 as int);
            lemma_multiply_divide_lt(rem as int, 3, wi);
            lemma_mod_pos_bound(rem as int, 3);
            lemma_plane_index(hi, wi, c as int, y as int, x as int);
        }
        let src: usize = (c * hh + y) * ww + x;
        pixels.push(decode_channel_val(t.data[src]));
        m = m + 1;
    }
    proof {
        assert(pixels@ =~= decode_pixels(t.data@, hi, wi));
        assert(3 * hi * wi == 3 * wi * hi);
    }
    Ok(Raster { width: ww as u32, height: hh as u32, pixels })
}

/// Denormalizing a normalized channel returns it exactly: the tensor
/// bridge loses nothing on 8-bit data.
pub proof fn lemma_channel_roundtrip(v: u8)
    ensures
        decode_channel(encode_channel(v as int)) == v as int,
{
    let vi = v as int;
    if v == 0 {
    } else if v == 255 {
        assert(encode_channel(vi) == 65535);
    } else {
        assert(vi * 257 < 65535 && 0 < vi * 257) by (nonlinear_arith)
            requires 0 < vi < 255;
        assert((vi * 257) * 255 == vi * 65535) by (nonlinear_arith);
        assert((vi * 65535) / 65535 == vi) by (nonlinear_arith);
    }
}

/// A zero tensor denormalizes to an all-black pixel buffer: every element
/// of the decoded h×w raster is zero when every tensor element is.
pub proof fn lemma_decode_pixels_zero(data: Seq<u32>, h: int, w: int)
    requires
        0 < h,
        0 < w,
        data.len() == 3 * h * w,
        forall|i: int| 0 <= i < data.len() ==> data[i] == 0,
    ensures
        forall|m: int| 0 <= m < 3 * h * w ==> decode_pixels(data, h, w)[m] == 0,
{
    lemma_plane_facts(h, w);
    assert forall|m: int| 0 <= m < 3 * h * w implies decode_pixels(data, h, w)[m] == 0 by {
        let row3: int = 3 * w;
        let y: int = m / row3;
        let rem: int = m % row3;
        let x: int = rem / 3;
        let c: int = rem % 3;
        lemma_multiply_divide_lt(m, row3, h);
        lemma_mod_pos_bound(m, row3);
        lemma_multiply_divide_lt(rem, 3, w);
        lemma_mod_pos_bound(rem, 3);
        lemma_plane_index(h, w, c, y, x);
        assert(decode_source(m, h, w) == (c * h + y) * w + x);
        assert(data[decode_source(m, h, w)] == 0);
    }
}

/// Round trip of the tensor bridge: decoding the tensor encoded from an
/// n×n raster buffer returns exactly the original buffer.
pub proof fn lemma_bridge_roundtrip(pixels: Seq<u8>, n: int)
    requires
        0 < n,
        pixels.len() == 3 * n * n,
    ensures
        decode_pixels(encode_data(pixels, n), n, n) == pixels,
{
    lemma_plane_facts(n, n);
    let data = encode_data(pixels, n);
    assert forall|m: int| 0 <= m < 3 * n * n implies
        decode_pixels(data, n, n)[m] == pixels[m] by {
        let row3: int = 3 * n;
        let y: int = m / row3;
        let rem: int = m % row3;
        let x: int = rem / 3;
        let c: int = rem % 3;
        lemma_multiply_divide_lt(m, row3, n);
        lemma_mod_pos_bound(m, row3);
        lemma_multiply_divide_lt(rem, 3, n);
        lemma_mod_pos_bound(rem, 3);
        let k = decode_source(m, n, n);
        assert(k == (c * n + y) * n + x);
        lemma_channel_index_in_bounds(n, n, x, y, c);
        lemma_plane_index(n, n, c, y, x);
        assert((c * n + y) * n + x == c * (n * n) + (y * n + x)) by (nonlinear_arith);
        lemma_fundamental_div_mod_converse(k, n * n, c, y * n + x);
        lemma_fundamental_div_mod_converse(y * n + x, n, y, x);
        assert(data[k] == encode_channel(channel_of(pixels, n, x, y, c) as int) as u32);
        let v = channel_of(pixels, n, x, y, c);
        assert(0 <= encode_channel(v as int) <= 65535) by (nonlinear_arith)
            requires 0 <= v as int <= 255;
        lemma_channel_roundtrip(v);
        assert(decode_pixels(data, n, n)[m] == decode_channel(data[k] as int) as u8);
        lemma_fundamental_div_mod(m, row3);
        lemma_fundamental_div_mod(rem, 3);
        assert(m == y * (3 * n) + (3 * x + c));
        assert(y * (3 * n) + 3 * x == 3 * (y * n + x)) by (nonlinear_arith);
        assert(m == 3 * (y * n + x) + c);
        assert(pixels[m] == channel_of(pixels, n, x, y, c));
    }
    assert(decode_pixels(data, n, n) =~= pixels);
}

} // verus!
