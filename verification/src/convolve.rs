use vstd::prelude::*;
use crate::raster::{Raster, channel_of, lemma_channel_index_in_bounds};
use crate::kernel::{Kernel, KERNEL_SCALE, WEIGHT_LIMIT, identity_kernel, sum9};

verus! {

/// The weighted sum a 3x3 convolution accumulates for one channel of an
/// interior pixel: each of the nine neighborhood channel values times the
/// row-major kernel weight aligned to its offset, in units of
/// 1/KERNEL_SCALE.
pub open spec fn conv_sum(pixels: Seq<u8>, w: int, k: Seq<i64>, x: int, y: int, c: int) -> int {
    (k[0] as int) * (channel_of(pixels, w, x - 1, y - 1, c) as int)
        + (k[1] as int) * (channel_of(pixels, w, x, y - 1, c) as int)
        + (k[2] as int) * (channel_of(pixels, w, x + 1, y - 1, c) as int)
        + (k[3] as int) * (channel_of(pixels, w, x - 1, y, c) as int)
        + (k[4] as int) * (channel_of(pixels, w, x, y, c) as int)
        + (k[5] as int) * (channel_of(pixels, w, x + 1, y, c) as int)
        + (k[6] as int) * (channel_of(pixels, w, x - 1, y + 1, c) as int)
        + (k[7] as int) * (channel_of(pixels, w, x, y + 1, c) as int)
        + (k[8] as int) * (channel_of(pixels, w, x + 1, y + 1, c) as int)
}

/// Denormalizes an accumulated sum back to an 8-bit channel: clamp the
/// real value `s / KERNEL_SCALE` into [0, 255], truncating fractions.
pub open spec fn clamp_channel(s: int) -> int {
    if s < 0 {
        0
    } else if s >= 255 * (KERNEL_SCALE as int) {
        255
    } else {
        s / (KERNEL_SCALE as int)
    }
}

/// What one output channel of `convolve` holds: border pixels are copied
/// unchanged, interior pixels get the clamped weighted neighborhood sum.
pub open spec fn conv_result_channel(
    pixels: Seq<u8>, w: int, h: int, k: Seq<i64>, x: int, y: int, c: int,
) -> u8 {
    if x == 0 || x == w - 1 || y == 0 || y == h - 1 {
        channel_of(pixels, w, x, y, c)
    } else {
        clamp_channel(conv_sum(pixels, w, k, x, y, c)) as u8
    }
}

/// Clamping property: whatever sum the convolution accumulated, the
/// denormalized channel value lies in [0, 255].
pub proof fn lemma_clamp_channel_range(s: int)
    ensures
        0 <= clamp_channel(s) <= 255,
{
}

/// A bounded weight times an 8-bit channel value stays well inside i64.
proof fn lemma_weight_times_channel(k: int, v: int)
    by (nonlinear_arith)
    requires
        -WEIGHT_LIMIT <= k <= WEIGHT_LIMIT,
        0 <= v < 256,
    ensures
        -256 * WEIGHT_LIMIT <= k * v <= 256 * WEIGHT_LIMIT,
{
}

/// Flat channel indices respect the row-major pixel order: a pixel that
/// comes earlier (lower row, or same row and lower column) has a strictly
/// smaller base index.
proof fn lemma_flat_lex(w: int, x1: int, y1: int, x2: int, y2: int)
    by (nonlinear_arith)
    requires
        0 <= x1 < w,
        0 <= x2 < w,
        0 <= y1,
        0 <= y2,
        y1 < y2 || (y1 == y2 && x1 < x2),
    ensures
        y1 * w + x1 < y2 * w + x2,
{
}

/// Multiplication distributes over the nine-term neighborhood sum.
proof fn lemma_distribute9(
    a0: int, a1: int, a2: int, a3: int, a4: int, a5: int, a6: int, a7: int, a8: int, v: int,
)
    by (nonlinear_arith)
    ensures
        a0 * v + a1 * v + a2 * v + a3 * v + a4 * v + a5 * v + a6 * v + a7 * v + a8 * v
            == (a0 + a1 + a2 + a3 + a4 + a5 + a6 + a7 + a8) * v,
{
}

/// One weighted term of the convolution sum.
fn weighted(k: i64, v: u8) -> (r: i64)
    requires
        -WEIGHT_LIMIT <= k <= WEIGHT_LIMIT,
    ensures
        r == (k as int) * (v as int),
        -256 * WEIGHT_LIMIT <= r <= 256 * WEIGHT_LIMIT,
{
    proof {
        lemma_weight_times_channel(k as int, v as int);
    }
    k * (v as i64)
}

/// Clamps an accumulated sum to an 8-bit channel value.
fn clamp_to_channel(s: i64) -> (r: u8)
    ensures
        r as int == clamp_channel(s as int),
{
    if s < 0 {
        0
    } else if s >= 255 * KERNEL_SCALE {
        255
    } else {
        ((s as u64) / (KERNEL_SCALE as u64)) as u8
    }
}

/// The convolved value of one channel of one interior pixel.
fn conv_channel(img: &Raster, k: &Kernel, x: u32, y: u32, c: u32) -> (r: u8)
    requires
        img.wf(),
        k.wf(),
        1 <= x && x + 1 < img.width,
        1 <= y && y + 1 < img.height,
        c < 3,
    ensures
        r as int == clamp_channel(
            conv_sum(img.pixels@, img.width as int, k.weights@, x as int, y as int, c as int)),
{
    let t0 = weighted(k.weight(0), img.channel_at(x - 1, y - 1, c));
    let t1 = weighted(k.weight(1), img.channel_at(x, y - 1, c));
    let t2 = weighted(k.weight(2), img.channel_at(x + 1, y - 1, c));
    let t3 = weighted(k.weight(3), img.channel_at(x - 1, y, c));
    let t4 = weighted(k.weight(4), img.channel_at(x, y, c));
    let t5 = weighted(k.weight(5), img.channel_at(x + 1, y, c));
    let t6 = weighted(k.weight(6), img.channel_at(x - 1, y + 1, c));
    let t7 = weighted(k.weight(7), img.channel_at(x, y + 1, c));
    let t8 = weighted(k.weight(8), img.channel_at(x + 1, y + 1, c));
    let s: i64 = t0 + t1 + t2 + t3 + t4 + t5 + t6 + t7 + t8;
    clamp_to_channel(s)
}

/// Applies a 3x3 kernel to a raster: the output has the same dimensions,
/// border pixels are copied unchanged, and each interior channel is the
/// clamped weighted sum of its 3x3 neighborhood.
pub fn convolve(image: &Raster, kernel: &Kernel) -> (r: Raster)
    requires
        image.wf(),
        kernel.wf(),
    ensures
        r.wf(),
        r.width == image.width,
        r.height == image.height,
        forall|x: int, y: int, c: int|
            0 <= x < image.width && 0 <= y < image.height && 0 <= c < 3 ==>
                r.channel(x, y, c) == conv_result_channel(
                    image.pixels@, image.width as int, image.height as int,
                    kernel.weights@, x, y, c),
        forall|x: int, y: int, c: int|
            (0 <= x < image.width && 0 <= y < image.height && 0 <= c < 3
                && (x == 0 || x == image.width - 1 || y == 0 || y == image.height - 1)) ==>
                r.channel(x, y, c) == image.channel(x, y, c),
{
    let w: u32 = image.width;
    let h: u32 = image.height;
    let ghost wi: int = w as int;
    let ghost hi: int = h as int;
    let mut out: Vec<u8> = Vec::new();
    let mut y: u32 = 0;
    while y < h
        invariant
            image.wf(),
            kernel.wf(),
            w == image.width,
            h == image.height,
            wi == w as int,
            hi == h as int,
            y <= h,
            out@.len() == 3 * ((y as int) * wi),
            forall|xx: int, yy: int, cc: int|
                0 <= xx < wi && 0 <= yy < y && 0 <= cc < 3 ==>
                    out@[3 * (yy * wi + xx) + cc] == conv_result_channel(
                        image.pixels@, wi, hi, kernel.weights@, xx, yy, cc),
        decreases h - y,
    {
        let mut x: u32 = 0;
        while x < w
            invariant
                image.wf(),
                kernel.wf(),
                w == image.width,
                h == image.height,
                wi == w as int,
                hi == h as int,
                y < h,
                x <= w,
                out@.len() == 3 * ((y as int) * wi + x as int),
                forall|xx: int, yy: int, cc: int|
                    0 <= xx < wi && 0 <= cc < 3
                        && (0 <= yy < y || (yy == y as int && 0 <= xx < x)) ==>
                        out@[3 * (yy * wi + xx) + cc] == conv_result_channel(
                            image.pixels@, wi, hi, kernel.weights@, xx, yy, cc),
            decreases w - x,
        {
            let ghost old_out = out@;
            let v0: u8;
            let v1: u8;
            let v2: u8;
            if x == 0 || x == w - 1 || y == 0 || y == h - 1 {
                v0 = image.channel_at(x, y, 0);
                v1 = image.channel_at(x, y, 1);
                v2 = image.channel_at(x, y, 2);
            } else {
                v0 = conv_channel(image, kernel, x, y, 0);
                v1 = conv_channel(image, kernel, x, y, 1);
                v2 = conv_channel(image, kernel, x, y, 2);
                proof {
                    lemma_clamp_channel_range(
                        conv_sum(image.pixels@, wi, kernel.weights@, x as int, y as int, 0));
                    lemma_clamp_channel_range(
                        conv_sum(image.pixels@, wi, kernel.weights@, x as int, y as int, 1));
                    lemma_clamp_channel_range(
                        conv_sum(image.pixels@, wi, kernel.weights@, x as int, y as int, 2));
                }
            }
            out.push(v0);
            out.push(v1);
            out.push(v2);
            proof {
                assert forall|xx: int, yy: int, cc: int|
                    0 <= xx < wi && 0 <= cc < 3
                        && (0 <= yy < y || (yy == y as int && 0 <= xx < x + 1)) implies
                    out@[3 * (yy * wi + xx) + cc] == conv_result_channel(
                        image.pixels@, wi, hi, kernel.weights@, xx, yy, cc) by {
                    if yy < y || xx < x {
                        lemma_flat_lex(wi, xx, yy, x as int, y as int);
                        assert(3 * (yy * wi + xx) + cc < old_out.len());
                        assert(out@[3 * (yy * wi + xx) + cc]
                            == old_out[3 * (yy * wi + xx) + cc]);
                    } else {
                        assert(yy == y as int && xx == x as int);
                        assert(3 * (yy * wi + xx) + cc == old_out.len() + cc);
                    }
                }
            }
            x = x + 1;
        }
        proof {
            assert((y as int + 1) * wi == (y as int) * wi + wi) by (nonlinear_arith);
        }
        y = y + 1;
    }
    proof {
        assert(3 * ((h as int) * wi) == 3 * wi * (h as int)) by (nonlinear_arith);
    }
    let r = Raster { width: w, height: h, pixels: out };
    proof {
        assert forall|x: int, y: int, c: int|
            0 <= x < image.width && 0 <= y < image.height && 0 <= c < 3 implies
            r.channel(x, y, c) == conv_result_channel(
                image.pixels@, wi, hi, kernel.weights@, x, y, c) by {
        }
    }
    r
}

/// Convolving with the identity kernel returns every channel unchanged:
/// together with the border policy, the no-op sharpen is an identity on
/// the whole raster.
pub proof fn lemma_identity_convolution(pixels: Seq<u8>, w: int, x: int, y: int, c: int)
    ensures
        clamp_channel(conv_sum(pixels, w, identity_kernel(), x, y, c))
            == channel_of(pixels, w, x, y, c),
{
    let v = channel_of(pixels, w, x, y, c) as int;
    assert(identity_kernel()[0] == 0 && identity_kernel()[1] == 0
        && identity_kernel()[2] == 0 && identity_kernel()[3] == 0
        && identity_kernel()[4] == KERNEL_SCALE && identity_kernel()[5] == 0
        && identity_kernel()[6] == 0 && identity_kernel()[7] == 0
        && identity_kernel()[8] == 0);
    assert(conv_sum(pixels, w, identity_kernel(), x, y, c) == 1000 * v);
    if v == 255 {
        assert(clamp_channel(1000 * v) == 255);
    } else {
        assert((1000 * v) / 1000 == v) by (nonlinear_arith);
    }
}

/// Raster form of the identity law: a raster whose channels satisfy the
/// contract of `convolve` with the identity kernel equals its input
/// pixel for pixel.
pub proof fn lemma_identity_convolve_raster(img: Raster, out: Raster)
    requires
        img.wf(),
        out.width == img.width,
        out.height == img.height,
        forall|x: int, y: int, c: int|
            0 <= x < img.width && 0 <= y < img.height && 0 <= c < 3 ==>
                out.channel(x, y, c) == conv_result_channel(
                    img.pixels@, img.width as int, img.height as int, identity_kernel(), x, y, c),
    ensures
        forall|x: int, y: int, c: int|
            0 <= x < img.width && 0 <= y < img.height && 0 <= c < 3 ==>
                out.channel(x, y, c) == img.channel(x, y, c),
{
    assert forall|x: int, y: int, c: int|
        0 <= x < img.width && 0 <= y < img.height && 0 <= c < 3 implies
        out.channel(x, y, c) == img.channel(x, y, c) by {
        lemma_identity_convolution(img.pixels@, img.width as int, x, y, c);
    }
}

/// Sharpening a locally flat region is a no-op: when the nine neighborhood
/// channel values all equal `v` and the kernel weights sum to the full
/// scale, the convolved channel equals `v`, whatever the kernel is.
pub proof fn lemma_uniform_convolution(
    pixels: Seq<u8>, w: int, k: Seq<i64>, x: int, y: int, c: int, v: u8,
)
    requires
        k.len() == 9,
        sum9(k) == KERNEL_SCALE,
        channel_of(pixels, w, x - 1, y - 1, c) == v,
        channel_of(pixels, w, x, y - 1, c) == v,
        channel_of(pixels, w, x + 1, y - 1, c) == v,
        channel_of(pixels, w, x - 1, y, c) == v,
        channel_of(pixels, w, x, y, c) == v,
        channel_of(pixels, w, x + 1, y, c) == v,
        channel_of(pixels, w, x - 1, y + 1, c) == v,
        channel_of(pixels, w, x, y + 1, c) == v,
        channel_of(pixels, w, x + 1, y + 1, c) == v,
    ensures
        clamp_channel(conv_sum(pixels, w, k, x, y, c)) == v,
{
    let vi = v as int;
    lemma_distribute9(
        k[0] as int, k[1] as int, k[2] as int, k[3] as int, k[4] as int,
        k[5] as int, k[6] as int, k[7] as int, k[8] as int, vi);
    assert(conv_sum(pixels, w, k, x, y, c) == 1000 * vi);
    if v == 255 {
        assert(clamp_channel(1000 * vi) == 255);
    } else {
        assert((1000 * vi) / 1000 == vi) by (nonlinear_arith);
    }
}

} // verus!
