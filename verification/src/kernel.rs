use vstd::prelude::*;

verus! {

/// Fixed-point scale shared by kernel weights and the sharpen intensity:
/// a stored value `w` stands for the real weight `w / KERNEL_SCALE`, so an
/// intensity of one and a half is passed as `1500`.
pub const KERNEL_SCALE: i64 = 1000;

/// Largest magnitude a well-formed kernel weight may have; it keeps the
/// convolution accumulator (nine weighted 8-bit channels) inside i64 range.
pub const WEIGHT_LIMIT: i64 = 1_000_000_000_000;

/// A 3x3 convolution kernel, row-major, weights in units of 1/KERNEL_SCALE.
pub struct Kernel {
    pub weights: Vec<i64>,
}

/// The identity kernel: the full scale at the center, zero elsewhere.
pub open spec fn identity_kernel() -> Seq<i64> {
    seq![0i64, 0i64, 0i64, 0i64, KERNEL_SCALE, 0i64, 0i64, 0i64, 0i64]
}

/// The unsharp-mask kernel for a given intensity (in units of
/// 1/KERNEL_SCALE): identity for intensities at or below zero, otherwise
/// eight neighbor weights of `-intensity` around a center weight of
/// `KERNEL_SCALE + 8 * intensity`.
pub open spec fn synth_kernel(intensity: i32) -> Seq<i64> {
    if intensity <= 0 {
        identity_kernel()
    } else {
        let n = (-(intensity as int)) as i64;
        let cw = (KERNEL_SCALE + 8 * (intensity as int)) as i64;
        seq![n, n, n, n, cw, n, n, n, n]
    }
}

/// The sum of the nine weights of a 3x3 kernel.
pub open spec fn sum9(k: Seq<i64>) -> int {
    k[0] + k[1] + k[2] + k[3] + k[4] + k[5] + k[6] + k[7] + k[8]
}

impl Kernel {
    /// A kernel is well formed when it holds exactly nine weights, each of
    /// bounded magnitude.
    pub open spec fn wf(self) -> bool {
        self.weights@.len() == 9
            && forall|i: int| 0 <= i < 9 ==>
                -WEIGHT_LIMIT <= #[trigger] self.weights@[i] <= WEIGHT_LIMIT
    }

    /// Reads one weight, row-major.
    pub fn weight(&self, i: usize) -> (r: i64)
        requires
            self.wf(),
            i < 9,
        ensures
            r == self.weights@[i as int],
    {
        self.weights[i]
    }
}

/// Builds the sharpen kernel for the given intensity, in units of
/// 1/KERNEL_SCALE. Intensities at or below zero give the identity kernel;
/// positive ones give the unsharp-mask kernel, whose weights sum to the
/// full scale by construction.
pub fn synthesize(intensity: i32) -> (k: Kernel)
    ensures
        k.wf(),
        k.weights@ == synth_kernel(intensity),
        sum9(k.weights@) == KERNEL_SCALE,
        intensity <= 0 ==> k.weights@ == identity_kernel(),
{
    let mut w: Vec<i64> = Vec::new();
    if intensity <= 0 {
        w.push(0); w.push(0); w.push(0);
        w.push(0); w.push(KERNEL_SCALE); w.push(0);
        w.push(0); w.push(0); w.push(0);
    } else {
        let n: i64 = -(intensity as i64);
        let cw: i64 = KERNEL_SCALE + 8 * (intensity as i64);
        w.push(n); w.push(n); w.push(n);
        w.push(n); w.push(cw); w.push(n);
        w.push(n); w.push(n); w.push(n);
    }
    proof {
        assert(w@ =~= synth_kernel(intensity));
    }
    Kernel { weights: w }
}

/// Energy preservation: for every intensity the nine synthesized weights
/// sum exactly to the full fixed-point scale, so convolution keeps the
/// average brightness of a flat region.
pub proof fn lemma_kernel_energy(intensity: i32)
    ensures
        sum9(synth_kernel(intensity)) == KERNEL_SCALE,
{
}

} // verus!
