mod convolve;
mod kernel;
mod pipeline;
mod raster;
mod resample;
mod tensor;

pub use convolve::{clamp_channel, conv_result_channel, conv_sum, convolve};
pub use convolve::{
    lemma_clamp_channel_range, lemma_identity_convolution, lemma_identity_convolve_raster,
    lemma_uniform_convolution,
};
pub use kernel::{
    identity_kernel, lemma_kernel_energy, sum9, synth_kernel, synthesize, Kernel, KERNEL_SCALE,
    WEIGHT_LIMIT,
};
pub use pipeline::{enhance_ai_finish, enhance_ai_prepare, enhance_classical};
pub use raster::{channel_of, lemma_channel_index_in_bounds, Raster};
pub use resample::{resampled, resize};
pub use tensor::{
    decode, decode_channel, decode_pixels, decode_shape_ok, decode_source, encode,
    encode_channel, encode_data, lemma_bridge_roundtrip, lemma_channel_roundtrip,
    lemma_decode_pixels_zero, EnhanceError, Tensor, TENSOR_SCALE, TENSOR_UNIT,
};
