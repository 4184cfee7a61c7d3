use enhancer::{
    enhance_ai_finish, enhance_ai_prepare, enhance_classical, resize, EnhanceError, Raster,
    Tensor,
};

fn raster(width: u32, height: u32, pixels: Vec<u8>) -> Raster {
    Raster::new(width, height, pixels).expect("valid raster")
}

fn solid(width: u32, height: u32, rgb: [u8; 3]) -> Raster {
    let mut pixels = Vec::new();
    for _ in 0..(width * height) {
        pixels.extend_from_slice(&rgb);
    }
    raster(width, height, pixels)
}

#[test]
fn resize_hits_exact_dimensions() {
    let mut pixels = Vec::new();
    for i in 0..(3u32 * 5 * 3) {
        pixels.push((i * 53 % 256) as u8);
    }
    let img = raster(5, 3, pixels);
    // A non-proportional target: the resampler must skew, not preserve aspect.
    let out = resize(&img, 7, 2);
    assert_eq!(out.width, 7);
    assert_eq!(out.height, 2);
    assert_eq!(out.pixels.len(), 3 * 7 * 2);
}

#[test]
fn resize_upscale_dimensions() {
    let img = solid(4, 4, [9, 9, 9]);
    let out = resize(&img, 8, 8);
    assert_eq!(out.width, 8);
    assert_eq!(out.height, 8);
    assert_eq!(out.pixels.len(), 3 * 8 * 8);
}

#[test]
fn classical_flat_gray_stays_flat() {
    // A solid 4x4 gray field, doubled and sharpened at intensity 1.5:
    // every neighbor equals its center, so sharpening changes nothing.
    let img = solid(4, 4, [128, 128, 128]);
    let out = enhance_classical(&img, 2, 1500);
    assert_eq!(out.width, 8);
    assert_eq!(out.height, 8);
    for b in &out.pixels {
        assert_eq!(*b, 128);
    }
}

#[test]
fn classical_zero_intensity_equals_plain_resize() {
    let mut pixels = Vec::new();
    for i in 0..(3u32 * 3 * 2) {
        pixels.push((i * 41 % 256) as u8);
    }
    let img = raster(3, 2, pixels);
    let enhanced = enhance_classical(&img, 2, 0);
    let resized = resize(&img, 6, 4);
    assert_eq!(enhanced.width, 6);
    assert_eq!(enhanced.height, 4);
    assert_eq!(enhanced.pixels, resized.pixels);
}

#[test]
fn ai_prepare_builds_model_tile() {
    let img = solid(50, 30, [200, 100, 50]);
    let t = enhance_ai_prepare(&img, 128);
    assert_eq!(t.shape, vec![1, 3, 128, 128]);
    assert_eq!(t.data.len(), 3 * 128 * 128);
    for e in &t.data {
        assert!(*e <= 65535);
    }
}

#[test]
fn ai_mock_inference_gives_black_double_size() {
    // A 50x30 input, a model tile of 128, and a mock inference adapter that
    // ignores its input and returns an all-zero (1,3,64,64) tensor: the
    // final raster must be exactly 100x60 (twice the original) and black.
    let img = solid(50, 30, [200, 100, 50]);
    let input = enhance_ai_prepare(&img, 128);
    assert_eq!(input.shape, vec![1, 3, 128, 128]);
    let mock = Tensor {
        shape: vec![1, 3, 64, 64],
        data: vec![0; 3 * 64 * 64],
    };
    let out = enhance_ai_finish(&mock, 100, 60).expect("well-shaped tensor");
    assert_eq!(out.width, 100);
    assert_eq!(out.height, 60);
    for b in &out.pixels {
        assert_eq!(*b, 0);
    }
}

#[test]
fn ai_rank_three_output_fails_with_shape_error() {
    let mock = Tensor {
        shape: vec![3, 64, 64],
        data: vec![0; 3 * 64 * 64],
    };
    assert!(matches!(
        enhance_ai_finish(&mock, 100, 60),
        Err(EnhanceError::Shape)
    ));
}
