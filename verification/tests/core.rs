use enhancer::{convolve, synthesize, Raster, KERNEL_SCALE};

fn raster(width: u32, height: u32, pixels: Vec<u8>) -> Raster {
    Raster::new(width, height, pixels).expect("valid raster")
}

fn varied(width: u32, height: u32) -> Raster {
    let mut pixels = Vec::new();
    for i in 0..(3u32 * width * height) {
        pixels.push(((i * 37 + 11) % 256) as u8);
    }
    raster(width, height, pixels)
}

#[test]
fn synthesize_negative_gives_identity() {
    for intensity in [-2_000_000i32, -1000, -1, 0] {
        let k = synthesize(intensity);
        for i in 0..9usize {
            let expected: i64 = if i == 4 { KERNEL_SCALE } else { 0 };
            assert_eq!(k.weight(i), expected);
        }
    }
}

#[test]
fn synthesize_positive_weights() {
    let k = synthesize(1500);
    for i in 0..9usize {
        let expected: i64 = if i == 4 { 13000 } else { -1500 };
        assert_eq!(k.weight(i), expected);
    }
}

#[test]
fn kernel_weights_sum_to_scale() {
    for intensity in [-5000i32, 0, 1, 100, 1500, 2_000_000, i32::MAX] {
        let k = synthesize(intensity);
        let mut sum: i64 = 0;
        for i in 0..9usize {
            sum += k.weight(i);
        }
        assert_eq!(sum, KERNEL_SCALE);
    }
}

#[test]
fn convolve_identity_returns_input() {
    let img = varied(5, 4);
    let k = synthesize(0);
    let out = convolve(&img, &k);
    assert_eq!(out.width, 5);
    assert_eq!(out.height, 4);
    assert_eq!(out.pixels, img.pixels);
}

#[test]
fn convolve_preserves_dims_and_border() {
    let img = varied(6, 5);
    let k = synthesize(2000);
    let out = convolve(&img, &k);
    assert_eq!(out.width, img.width);
    assert_eq!(out.height, img.height);
    for y in 0..5u32 {
        for x in 0..6u32 {
            if x == 0 || x == 5 || y == 0 || y == 4 {
                for c in 0..3u32 {
                    assert_eq!(out.channel_at(x, y, c), img.channel_at(x, y, c));
                }
            }
        }
    }
}

#[test]
fn convolve_clamps_high() {
    // Bright center on a black field: the unclamped sum is far above 255.
    let mut pixels = vec![0u8; 27];
    pixels[3 * (1 * 3 + 1)] = 255;
    pixels[3 * (1 * 3 + 1) + 1] = 255;
    pixels[3 * (1 * 3 + 1) + 2] = 255;
    let img = raster(3, 3, pixels);
    let k = synthesize(1000);
    let out = convolve(&img, &k);
    for c in 0..3u32 {
        assert_eq!(out.channel_at(1, 1, c), 255);
    }
}

#[test]
fn convolve_clamps_low() {
    // Dark center on a bright field: the unclamped sum is far below zero.
    let mut pixels = vec![255u8; 27];
    pixels[3 * (1 * 3 + 1)] = 0;
    pixels[3 * (1 * 3 + 1) + 1] = 0;
    pixels[3 * (1 * 3 + 1) + 2] = 0;
    let img = raster(3, 3, pixels);
    let k = synthesize(1000);
    let out = convolve(&img, &k);
    for c in 0..3u32 {
        assert_eq!(out.channel_at(1, 1, c), 0);
    }
}

#[test]
fn convolve_exact_interior_value() {
    // Center 150 among neighbors 100 with intensity 0.1:
    // 150 * 1800 - 8 * 100 * 100 = 190000, so the channel becomes 190.
    let mut pixels = vec![100u8; 27];
    pixels[3 * (1 * 3 + 1)] = 150;
    pixels[3 * (1 * 3 + 1) + 1] = 150;
    pixels[3 * (1 * 3 + 1) + 2] = 150;
    let img = raster(3, 3, pixels);
    let k = synthesize(100);
    let out = convolve(&img, &k);
    for c in 0..3u32 {
        assert_eq!(out.channel_at(1, 1, c), 190);
    }
}
