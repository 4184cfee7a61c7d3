use enhancer::{decode, encode, EnhanceError, Raster, Tensor};

fn raster(width: u32, height: u32, pixels: Vec<u8>) -> Raster {
    Raster::new(width, height, pixels).expect("valid raster")
}

fn solid(width: u32, height: u32, rgb: [u8; 3]) -> Raster {
    let mut pixels = Vec::new();
    for _ in 0..(width * height) {
        pixels.extend_from_slice(&rgb);
    }
    raster(width, height, pixels)
}

#[test]
fn encode_channel_first_layout() {
    let pixels = vec![10, 20, 30, 40, 50, 60, 70, 80, 90, 100, 110, 120];
    let img = raster(2, 2, pixels);
    let t = encode(&img, 2);
    assert_eq!(t.shape, vec![1, 3, 2, 2]);
    assert_eq!(t.data.len(), 12);
    // R plane, row-major, each channel scaled by 257.
    assert_eq!(&t.data[0..4], &[10 * 257, 40 * 257, 70 * 257, 100 * 257]);
    // G plane.
    assert_eq!(&t.data[4..8], &[20 * 257, 50 * 257, 80 * 257, 110 * 257]);
    // B plane.
    assert_eq!(&t.data[8..12], &[30 * 257, 60 * 257, 90 * 257, 120 * 257]);
}

#[test]
fn roundtrip_uniform_tile() {
    let img = solid(4, 4, [128, 64, 255]);
    let t = encode(&img, 4);
    let out = decode(&t).expect("well-shaped tensor");
    assert_eq!(out.width, 4);
    assert_eq!(out.height, 4);
    assert_eq!(out.pixels, img.pixels);
}

#[test]
fn roundtrip_varied_tile() {
    let pixels = vec![0, 1, 2, 253, 254, 255, 17, 99, 180, 128, 127, 126];
    let img = raster(2, 2, pixels.clone());
    let t = encode(&img, 2);
    let out = decode(&t).expect("well-shaped tensor");
    assert_eq!(out.pixels, pixels);
}

#[test]
fn decode_denormalizes_and_clamps() {
    let t = Tensor {
        shape: vec![1, 3, 1, 1],
        data: vec![65535, 0, 32768],
    };
    let out = decode(&t).expect("well-shaped tensor");
    assert_eq!(out.width, 1);
    assert_eq!(out.height, 1);
    // 32768 / 65535 * 255 truncates to 127.
    assert_eq!(out.pixels, vec![255, 0, 127]);
}

#[test]
fn decode_rejects_missing_batch_axis() {
    let t = Tensor {
        shape: vec![3, 64, 64],
        data: vec![0; 3 * 64 * 64],
    };
    assert!(matches!(decode(&t), Err(EnhanceError::Shape)));
}

#[test]
fn decode_rejects_wrong_batch_or_channels() {
    let two_batches = Tensor {
        shape: vec![2, 3, 4, 4],
        data: vec![0; 2 * 3 * 4 * 4],
    };
    assert!(matches!(decode(&two_batches), Err(EnhanceError::Shape)));
    let four_channels = Tensor {
        shape: vec![1, 4, 4, 4],
        data: vec![0; 4 * 4 * 4],
    };
    assert!(matches!(decode(&four_channels), Err(EnhanceError::Shape)));
}

#[test]
fn decode_rejects_mismatched_data_length() {
    let t = Tensor {
        shape: vec![1, 3, 4, 4],
        data: vec![0; 47],
    };
    assert!(matches!(decode(&t), Err(EnhanceError::Shape)));
}

#[test]
fn decode_rejects_empty_spatial_axes() {
    let t = Tensor {
        shape: vec![1, 3, 0, 4],
        data: vec![],
    };
    assert!(matches!(decode(&t), Err(EnhanceError::Shape)));
}
