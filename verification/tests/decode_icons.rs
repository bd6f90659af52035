//! Decoding icon containers built with the real container library.

use rustcast::icon::{decode, DecodeError};

fn solid_rgba(width: u32, height: u32, pixel: [u8; 4]) -> Vec<u8> {
    let mut data = Vec::new();
    for _ in 0..(width * height) {
        data.extend_from_slice(&pixel);
    }
    data
}

fn container_with_sizes(sizes: &[u32], pixel: [u8; 4]) -> Vec<u8> {
    let mut family = icns::IconFamily::new();
    for &size in sizes {
        let image = icns::Image::from_data(
            icns::PixelFormat::RGBA,
            size,
            size,
            solid_rgba(size, size, pixel),
        )
        .unwrap();
        family.add_icon(&image).unwrap();
    }
    let mut out = Vec::new();
    family.write(&mut out).unwrap();
    out
}

#[test]
fn decode_valid_container_yields_consistent_image() {
    let bytes = container_with_sizes(&[16], [10, 20, 30, 255]);
    let img = decode(&bytes).unwrap();
    assert_eq!(img.width, 16);
    assert_eq!(img.height, 16);
    assert_eq!(img.data.len(), 16 * 16 * 4);
    assert_eq!(&img.data[0..4], &[10, 20, 30, 255]);
}

#[test]
fn decoded_buffer_length_matches_dimensions() {
    for size in [16u32, 32, 48] {
        let bytes = container_with_sizes(&[size], [1, 2, 3, 4]);
        let img = decode(&bytes).unwrap();
        assert_eq!(
            img.data.len(),
            (img.width as usize) * (img.height as usize) * 4
        );
    }
}

#[test]
fn decode_empty_container_is_empty_error() {
    let family = icns::IconFamily::new();
    let mut out = Vec::new();
    family.write(&mut out).unwrap();
    assert!(matches!(decode(&out), Err(DecodeError::Empty)));
}

#[test]
fn decode_garbage_is_malformed() {
    let bytes = b"not an icon container at all".to_vec();
    assert!(matches!(decode(&bytes), Err(DecodeError::Malformed)));
}

#[test]
fn decode_empty_buffer_is_malformed() {
    assert!(matches!(decode(&Vec::new()), Err(DecodeError::Malformed)));
}

#[test]
fn decode_corrupt_variant_is_corrupt_error() {
    // A well-formed container directory whose single listed variant holds
    // bytes that are not decodable pixel data.
    let payload = b"garbage that is neither rle nor png";
    let elt_len = 8 + payload.len() as u32;
    let total = 8 + elt_len;
    let mut bytes = b"icns".to_vec();
    bytes.extend_from_slice(&total.to_be_bytes());
    bytes.extend_from_slice(b"ic08");
    bytes.extend_from_slice(&elt_len.to_be_bytes());
    bytes.extend_from_slice(payload);
    assert!(matches!(decode(&bytes), Err(DecodeError::Corrupt)));
}

#[test]
fn decode_picks_first_listed_variant() {
    let bytes = container_with_sizes(&[16, 32], [7, 7, 7, 255]);
    let img = decode(&bytes).unwrap();
    assert_eq!((img.width, img.height), (16, 16));
}

#[test]
fn decode_is_deterministic() {
    let bytes = container_with_sizes(&[16], [9, 8, 7, 6]);
    let a = decode(&bytes).unwrap();
    let b = decode(&bytes).unwrap();
    assert_eq!(a.width, b.width);
    assert_eq!(a.height, b.height);
    assert_eq!(a.data, b.data);
}
