use std::io::Cursor;

use pkavatar::hash::{artifact_id, to_hex};
use pkavatar::process::{process, DEFAULT_MAX_DIMENSION};
use pkavatar::store::{public_url, storage_path};
use pkavatar::{ImageKind, PKAvatarError};

fn png_bytes(width: u32, height: u32) -> Vec<u8> {
    let img = image::RgbaImage::from_fn(width, height, |x, y| {
        image::Rgba([(x * 7 % 256) as u8, (y * 13 % 256) as u8, 120, 255])
    });
    let mut out: Vec<u8> = Vec::new();
    image::DynamicImage::ImageRgba8(img)
        .write_to(&mut Cursor::new(&mut out), image::ImageFormat::Png)
        .unwrap();
    out
}

fn crc32(data: &[u8]) -> u32 {
    let mut c: u32 = 0xffff_ffff;
    for &b in data {
        c ^= b as u32;
        for _ in 0..8 {
            c = if c & 1 != 0 { 0xedb8_8320 ^ (c >> 1) } else { c >> 1 };
        }
    }
    !c
}

fn png_chunk(kind: &[u8; 4], payload: &[u8]) -> Vec<u8> {
    let mut chunk = Vec::new();
    chunk.extend_from_slice(&(payload.len() as u32).to_be_bytes());
    let mut body = kind.to_vec();
    body.extend_from_slice(payload);
    let crc = crc32(&body);
    chunk.extend_from_slice(&body);
    chunk.extend_from_slice(&crc.to_be_bytes());
    chunk
}

/// A tiny, well-formed PNG prefix that declares enormous dimensions without
/// carrying any pixel data.
fn huge_header_png(width: u32, height: u32) -> Vec<u8> {
    let mut data: Vec<u8> = vec![0x89, 0x50, 0x4e, 0x47, 0x0d, 0x0a, 0x1a, 0x0a];
    let mut ihdr = Vec::new();
    ihdr.extend_from_slice(&width.to_be_bytes());
    ihdr.extend_from_slice(&height.to_be_bytes());
    ihdr.extend_from_slice(&[8, 6, 0, 0, 0]);
    data.extend_from_slice(&png_chunk(b"IHDR", &ihdr));
    data.extend_from_slice(&png_chunk(b"IDAT", &[]));
    data.extend_from_slice(&png_chunk(b"IEND", &[]));
    data
}

#[test]
fn rejects_unknown_format() {
    let r = process(b"this is not an image at all", ImageKind::Avatar, DEFAULT_MAX_DIMENSION);
    assert!(matches!(r, Err(PKAvatarError::UnknownImageFormat)));
}

#[test]
fn rejects_disallowed_format() {
    // A BMP magic number: recognised by the sniffer, refused by the pipeline
    // before anything tries to decode it.
    let mut bmp: Vec<u8> = b"BM".to_vec();
    bmp.extend_from_slice(&[0u8; 60]);
    let r = process(&bmp, ImageKind::Avatar, DEFAULT_MAX_DIMENSION);
    assert!(matches!(r, Err(PKAvatarError::UnsupportedImageFormat(_))));
}

#[test]
fn rejects_declared_dimensions_before_decode() {
    // 50000x50000 declared in a file of under a hundred bytes: the ceiling
    // check must fire from the header alone, long before any pixel buffer
    // could be allocated.
    let bomb = huge_header_png(50000, 50000);
    assert!(bomb.len() < 100);
    let r = process(&bomb, ImageKind::Avatar, DEFAULT_MAX_DIMENSION);
    match r {
        Err(PKAvatarError::ImageDimensionsTooLarge(w, h, mw, mh)) => {
            assert_eq!((w, h), (50000, 50000));
            assert_eq!((mw, mh), (DEFAULT_MAX_DIMENSION, DEFAULT_MAX_DIMENSION));
        },
        _ => panic!("expected dimension rejection"),
    }
}

#[test]
fn dimension_ceiling_is_configurable() {
    let data = png_bytes(64, 64);
    let r = process(&data, ImageKind::Avatar, 32);
    assert!(matches!(r, Err(PKAvatarError::ImageDimensionsTooLarge(64, 64, 32, 32))));
    assert!(process(&data, ImageKind::Avatar, 64).is_ok());
}

#[test]
fn rejects_corrupt_payload() {
    // A valid PNG signature and header, then garbage instead of pixel data.
    let mut data = huge_header_png(4, 4);
    data.truncate(data.len() - 24);
    data.extend_from_slice(&[0xde, 0xad, 0xbe, 0xef]);
    let r = process(&data, ImageKind::Avatar, DEFAULT_MAX_DIMENSION);
    assert!(matches!(r, Err(PKAvatarError::ImageFormatError(_))));
}

#[test]
fn small_input_is_never_upscaled() {
    let data = png_bytes(10, 14);
    let out = process(&data, ImageKind::Avatar, DEFAULT_MAX_DIMENSION).unwrap();
    assert_eq!((out.width, out.height), (10, 14));
}

#[test]
fn output_is_canonical_webp() {
    let data = png_bytes(10, 10);
    let out = process(&data, ImageKind::Avatar, DEFAULT_MAX_DIMENSION).unwrap();
    assert_eq!(&out.data_webp[0..4], b"RIFF");
    assert_eq!(&out.data_webp[8..12], b"WEBP");
    assert_eq!(out.hash.len(), 64);
    assert_eq!(out.hash, artifact_id(&out.data_webp));
}

#[test]
fn identical_encodings_share_an_artifact_id() {
    // The same pixels shipped as PNG and as TIFF: two different source byte
    // streams whose canonical encodings coincide, and with them the ids.
    let img = image::RgbaImage::from_fn(9, 9, |x, y| {
        image::Rgba([(x * 11 % 256) as u8, (y * 29 % 256) as u8, 7, 255])
    });
    let mut png: Vec<u8> = Vec::new();
    image::DynamicImage::ImageRgba8(img.clone())
        .write_to(&mut Cursor::new(&mut png), image::ImageFormat::Png)
        .unwrap();
    let mut tiff: Vec<u8> = Vec::new();
    image::DynamicImage::ImageRgba8(img)
        .write_to(&mut Cursor::new(&mut tiff), image::ImageFormat::Tiff)
        .unwrap();
    assert_ne!(png, tiff);
    let a = process(&png, ImageKind::Avatar, DEFAULT_MAX_DIMENSION).unwrap();
    let b = process(&tiff, ImageKind::Avatar, DEFAULT_MAX_DIMENSION).unwrap();
    assert_eq!(a.data_webp, b.data_webp);
    assert_eq!(a.hash, b.hash);
}

#[test]
fn large_jpeg_fits_avatar_bounding_box() {
    let img = image::RgbImage::from_fn(3000, 3000, |x, y| {
        image::Rgb([((x / 3 + y) % 256) as u8, ((x + 2 * y / 5) % 256) as u8, ((x * y) % 256) as u8])
    });
    let mut jpeg: Vec<u8> = Vec::new();
    image::DynamicImage::ImageRgb8(img)
        .write_to(&mut Cursor::new(&mut jpeg), image::ImageFormat::Jpeg)
        .unwrap();
    assert!(jpeg.len() > 50_000);
    let out = process(&jpeg, ImageKind::Avatar, DEFAULT_MAX_DIMENSION).unwrap();
    assert!(out.width <= 512 && out.height <= 512);
    assert_eq!((out.width, out.height), (512, 512));
    assert_eq!(out.hash.len(), 64);
    assert!(out.hash.chars().all(|c| c.is_ascii_hexdigit()));
}

#[test]
fn banner_bounding_box_is_larger() {
    let data = png_bytes(2000, 1000);
    let avatar = process(&data, ImageKind::Avatar, DEFAULT_MAX_DIMENSION).unwrap();
    assert!(avatar.width <= 512 && avatar.height <= 512);
    let banner = process(&data, ImageKind::Banner, DEFAULT_MAX_DIMENSION).unwrap();
    assert!(banner.width <= 1024 && banner.height <= 1024);
    assert!(banner.width > avatar.width);
}

#[test]
fn aspect_ratio_is_preserved_when_downscaling() {
    let data = png_bytes(2048, 1024);
    let out = process(&data, ImageKind::Avatar, DEFAULT_MAX_DIMENSION).unwrap();
    assert_eq!((out.width, out.height), (512, 256));
}

#[test]
fn accepts_gif_and_webp_inputs() {
    let img = image::RgbaImage::from_pixel(5, 5, image::Rgba([1, 2, 3, 255]));
    let mut gif: Vec<u8> = Vec::new();
    image::DynamicImage::ImageRgba8(img)
        .write_to(&mut Cursor::new(&mut gif), image::ImageFormat::Gif)
        .unwrap();
    let from_gif = process(&gif, ImageKind::Avatar, DEFAULT_MAX_DIMENSION).unwrap();
    assert_eq!((from_gif.width, from_gif.height), (5, 5));

    // The pipeline's own output is itself an acceptable input.
    let from_webp =
        process(&from_gif.data_webp, ImageKind::Avatar, DEFAULT_MAX_DIMENSION).unwrap();
    assert_eq!((from_webp.width, from_webp.height), (5, 5));
}

#[test]
fn bounding_boxes_are_fixed_per_kind() {
    assert_eq!(ImageKind::Avatar.size(), (512, 512));
    assert_eq!(ImageKind::Banner.size(), (1024, 1024));
}

#[test]
fn artifact_id_matches_known_digest() {
    assert_eq!(
        artifact_id(b"abc"),
        "ba7816bf8f01cfea414140de5dae2223b00361a396177a9cb410ff61f20015ad"
    );
    assert_eq!(to_hex(&[0x00, 0xff, 0x1a]), "00ff1a");
}

#[test]
fn storage_path_shards_by_hash_prefix() {
    let id = artifact_id(b"abc");
    let path = storage_path(&id);
    assert_eq!(
        path,
        "images/ba/7816bf8f01cfea414140de5dae2223b00361a396177a9cb410ff61f20015ad.webp"
    );
    let url = public_url("https://cdn.example.net/", &path);
    assert_eq!(
        url,
        "https://cdn.example.net/images/ba/7816bf8f01cfea414140de5dae2223b00361a396177a9cb410ff61f20015ad.webp"
    );
}
