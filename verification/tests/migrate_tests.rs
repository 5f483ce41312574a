use std::io::Cursor;

use pkavatar::db::Catalog;
use pkavatar::migrate::{handle_item, handle_item_inner, queue_disposition, QueueAction};
use pkavatar::process::DEFAULT_MAX_DIMENSION;
use pkavatar::pull::PullResult;
use pkavatar::{ErrorClass, ImageKind, PKAvatarError};

const BASE_URL: &str = "https://cdn.example.net/";

fn ok_fetch(data: Vec<u8>) -> Result<PullResult, PKAvatarError> {
    Ok(PullResult { data, content_type: "image/png".to_string(), last_modified: None })
}

fn small_png() -> Vec<u8> {
    let img = image::RgbaImage::from_pixel(8, 8, image::Rgba([9, 8, 7, 255]));
    let mut out: Vec<u8> = Vec::new();
    image::DynamicImage::ImageRgba8(img)
        .write_to(&mut Cursor::new(&mut out), image::ImageFormat::Png)
        .unwrap();
    out
}

#[test]
fn classification_maps_each_variant() {
    assert_eq!(PKAvatarError::InvalidCdnUrl.classify(), ErrorClass::Permanent);
    assert_eq!(PKAvatarError::BadCdnResponse(404).classify(), ErrorClass::Permanent);
    assert_eq!(PKAvatarError::BadCdnResponse(403).classify(), ErrorClass::Permanent);
    assert_eq!(PKAvatarError::BadCdnResponse(500).classify(), ErrorClass::Transient);
    assert_eq!(PKAvatarError::NetworkError("x".to_string()).classify(), ErrorClass::Transient);
    assert_eq!(PKAvatarError::MissingHeader("Content-Length").classify(), ErrorClass::Permanent);
    assert_eq!(
        PKAvatarError::UnsupportedContentType("text/html".to_string()).classify(),
        ErrorClass::Permanent
    );
    assert_eq!(PKAvatarError::ImageFileSizeTooLarge(9, 4).classify(), ErrorClass::Permanent);
    assert_eq!(PKAvatarError::UnknownImageFormat.classify(), ErrorClass::Permanent);
    assert_eq!(
        PKAvatarError::ImageDimensionsTooLarge(9000, 9000, 4000, 4000).classify(),
        ErrorClass::Permanent
    );
    assert_eq!(
        PKAvatarError::ImageFormatError("bad".to_string()).classify(),
        ErrorClass::Permanent
    );
    assert_eq!(PKAvatarError::StoreError.classify(), ErrorClass::Internal);
    assert_eq!(PKAvatarError::InternalError("x".to_string()).classify(), ErrorClass::Internal);
}

#[test]
fn http_status_separates_caller_and_internal_errors() {
    assert_eq!(PKAvatarError::InvalidCdnUrl.http_status(), 400);
    assert_eq!(PKAvatarError::BadCdnResponse(500).http_status(), 400);
    assert_eq!(PKAvatarError::UnknownImageFormat.http_status(), 400);
    assert_eq!(PKAvatarError::NetworkError("x".to_string()).http_status(), 500);
    assert_eq!(PKAvatarError::StoreError.http_status(), 500);
    assert_eq!(PKAvatarError::InternalError("x".to_string()).http_status(), 500);
}

#[test]
fn disposition_follows_the_shared_policy() {
    assert_eq!(queue_disposition(&Ok(())), QueueAction::Done);
    assert_eq!(
        queue_disposition(&Err(PKAvatarError::BadCdnResponse(404))),
        QueueAction::Skip
    );
    assert_eq!(
        queue_disposition(&Err(PKAvatarError::BadCdnResponse(500))),
        QueueAction::Retry
    );
    assert_eq!(queue_disposition(&Err(PKAvatarError::StoreError)), QueueAction::Retry);
    assert_eq!(
        queue_disposition(&Err(PKAvatarError::UnknownImageFormat)),
        QueueAction::Skip
    );
}

#[test]
fn origin_500_rolls_back_and_item_stays_claimable() {
    let mut c = Catalog::new();
    c.push_queue("https://cdn.discordapp.com/attachments/1/11/a.png", ImageKind::Avatar);
    let r = handle_item(
        &mut c,
        Err(PKAvatarError::BadCdnResponse(500)),
        200,
        DEFAULT_MAX_DIMENSION,
        BASE_URL,
    );
    assert!(matches!(r, Err(PKAvatarError::BadCdnResponse(500))));
    // The item reappears for a later claim.
    assert_eq!(c.get_queue_length(), 1);
    let again = c.pop_queue().unwrap();
    assert!(again.url.contains("/11/"));
}

#[test]
fn origin_404_commits_the_item_without_retry() {
    let mut c = Catalog::new();
    c.push_queue("https://cdn.discordapp.com/attachments/1/11/a.png", ImageKind::Avatar);
    let r = handle_item(
        &mut c,
        Err(PKAvatarError::BadCdnResponse(404)),
        200,
        DEFAULT_MAX_DIMENSION,
        BASE_URL,
    );
    assert!(r.is_ok());
    assert_eq!(c.get_queue_length(), 0);
    assert!(c.pop_queue().is_none());
}

#[test]
fn invalid_queue_url_is_consumed() {
    let mut c = Catalog::new();
    c.push_queue("https://example.com/not/a/cdn/url.png", ImageKind::Avatar);
    let r = handle_item(&mut c, ok_fetch(small_png()), 200, DEFAULT_MAX_DIMENSION, BASE_URL);
    assert!(r.is_ok());
    assert_eq!(c.get_queue_length(), 0);
}

#[test]
fn store_failure_rolls_back() {
    let mut c = Catalog::new();
    c.push_queue("https://cdn.discordapp.com/attachments/1/11/a.png", ImageKind::Avatar);
    let r = handle_item(&mut c, ok_fetch(small_png()), 503, DEFAULT_MAX_DIMENSION, BASE_URL);
    assert!(matches!(r, Err(PKAvatarError::StoreError)));
    assert_eq!(c.get_queue_length(), 1);
    assert_eq!(c.get_stats().total_images, 0);
}

#[test]
fn successful_item_is_recorded_and_committed() {
    let mut c = Catalog::new();
    c.push_queue("https://cdn.discordapp.com/attachments/1/11/a.png", ImageKind::Avatar);
    let png = small_png();
    let original_len = png.len() as u64;
    let r = handle_item(&mut c, ok_fetch(png), 200, DEFAULT_MAX_DIMENSION, BASE_URL);
    assert!(r.is_ok());
    assert_eq!(c.get_queue_length(), 0);
    let m = c.get_by_attachment_id(11).unwrap();
    assert_eq!(m.kind, ImageKind::Avatar);
    assert_eq!(m.width, 8);
    assert_eq!(m.height, 8);
    assert_eq!(m.original_file_size, Some(original_len));
    assert_eq!(
        m.original_url.as_deref(),
        Some("https://cdn.discordapp.com/attachments/1/11/a.png")
    );
    assert_eq!(m.original_type.as_deref(), Some("image/png"));
    assert_eq!(m.id.len(), 64);
    assert!(m.url.starts_with(BASE_URL));
    assert!(m.url.contains(&m.id[0..2]));
}

#[test]
fn already_migrated_item_is_skipped_without_processing() {
    let mut c = Catalog::new();
    c.push_queue("https://cdn.discordapp.com/attachments/1/11/a.png", ImageKind::Avatar);
    let first = handle_item(&mut c, ok_fetch(small_png()), 200, DEFAULT_MAX_DIMENSION, BASE_URL);
    assert!(first.is_ok());
    c.push_queue("https://cdn.discordapp.com/attachments/1/11/a.png", ImageKind::Avatar);
    // The fetch outcome is an error, but the dedup check comes first: the
    // item is consumed as already migrated.
    let second = handle_item(
        &mut c,
        Err(PKAvatarError::NetworkError("unreachable".to_string())),
        200,
        DEFAULT_MAX_DIMENSION,
        BASE_URL,
    );
    assert!(second.is_ok());
    assert_eq!(c.get_queue_length(), 0);
    assert_eq!(c.get_stats().total_images, 1);
}

#[test]
fn inner_records_full_provenance() {
    let mut c = Catalog::new();
    let item = {
        c.push_queue("https://cdn.discordapp.com/attachments/9/77/pic.png", ImageKind::Banner);
        c.pop_queue().unwrap()
    };
    let r = handle_item_inner(
        &mut c,
        &item,
        ok_fetch(small_png()),
        200,
        DEFAULT_MAX_DIMENSION,
        BASE_URL,
    );
    assert!(r.is_ok());
    let m = c.get_by_attachment_id(77).unwrap();
    assert_eq!(m.kind, ImageKind::Banner);
    assert_eq!(m.uploaded_by_account, None);
    assert_eq!(m.uploaded_by_system, None);
    assert!(m.original_file_size.is_some());
}
