use pkavatar::pull::{check_body_length, check_response_headers, parse_url, MAX_SIZE};
use pkavatar::PKAvatarError;

#[test]
fn parse_valid_media_host() {
    let url = "https://media.discordapp.net/attachments/123456789/987654321/avatar.png";
    let p = parse_url(url).unwrap();
    assert_eq!(p.channel_id, 123456789);
    assert_eq!(p.attachment_id, 987654321);
    assert_eq!(p.filename, "avatar.png");
    assert_eq!(p.full_url, url);
}

#[test]
fn parse_valid_cdn_host() {
    let url = "https://cdn.discordapp.com/attachments/1/2/x.webp";
    let p = parse_url(url).unwrap();
    assert_eq!(p.channel_id, 1);
    assert_eq!(p.attachment_id, 2);
    assert_eq!(p.filename, "x.webp");
}

#[test]
fn parse_roundtrips_large_attachment_id() {
    let url = "https://cdn.discordapp.com/attachments/18446744073709551615/18446744073709551614/f.png";
    let p = parse_url(url).unwrap();
    assert_eq!(p.channel_id, u64::MAX);
    assert_eq!(p.attachment_id, u64::MAX - 1);
}

#[test]
fn parse_strips_query_from_filename() {
    let url = "https://cdn.discordapp.com/attachments/11/22/f.png?ex=abc&is=def";
    let p = parse_url(url).unwrap();
    assert_eq!(p.attachment_id, 22);
    assert_eq!(p.filename, "f.png");
    assert_eq!(p.full_url, url);
}

#[test]
fn parse_allows_slashes_inside_query() {
    let url = "https://cdn.discordapp.com/attachments/11/22/f.png?path=a/b/c";
    let p = parse_url(url).unwrap();
    assert_eq!(p.attachment_id, 22);
    assert_eq!(p.filename, "f.png");
    assert_eq!(p.full_url, url);
}

#[test]
fn parse_strips_fragment_from_filename() {
    let url = "https://cdn.discordapp.com/attachments/11/22/f.png#section";
    let p = parse_url(url).unwrap();
    assert_eq!(p.filename, "f.png");
    assert_eq!(p.full_url, url);
}

#[test]
fn parse_folds_scheme_and_host_case() {
    let url = "HTTPS://CDN.DiscordApp.Com/attachments/11/22/F.png";
    let p = parse_url(url).unwrap();
    assert_eq!(p.attachment_id, 22);
    // Only the scheme and host fold; the filename keeps its case.
    assert_eq!(p.filename, "F.png");
    assert_eq!(p.full_url, url);
}

#[test]
fn parse_rejects_query_before_path() {
    let r = parse_url("https://cdn.discordapp.com?/attachments/1/2/f.png");
    assert!(matches!(r, Err(PKAvatarError::InvalidCdnUrl)));
}

#[test]
fn parse_rejects_wrong_host() {
    let r = parse_url("https://example.com/attachments/1/2/f.png");
    assert!(matches!(r, Err(PKAvatarError::InvalidCdnUrl)));
}

#[test]
fn parse_rejects_insecure_scheme() {
    let r = parse_url("http://cdn.discordapp.com/attachments/1/2/f.png");
    assert!(matches!(r, Err(PKAvatarError::InvalidCdnUrl)));
}

#[test]
fn parse_rejects_three_segments() {
    let r = parse_url("https://cdn.discordapp.com/attachments/1/f.png");
    assert!(matches!(r, Err(PKAvatarError::InvalidCdnUrl)));
}

#[test]
fn parse_rejects_five_segments() {
    let r = parse_url("https://cdn.discordapp.com/attachments/1/2/3/f.png");
    assert!(matches!(r, Err(PKAvatarError::InvalidCdnUrl)));
}

#[test]
fn parse_rejects_non_numeric_ids() {
    let r = parse_url("https://cdn.discordapp.com/attachments/abc/2/f.png");
    assert!(matches!(r, Err(PKAvatarError::InvalidCdnUrl)));
    let r = parse_url("https://cdn.discordapp.com/attachments/1/2x/f.png");
    assert!(matches!(r, Err(PKAvatarError::InvalidCdnUrl)));
}

#[test]
fn parse_rejects_overflowing_id() {
    let r = parse_url("https://cdn.discordapp.com/attachments/1/99999999999999999999999/f.png");
    assert!(matches!(r, Err(PKAvatarError::InvalidCdnUrl)));
}

#[test]
fn parse_rejects_empty_id_segment() {
    let r = parse_url("https://cdn.discordapp.com/attachments//2/f.png");
    assert!(matches!(r, Err(PKAvatarError::InvalidCdnUrl)));
}

#[test]
fn parse_rejects_no_path() {
    let r = parse_url("https://cdn.discordapp.com");
    assert!(matches!(r, Err(PKAvatarError::InvalidCdnUrl)));
}

#[test]
fn headers_reject_bad_status() {
    let r = check_response_headers(404, Some(100), Some("image/png"));
    assert!(matches!(r, Err(PKAvatarError::BadCdnResponse(404))));
    let r = check_response_headers(500, Some(100), Some("image/png"));
    assert!(matches!(r, Err(PKAvatarError::BadCdnResponse(500))));
}

#[test]
fn headers_reject_missing_length() {
    let r = check_response_headers(200, None, Some("image/png"));
    assert!(matches!(r, Err(PKAvatarError::MissingHeader(_))));
}

#[test]
fn headers_reject_oversized_payload() {
    let r = check_response_headers(200, Some(MAX_SIZE + 1), Some("image/png"));
    match r {
        Err(PKAvatarError::ImageFileSizeTooLarge(actual, max)) => {
            assert_eq!(actual, MAX_SIZE + 1);
            assert_eq!(max, MAX_SIZE);
        },
        _ => panic!("expected size rejection"),
    }
}

#[test]
fn headers_reject_missing_content_type() {
    let r = check_response_headers(200, Some(100), None);
    assert!(matches!(r, Err(PKAvatarError::MissingHeader(_))));
}

#[test]
fn headers_reject_unsupported_content_type() {
    let r = check_response_headers(200, Some(100), Some("text/html"));
    match r {
        Err(PKAvatarError::UnsupportedContentType(t)) => assert_eq!(t, "text/html"),
        _ => panic!("expected content-type rejection"),
    }
}

#[test]
fn headers_accept_allowed_type_with_parameters() {
    let ok = check_response_headers(200, Some(100), Some("image/png; charset=utf-8")).unwrap();
    assert_eq!(ok.content_type, "image/png");
    assert_eq!(ok.declared_len, 100);
    let ok = check_response_headers(200, Some(MAX_SIZE), Some("image/webp")).unwrap();
    assert_eq!(ok.content_type, "image/webp");
}

#[test]
fn body_length_must_match_declared() {
    assert!(check_body_length(10, 10).is_ok());
    let r = check_body_length(10, 9);
    assert!(matches!(r, Err(PKAvatarError::InternalError(_))));
}
