use vstd::prelude::*;
use crate::{bounding_box, format_allowed, DetectedFormat, ImageKind, PKAvatarError};
use crate::hash::{artifact_id, artifact_id_of};
use image::GenericImageView;

verus! {

/// Default ceiling on declared pixel dimensions; deployments may configure a
/// different value, so the pipeline takes the ceiling as an argument.
pub const DEFAULT_MAX_DIMENSION: u32 = 4000;

/// Fixed lossy quality for the canonical output encoding.
pub const WEBP_QUALITY: u8 = 90;

/// What one pipeline run produces: the final pixel dimensions, the artifact
/// id (hex-encoded content hash of the encoded bytes), and the encoded bytes
/// in the canonical format.
pub struct ProcessOutput {
    pub width: u32,
    pub height: u32,
    pub hash: String,
    pub data_webp: Vec<u8>,
}

/// The container format image's sniffer detects in a payload's magic bytes;
/// a pure function of the bytes. `None` when no known signature matches.
pub uninterp spec fn sniffed_format(data: Seq<u8>) -> Option<DetectedFormat>;

/// The pixel dimensions a payload's container header declares, read without
/// decoding pixel data; a pure function of the bytes. `None` when the header
/// is unreadable.
pub uninterp spec fn header_dims(data: Seq<u8>) -> Option<(u32, u32)>;

/// The dimensions of the fully decoded pixel buffer; a pure function of the
/// bytes. `None` exactly when decoding fails.
pub uninterp spec fn decoded_dims(data: Seq<u8>) -> Option<(u32, u32)>;

/// A decoded in-memory pixel buffer together with its dimensions.
pub struct RawImage {
    img: image::DynamicImage,
    pub width: u32,
    pub height: u32,
}

#[verifier::external_type_specification]
#[verifier::external_body]
pub struct ExDynamicImage(image::DynamicImage);

/// Relies on image's `guess_format`: detects the container format from the
/// payload's magic bytes alone, a pure function of the bytes; `Err` means no
/// known signature matched.
#[verifier::external_body]
fn sniff_format(data: &[u8]) -> (r: Option<DetectedFormat>)
    ensures
        r == sniffed_format(data@),
{
    match image::guess_format(data) {
        Ok(image::ImageFormat::Png) => Some(DetectedFormat::Png),
        Ok(image::ImageFormat::Jpeg) => Some(DetectedFormat::Jpeg),
        Ok(image::ImageFormat::Gif) => Some(DetectedFormat::Gif),
        Ok(image::ImageFormat::WebP) => Some(DetectedFormat::WebP),
        Ok(image::ImageFormat::Tiff) => Some(DetectedFormat::Tiff),
        Ok(_) => Some(DetectedFormat::Other),
        Err(_) => None,
    }
}

/// Relies on image's `Reader::into_dimensions`: reads the declared pixel
/// dimensions from the container header only, never allocating for or
/// decoding pixel data; a pure function of the bytes.
#[verifier::external_body]
fn read_header_dims(data: &[u8]) -> (r: Option<(u32, u32)>)
    ensures
        r == header_dims(data@),
{
    let reader = match image::io::Reader::new(std::io::Cursor::new(data)).with_guessed_format() {
        Ok(reader) => reader,
        Err(_) => return None,
    };
    reader.into_dimensions().ok()
}

/// Relies on image's `Reader::decode` and the decoded image's `width` and
/// `height` accessors: the decoded buffer and its dimensions are a pure
/// function of the bytes, and decoding fails exactly when no dimensions are
/// defined for the payload.
#[verifier::external_body]
fn decode_image(data: &[u8]) -> (r: Result<RawImage, String>)
    ensures
        r matches Ok(ri) ==> decoded_dims(data@) == Some((ri.width, ri.height)),
        r is Ok <==> decoded_dims(data@) is Some,
{
    let reader = match image::io::Reader::new(std::io::Cursor::new(data)).with_guessed_format() {
        Ok(reader) => reader,
        Err(e) => return Err(e.to_string()),
    };
    match reader.decode() {
        Ok(img) => {
            let width = img.width();
            let height = img.height();
            Ok(RawImage { img, width, height })
        },
        Err(e) => Err(e.to_string()),
    }
}

/// Relies on image's `DynamicImage::resize`: the target scale factor is the
/// smaller of the two bound ratios, both output sides are that factor times
/// the input side, rounded and clamped to at least one pixel, so the result
/// fits the bounds, reaches at least one of them, never exceeds the input
/// (the factor is below one whenever a side is over its bound), keeps the
/// aspect ratio up to that rounding, and is exact for a square image in a
/// square box.
#[verifier::external_body]
fn resize_to_fit(ri: &RawImage, tw: u32, th: u32) -> (r: RawImage)
    requires
        tw >= 1,
        th >= 1,
        ri.width >= 1,
        ri.height >= 1,
        ri.width > tw || ri.height > th,
    ensures
        1 <= r.width <= tw,
        1 <= r.height <= th,
        r.width == tw || r.height == th,
        r.width <= ri.width,
        r.height <= ri.height,
        r.width * ri.height <= r.height * ri.width + ri.width + ri.height,
        r.height * ri.width <= r.width * ri.height + ri.width + ri.height,
        (ri.width == ri.height && tw == th) ==> (r.width == tw && r.height == th),
{
    let img = ri.img.resize(tw, th, image::imageops::FilterType::Lanczos3);
    let width = img.width();
    let height = img.height();
    RawImage { img, width, height }
}

/// Largest pixel dimension the canonical output format can encode.
pub const WEBP_MAX_DIMENSION: u32 = 16383;

/// Relies on image's `WebPEncoder` with a fixed lossy quality: encoding an
/// RGBA buffer whose dimensions are within the format's limit always
/// succeeds and writes a non-empty stream. The buffer handed to the encoder
/// comes from the image itself, so its length always matches the dimensions
/// the encoder checks.
#[verifier::external_body]
#[allow(deprecated)]
fn encode_webp(ri: &RawImage) -> (r: Result<Vec<u8>, String>)
    requires
        1 <= ri.width <= WEBP_MAX_DIMENSION,
        1 <= ri.height <= WEBP_MAX_DIMENSION,
    ensures
        r is Ok,
        r matches Ok(v) ==> v@.len() > 0,
{
    let rgba = ri.img.to_rgba8();
    let (w, h) = (rgba.width(), rgba.height());
    let mut out: Vec<u8> = Vec::new();
    let quality = image::codecs::webp::WebPQuality::lossy(WEBP_QUALITY);
    let encoder = image::codecs::webp::WebPEncoder::new_with_quality(&mut out, quality);
    match encoder.encode(rgba.as_raw(), w, h, image::ColorType::Rgba8) {
        Ok(()) => Ok(out),
        Err(e) => Err(e.to_string()),
    }
}

/// The payload's magic bytes match no recognised container format.
pub open spec fn gate_format_unknown(data: Seq<u8>) -> bool {
    sniffed_format(data) is None
}

/// The payload is a recognised container format the pipeline refuses.
pub open spec fn gate_format_disallowed(data: Seq<u8>) -> bool {
    sniffed_format(data) matches Some(f) && !format_allowed(f)
}

/// The format gates passed.
pub open spec fn format_gate_passed(data: Seq<u8>) -> bool {
    sniffed_format(data) matches Some(f) && format_allowed(f)
}

/// The declared dimensions exceed the ceiling (checked before any decode).
pub open spec fn gate_dims_too_large(data: Seq<u8>, max_dim: u32) -> bool {
    format_gate_passed(data) && (header_dims(data) matches Some(d) && (d.0 > max_dim || d.1
        > max_dim))
}

/// The container header would not even yield dimensions.
pub open spec fn gate_header_unreadable(data: Seq<u8>) -> bool {
    format_gate_passed(data) && header_dims(data) is None
}

/// All pre-decode gates passed.
pub open spec fn dims_gate_passed(data: Seq<u8>, max_dim: u32) -> bool {
    format_gate_passed(data) && (header_dims(data) matches Some(d) && d.0 <= max_dim && d.1
        <= max_dim)
}

/// The full decode failed, or produced an empty pixel buffer.
pub open spec fn gate_decode_failed(data: Seq<u8>, max_dim: u32) -> bool {
    dims_gate_passed(data, max_dim) && !(decoded_dims(data) matches Some(d) && d.0 >= 1 && d.1
        >= 1)
}

/// Every validation gate passed: the payload is accepted for re-encoding.
pub open spec fn pipeline_accepts(data: Seq<u8>, max_dim: u32) -> bool {
    dims_gate_passed(data, max_dim) && (decoded_dims(data) matches Some(d) && d.0 >= 1 && d.1
        >= 1)
}

/// Decodes, validates, resizes and re-encodes one untrusted payload, and
/// computes the content hash of the encoded bytes.
///
/// The gates run in a fixed order that bounds resource use before any
/// expensive work: format sniffing from magic bytes, then the declared
/// dimensions read from the header and checked against the ceiling, and only
/// then a full decode. On success the output dimensions never exceed the
/// kind's bounding box, and equal the decoded dimensions whenever those
/// already fit (the pipeline never upscales); the artifact id is the hex
/// content hash of the encoded bytes.
pub fn process(data: &[u8], kind: ImageKind, max_dim: u32) -> (r: Result<
    ProcessOutput,
    PKAvatarError,
>)
    ensures
        (r matches Err(PKAvatarError::UnknownImageFormat)) <==> gate_format_unknown(data@),
        (r matches Err(PKAvatarError::UnsupportedImageFormat(f)) ==> gate_format_disallowed(data@)
            && sniffed_format(data@) == Some(f)),
        gate_format_disallowed(data@) ==> (r matches Err(PKAvatarError::UnsupportedImageFormat(f))
            && Some(f) == sniffed_format(data@)),
        (r matches Err(PKAvatarError::ImageDimensionsTooLarge(w, h, mw, mh)) ==> (
        gate_dims_too_large(data@, max_dim) && header_dims(data@) == Some((w, h)) && mw == max_dim
            && mh == max_dim)),
        gate_dims_too_large(data@, max_dim) ==> (r matches Err(
            PKAvatarError::ImageDimensionsTooLarge(w, h, mw, mh),
        ) && header_dims(data@) == Some((w, h))),
        (r matches Err(PKAvatarError::ImageFormatError(_))) <==> (gate_header_unreadable(data@)
            || gate_decode_failed(data@, max_dim)),
        pipeline_accepts(data@, max_dim) <==> r is Ok,
        r matches Ok(out) ==> out_matches(out, decoded_dims(data@).unwrap(), kind),
{
    let sniffed = sniff_format(data);
    let format = match sniffed {
        None => {
            return Err(PKAvatarError::UnknownImageFormat);
        },
        Some(f) => f,
    };
    if matches!(format, DetectedFormat::Other) {
        return Err(PKAvatarError::UnsupportedImageFormat(format));
    }
    let (w, h) = match read_header_dims(data) {
        None => {
            return Err(PKAvatarError::ImageFormatError("could not read dimensions".to_owned()));
        },
        Some(d) => d,
    };
    if w > max_dim || h > max_dim {
        return Err(PKAvatarError::ImageDimensionsTooLarge(w, h, max_dim, max_dim));
    }
    let raw = match decode_image(data) {
        Err(msg) => {
            return Err(PKAvatarError::ImageFormatError(msg));
        },
        Ok(raw) => raw,
    };
    if raw.width == 0 || raw.height == 0 {
        return Err(PKAvatarError::ImageFormatError("decoded image is empty".to_owned()));
    }
    let (tw, th) = kind.size();
    let sized = if raw.width <= tw && raw.height <= th {
        raw
    } else {
        resize_to_fit(&raw, tw, th)
    };
    let data_webp = match encode_webp(&sized) {
        Err(msg) => {
            return Err(PKAvatarError::InternalError(msg));
        },
        Ok(v) => v,
    };
    let hash = artifact_id(data_webp.as_slice());
    Ok(ProcessOutput { width: sized.width, height: sized.height, hash, data_webp })
}

/// What a successful pipeline run guarantees of its output, given the decoded
/// dimensions `dims` of the input. An input already inside the kind's
/// bounding box keeps its dimensions exactly (never upscaled); one outside it
/// is downscaled into the box, reaching at least one of its sides, never
/// exceeding the input, keeping the aspect ratio up to rounding, and exactly
/// filling a square box from a square input. The encoding is non-empty and
/// the artifact id is its content hash, 64 hex characters.
pub open spec fn out_matches(out: ProcessOutput, dims: (u32, u32), kind: ImageKind) -> bool {
    let tw = bounding_box(kind).0;
    let th = bounding_box(kind).1;
    &&& (dims.0 <= tw && dims.1 <= th) ==> out.width == dims.0 && out.height == dims.1
    &&& !(dims.0 <= tw && dims.1 <= th) ==> {
        &&& out.width <= tw && out.height <= th
        &&& out.width == tw || out.height == th
        &&& out.width <= dims.0 && out.height <= dims.1
        &&& out.width * dims.1 <= out.height * dims.0 + dims.0 + dims.1
        &&& out.height * dims.0 <= out.width * dims.1 + dims.0 + dims.1
        &&& (dims.0 == dims.1 && tw == th) ==> (out.width == tw && out.height == th)
    }
    &&& 1 <= out.width
    &&& 1 <= out.height
    &&& out.data_webp@.len() > 0
    &&& out.hash@ == artifact_id_of(out.data_webp@)
    &&& out.hash@.len() == 64
}

} // verus!
