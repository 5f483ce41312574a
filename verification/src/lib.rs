use vstd::prelude::*;

pub mod db;
pub mod hash;
pub mod ingest;
pub mod migrate;
pub mod process;
pub mod pull;
pub mod store;

verus! {

/// The two use-cases an ingested image can serve; each has a fixed
/// target bounding box that the pipeline downscales into.
#[derive(Clone, Copy, Debug, PartialEq, Eq, Structural)]
pub enum ImageKind {
    Avatar,
    Banner,
}

/// Target bounding box (width, height) for a given image kind.
pub open spec fn bounding_box(kind: ImageKind) -> (u32, u32) {
    match kind {
        ImageKind::Avatar => (512u32, 512u32),
        ImageKind::Banner => (1024u32, 1024u32),
    }
}

impl ImageKind {
    /// The fixed target bounding box for this kind.
    pub fn size(&self) -> (r: (u32, u32))
        ensures
            r == bounding_box(*self),
    {
        match self {
            ImageKind::Avatar => (512, 512),
            ImageKind::Banner => (1024, 1024),
        }
    }
}

/// Container formats the sniffer can recognise in a payload's magic bytes.
/// `Other` stands for any recognised format that this pipeline does not accept.
#[derive(Clone, Copy, Debug, PartialEq, Eq, Structural)]
pub enum DetectedFormat {
    Png,
    Jpeg,
    Gif,
    WebP,
    Tiff,
    Other,
}

/// Which recognised container formats the pipeline will decode.
pub open spec fn format_allowed(f: DetectedFormat) -> bool {
    f != DetectedFormat::Other
}

/// Everything that can go wrong during one ingestion attempt.
#[derive(Debug, Clone)]
pub enum PKAvatarError {
    /// The source URL failed validation.
    InvalidCdnUrl,
    /// The origin answered with a non-success HTTP status.
    BadCdnResponse(u16),
    /// A transport-level failure; the message is kept for the operator log.
    NetworkError(String),
    /// The origin's response lacked (or had an unreadable) required header.
    MissingHeader(&'static str),
    /// The declared content type is outside the allow-list.
    UnsupportedContentType(String),
    /// The declared payload length exceeds the fixed maximum (actual, max).
    ImageFileSizeTooLarge(u64, u64),
    /// The payload is a recognised container format the pipeline refuses.
    UnsupportedImageFormat(DetectedFormat),
    /// The payload's magic bytes match no recognised container format.
    UnknownImageFormat,
    /// Declared pixel dimensions exceed the ceiling (actual width and
    /// height, then the maximum for each).
    ImageDimensionsTooLarge(u32, u32, u32, u32),
    /// The payload would not decode; the low-level cause is kept for the
    /// operator log and never surfaced to callers.
    ImageFormatError(String),
    /// The storage backend answered a put with a non-success status.
    StoreError,
    /// Any unclassified internal failure.
    InternalError(String),
}

/// Retry policy classes for the error taxonomy.
#[derive(Clone, Copy, Debug, PartialEq, Eq, Structural)]
pub enum ErrorClass {
    /// The item can never be ingested as-is; consuming it loses nothing.
    Permanent,
    /// The cause may go away; the attempt is worth repeating later.
    Transient,
    /// This system's own infrastructure failed; always retried.
    Internal,
}

/// The single classification map from error to retry policy, shared by the
/// request path and the migration workers.
pub open spec fn classification(e: PKAvatarError) -> ErrorClass {
    match e {
        PKAvatarError::InvalidCdnUrl => ErrorClass::Permanent,
        PKAvatarError::BadCdnResponse(status) => if status == 404u16 || status == 403u16 {
            ErrorClass::Permanent
        } else {
            ErrorClass::Transient
        },
        PKAvatarError::NetworkError(_) => ErrorClass::Transient,
        PKAvatarError::MissingHeader(_) => ErrorClass::Permanent,
        PKAvatarError::UnsupportedContentType(_) => ErrorClass::Permanent,
        PKAvatarError::ImageFileSizeTooLarge(_, _) => ErrorClass::Permanent,
        PKAvatarError::UnsupportedImageFormat(_) => ErrorClass::Permanent,
        PKAvatarError::UnknownImageFormat => ErrorClass::Permanent,
        PKAvatarError::ImageDimensionsTooLarge(_, _, _, _) => ErrorClass::Permanent,
        PKAvatarError::ImageFormatError(_) => ErrorClass::Permanent,
        PKAvatarError::StoreError => ErrorClass::Internal,
        PKAvatarError::InternalError(_) => ErrorClass::Internal,
    }
}

/// HTTP status for surfacing an error to the on-demand caller: 500 for this
/// system's own failures (network, store, internal), 400 for everything the
/// caller or the origin caused.
pub open spec fn http_status_of(e: PKAvatarError) -> u16 {
    match e {
        PKAvatarError::NetworkError(_) => 500u16,
        PKAvatarError::StoreError => 500u16,
        PKAvatarError::InternalError(_) => 500u16,
        _ => 400u16,
    }
}

impl PKAvatarError {
    /// Retry-policy class of this error.
    pub fn classify(&self) -> (c: ErrorClass)
        ensures
            c == classification(*self),
    {
        match self {
            PKAvatarError::InvalidCdnUrl => ErrorClass::Permanent,
            PKAvatarError::BadCdnResponse(status) => if *status == 404 || *status == 403 {
                ErrorClass::Permanent
            } else {
                ErrorClass::Transient
            },
            PKAvatarError::NetworkError(_) => ErrorClass::Transient,
            PKAvatarError::MissingHeader(_) => ErrorClass::Permanent,
            PKAvatarError::UnsupportedContentType(_) => ErrorClass::Permanent,
            PKAvatarError::ImageFileSizeTooLarge(_, _) => ErrorClass::Permanent,
            PKAvatarError::UnsupportedImageFormat(_) => ErrorClass::Permanent,
            PKAvatarError::UnknownImageFormat => ErrorClass::Permanent,
            PKAvatarError::ImageDimensionsTooLarge(_, _, _, _) => ErrorClass::Permanent,
            PKAvatarError::ImageFormatError(_) => ErrorClass::Permanent,
            PKAvatarError::StoreError => ErrorClass::Internal,
            PKAvatarError::InternalError(_) => ErrorClass::Internal,
        }
    }

    /// HTTP status code this error maps to on the request surface.
    pub fn http_status(&self) -> (s: u16)
        ensures
            s == http_status_of(*self),
    {
        match self {
            PKAvatarError::NetworkError(_) => 500,
            PKAvatarError::StoreError => 500,
            PKAvatarError::InternalError(_) => 500,
            _ => 400,
        }
    }
}

/// The answer to a pull: the artifact's public URL and whether this request
/// stored a new artifact (`false` when deduplication found prior work).
pub struct PullResponse {
    pub url: String,
    pub new: bool,
}

/// A copy of a string with the same view.
pub fn clone_string(s: &String) -> (r: String)
    ensures
        r@ == s@,
{
    s.clone()
}

} // verus!
