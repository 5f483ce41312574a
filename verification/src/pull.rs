use vstd::prelude::*;
use crate::PKAvatarError;

verus! {

/// Largest payload the fetcher will accept, in bytes. The declared length is
/// checked against this before the body is read.
pub const MAX_SIZE: u64 = 4_000_000;

/// First index in `[from, end)` where `c` occurs in `s`.
pub open spec fn find_char(s: Seq<char>, c: char, from: int, end: int) -> Option<int>
    decreases end - from,
{
    if !(0 <= from && from < end && end <= s.len()) {
        None
    } else if s[from] == c {
        Some(from)
    } else {
        find_char(s, c, from + 1, end)
    }
}

/// A character's code point after ASCII lower-case folding.
pub open spec fn lower_code(c: char) -> u32 {
    if 'A' <= c && c <= 'Z' {
        (c as u32 + 32) as u32
    } else {
        c as u32
    }
}

/// `s` equals the (lower-case) `lit` after ASCII case folding of `s`.
pub open spec fn matches_folded(s: Seq<char>, lit: Seq<char>) -> bool {
    s.len() == lit.len() && forall|i: int|
        0 <= i < s.len() ==> lower_code(#[trigger] s[i]) == lit[i] as u32
}

pub open spec fn is_digit(c: char) -> bool {
    '0' <= c && c <= '9'
}

pub open spec fn digit_val(c: char) -> int {
    c as u32 - '0' as u32
}

pub open spec fn all_digits(s: Seq<char>) -> bool {
    forall|i: int| 0 <= i < s.len() ==> is_digit(#[trigger] s[i])
}

/// Numeric value of a decimal digit string.
pub open spec fn dec_value(s: Seq<char>) -> int
    decreases s.len(),
{
    if s.len() == 0 {
        0
    } else {
        dec_value(s.drop_last()) * 10 + digit_val(s.last())
    }
}

/// A non-empty, all-digit string whose value fits in a u64.
pub open spec fn is_u64_number(s: Seq<char>) -> bool {
    s.len() > 0 && all_digits(s) && dec_value(s) <= u64::MAX
}

proof fn lemma_dec_value_nonneg(s: Seq<char>)
    requires
        all_digits(s),
    ensures
        dec_value(s) >= 0,
    decreases s.len(),
{
    if s.len() > 0 {
        assert(all_digits(s.drop_last())) by {
            assert(forall|i: int| 0 <= i < s.len() - 1 ==> is_digit(#[trigger] s.drop_last()[i]));
        }
        lemma_dec_value_nonneg(s.drop_last());
        assert(is_digit(s.last()));
    }
}

/// A digit string's value only grows as more digits are appended.
proof fn lemma_dec_value_prefix(s: Seq<char>, k: int)
    requires
        all_digits(s),
        0 <= k <= s.len(),
    ensures
        dec_value(s) >= dec_value(s.take(k)),
    decreases s.len() - k,
{
    if k < s.len() {
        lemma_dec_value_prefix(s, k + 1);
        let t = s.take(k + 1);
        assert(t.drop_last() =~= s.take(k));
        assert(all_digits(s.take(k))) by {
            assert(forall|i: int| 0 <= i < k ==> is_digit(#[trigger] s.take(k)[i]));
        }
        lemma_dec_value_nonneg(s.take(k));
        assert(t.last() == s[k]);
        assert(is_digit(s[k]));
        assert(dec_value(t) == dec_value(s.take(k)) * 10 + digit_val(s[k]));
        assert(dec_value(s.take(k)) * 10 >= dec_value(s.take(k))) by {
            lemma_dec_value_nonneg(s.take(k));
        }
    } else {
        assert(s.take(k) =~= s);
    }
}

/// The fields a valid source URL decomposes into.
pub ghost struct ParsedFields {
    pub channel_id: int,
    pub attachment_id: int,
    pub filename: Seq<char>,
}

/// The fixed allow-list of source CDN hostnames, compared case-insensitively.
pub open spec fn host_allowed(host: Seq<char>) -> bool {
    matches_folded(host, "media.discordapp.net"@) || matches_folded(host, "cdn.discordapp.com"@)
}

/// The URL starts with the secure scheme, compared case-insensitively.
pub open spec fn scheme_ok(s: Seq<char>) -> bool {
    s.len() >= 8 && matches_folded(s.subrange(0, 8), "https://"@)
}

/// Where the URL's path ends: at the first `?` (query) or `#` (fragment)
/// after the scheme, or at the end of the string.
pub open spec fn path_end(s: Seq<char>) -> int {
    let q = find_char(s, '?', 8, s.len() as int);
    let f = find_char(s, '#', 8, s.len() as int);
    match (q, f) {
        (Option::None, Option::None) => s.len() as int,
        (Option::Some(i), Option::None) => i,
        (Option::None, Option::Some(j)) => j,
        (Option::Some(i), Option::Some(j)) => if i <= j {
            i
        } else {
            j
        },
    }
}

/// The grammar of acceptable source URLs: a secure scheme, an allow-listed
/// host, then a path of exactly four segments whose second and third are
/// u64 numbers; a query or fragment after the path is kept out of the
/// segments. Returns the extracted fields, or `None` for any deviation.
pub open spec fn spec_parse_url(s: Seq<char>) -> Option<ParsedFields> {
    let pe = path_end(s);
    if !scheme_ok(s) {
        None
    } else {
        match find_char(s, '/', 8, pe) {
            None => None,
            Some(hs) => {
                if !host_allowed(s.subrange(8, hs)) {
                    None
                } else {
                    match find_char(s, '/', hs + 1, pe) {
                        None => None,
                        Some(p1) => {
                            match find_char(s, '/', p1 + 1, pe) {
                                None => None,
                                Some(p2) => {
                                    match find_char(s, '/', p2 + 1, pe) {
                                        None => None,
                                        Some(p3) => {
                                            if find_char(s, '/', p3 + 1, pe) is Some {
                                                None
                                            } else if !is_u64_number(s.subrange(p1 + 1, p2))
                                                || !is_u64_number(s.subrange(p2 + 1, p3)) {
                                                None
                                            } else {
                                                Some(ParsedFields {
                                                    channel_id: dec_value(s.subrange(p1 + 1, p2)),
                                                    attachment_id: dec_value(s.subrange(p2 + 1, p3)),
                                                    filename: s.subrange(p3 + 1, pe),
                                                })
                                            }
                                        },
                                    }
                                },
                            }
                        },
                    }
                }
            },
        }
    }
}

/// A validated source URL: the extracted identifiers, the canonical filename,
/// and the full URL to fetch.
pub struct ParsedUrl {
    pub channel_id: u64,
    pub attachment_id: u64,
    pub filename: String,
    pub full_url: String,
}

impl ParsedUrl {
    /// The parse this value came from: its fields agree with the grammar's
    /// decomposition of `full_url`.
    pub open spec fn wf(&self) -> bool {
        match spec_parse_url(self.full_url@) {
            Some(f) => {
                &&& self.channel_id == f.channel_id
                &&& self.attachment_id == f.attachment_id
                &&& self.filename@ == f.filename
            },
            None => false,
        }
    }
}

/// Scans for `c` in `s` over the char index range `[from, end)`.
fn find_char_from(s: &str, c: char, from: usize, end: usize, n: usize) -> (r: Option<usize>)
    requires
        n == s@.len(),
        from <= end <= n,
    ensures
        match r {
            Some(i) => from <= i < end && s@[i as int] == c && find_char(
                s@,
                c,
                from as int,
                end as int,
            ) == Some(i as int),
            None => find_char(s@, c, from as int, end as int) is None,
        },
{
    let mut i: usize = from;
    while i < end
        invariant
            from <= i <= end <= n,
            n == s@.len(),
            find_char(s@, c, from as int, end as int) == find_char(s@, c, i as int, end as int),
        decreases end - i,
    {
        let ch = s.get_char(i);
        if ch == c {
            return Some(i);
        }
        i = i + 1;
    }
    None
}

/// True when `s[start..end]` equals the lower-case `lit` after ASCII case
/// folding, compared character by character.
fn region_matches_folded(s: &str, start: usize, end: usize, lit: &str) -> (r: bool)
    requires
        start <= end <= s@.len(),
    ensures
        r == matches_folded(s@.subrange(start as int, end as int), lit@),
{
    let m = lit.unicode_len();
    if end - start != m {
        proof {
            assert(s@.subrange(start as int, end as int).len() != lit@.len());
        }
        return false;
    }
    let mut j: usize = 0;
    while j < m
        invariant
            0 <= j <= m,
            m == lit@.len(),
            start <= end <= s@.len(),
            end - start == m,
            forall|k: int| 0 <= k < j ==> lower_code(#[trigger] s@[start + k]) == lit@[k] as u32,
        decreases m - j,
    {
        let a = s.get_char(start + j);
        let af: u32 = a as u32;
        let af: u32 = if 65 <= af && af <= 90 {
            af + 32
        } else {
            af
        };
        let b = lit.get_char(j);
        if af != b as u32 {
            proof {
                assert(lower_code(s@.subrange(start as int, end as int)[j as int]) != lit@[j
                    as int] as u32);
            }
            return false;
        }
        j = j + 1;
    }
    proof {
        assert forall|k: int| 0 <= k < m implies lower_code(
            #[trigger] s@.subrange(start as int, end as int)[k],
        ) == lit@[k] as u32 by {
            assert(s@.subrange(start as int, end as int)[k] == s@[start + k]);
        }
        assert(matches_folded(s@.subrange(start as int, end as int), lit@));
    }
    true
}

/// Parses the decimal digit string `s[start..end]` as a u64.
fn parse_u64_segment(s: &str, start: usize, end: usize) -> (r: Option<u64>)
    requires
        start <= end <= s@.len(),
    ensures
        r matches Some(v) ==> is_u64_number(s@.subrange(start as int, end as int)) && v
            == dec_value(s@.subrange(start as int, end as int)),
        r is None ==> !is_u64_number(s@.subrange(start as int, end as int)),
{
    let ghost sub = s@.subrange(start as int, end as int);
    if start == end {
        return None;
    }
    let mut acc: u64 = 0;
    let mut j: usize = start;
    while j < end
        invariant
            start <= j <= end <= s@.len(),
            sub == s@.subrange(start as int, end as int),
            all_digits(sub.take(j - start)),
            acc == dec_value(sub.take(j - start)),
        decreases end - j,
    {
        let c = s.get_char(j);
        let d: u32 = c as u32;
        proof {
            assert(sub[j - start] == s@[j as int]);
        }
        if d < 48 || d > 57 {
            proof {
                assert(!is_digit(sub[j - start]));
            }
            return None;
        }
        let dv: u64 = (d - 48) as u64;
        proof {
            assert(is_digit(sub[j - start]));
            assert(dv == digit_val(sub[j - start]));
            assert(sub.take(j - start + 1).drop_last() =~= sub.take(j - start));
            assert(sub.take(j - start + 1).last() == sub[j - start]);
        }
        if acc > u64::MAX / 10 || 10 * acc > u64::MAX - dv {
            proof {
                assert(all_digits(sub.take(j - start + 1)));
                assert(dec_value(sub.take(j - start + 1)) == acc * 10 + dv);
                assert(dec_value(sub.take(j - start + 1)) > u64::MAX);
                if all_digits(sub) {
                    lemma_dec_value_prefix(sub, j - start + 1);
                    assert(dec_value(sub) > u64::MAX);
                }
                assert(!is_u64_number(sub));
            }
            return None;
        }
        acc = 10 * acc + dv;
        proof {
            assert(all_digits(sub.take(j - start + 1)));
            assert(acc == dec_value(sub.take(j - start + 1)));
        }
        j = j + 1;
    }
    proof {
        assert(sub.take(sub.len() as int) =~= sub);
    }
    Some(acc)
}

/// Validates a raw source URL against the grammar and extracts the stable
/// identifiers. Succeeds exactly on the URLs the grammar accepts; every
/// deviation is the single `InvalidCdnUrl` classification.
pub fn parse_url(url: &str) -> (r: Result<ParsedUrl, PKAvatarError>)
    ensures
        r matches Ok(p) ==> {
            &&& spec_parse_url(url@) matches Some(f)
            &&& p.channel_id == f.channel_id
            &&& p.attachment_id == f.attachment_id
            &&& p.filename@ == f.filename
            &&& p.full_url@ == url@
            &&& p.wf()
        },
        r is Ok <==> spec_parse_url(url@) is Some,
        r is Err ==> (r matches Err(PKAvatarError::InvalidCdnUrl)),
{
    let n = url.unicode_len();
    if n < 8 || !region_matches_folded(url, 0, 8, "https://") {
        return Err(PKAvatarError::InvalidCdnUrl);
    }
    let pe = match (find_char_from(url, '?', 8, n, n), find_char_from(url, '#', 8, n, n)) {
        (None, None) => n,
        (Some(i), None) => i,
        (None, Some(j)) => j,
        (Some(i), Some(j)) => if i <= j {
            i
        } else {
            j
        },
    };
    proof {
        assert(pe as int == path_end(url@));
    }
    let hs = match find_char_from(url, '/', 8, pe, n) {
        None => {
            return Err(PKAvatarError::InvalidCdnUrl);
        },
        Some(i) => i,
    };
    if !(region_matches_folded(url, 8, hs, "media.discordapp.net") || region_matches_folded(
        url,
        8,
        hs,
        "cdn.discordapp.com",
    )) {
        return Err(PKAvatarError::InvalidCdnUrl);
    }
    let p1 = match find_char_from(url, '/', hs + 1, pe, n) {
        None => {
            return Err(PKAvatarError::InvalidCdnUrl);
        },
        Some(i) => i,
    };
    let p2 = match find_char_from(url, '/', p1 + 1, pe, n) {
        None => {
            return Err(PKAvatarError::InvalidCdnUrl);
        },
        Some(i) => i,
    };
    let p3 = match find_char_from(url, '/', p2 + 1, pe, n) {
        None => {
            return Err(PKAvatarError::InvalidCdnUrl);
        },
        Some(i) => i,
    };
    if let Some(_) = find_char_from(url, '/', p3 + 1, pe, n) {
        return Err(PKAvatarError::InvalidCdnUrl);
    }
    let channel_id = match parse_u64_segment(url, p1 + 1, p2) {
        None => {
            return Err(PKAvatarError::InvalidCdnUrl);
        },
        Some(v) => v,
    };
    let attachment_id = match parse_u64_segment(url, p2 + 1, p3) {
        None => {
            return Err(PKAvatarError::InvalidCdnUrl);
        },
        Some(v) => v,
    };
    let filename = url.substring_char(p3 + 1, pe).to_owned();
    let full_url = url.to_owned();
    Ok(ParsedUrl { channel_id, attachment_id, filename, full_url })
}

/// One fetched payload: the raw bytes and the origin's declared metadata,
/// held only for the duration of a single ingestion attempt.
pub struct PullResult {
    pub data: Vec<u8>,
    pub content_type: String,
    pub last_modified: Option<String>,
}

/// The content types the fetcher accepts from an origin.
pub open spec fn allowed_content_type(ct: Seq<char>) -> bool {
    ||| ct == "image/jpeg"@
    ||| ct == "image/png"@
    ||| ct == "image/gif"@
    ||| ct == "image/webp"@
}

/// The media type of a content-type header value: everything before the
/// first ';' (parameters such as charset are ignored).
pub open spec fn media_type_of(ct: Seq<char>) -> Seq<char> {
    match find_char(ct, ';', 0, ct.len() as int) {
        None => ct,
        Some(i) => ct.subrange(0, i),
    }
}

/// String equality through views.
fn str_eq(a: &str, b: &str) -> (r: bool)
    ensures
        r == (a@ == b@),
{
    let sa = a.to_owned();
    let sb = b.to_owned();
    sa == sb
}

/// What a successful header check settles: the declared length (already
/// bounded) and the accepted media type.
pub struct ApprovedHeaders {
    pub declared_len: u64,
    pub content_type: String,
}

/// Validates an origin response's status line and headers, in the fixed
/// order: status, declared length present, declared length bounded, content
/// type present, content type allow-listed. Each deviation is its own error;
/// success hands back the declared length and the accepted media type.
pub fn check_response_headers(
    status: u16,
    content_length: Option<u64>,
    content_type: Option<&str>,
) -> (r: Result<ApprovedHeaders, PKAvatarError>)
    ensures
        (status != 200) ==> (r matches Err(PKAvatarError::BadCdnResponse(s)) && s == status),
        (status == 200 && content_length is None) ==> (r matches Err(PKAvatarError::MissingHeader(
            h,
        )) && h@ == "Content-Length"@),
        (status == 200 && content_length is Some && content_length.unwrap() > MAX_SIZE) ==> (
        r matches Err(PKAvatarError::ImageFileSizeTooLarge(a, m)) && a == content_length.unwrap()
            && m == MAX_SIZE),
        (status == 200 && content_length is Some && content_length.unwrap() <= MAX_SIZE
            && content_type is None) ==> (r matches Err(PKAvatarError::MissingHeader(h)) && h@
            == "Content-Type"@),
        (status == 200 && content_length is Some && content_length.unwrap() <= MAX_SIZE
            && content_type is Some && !allowed_content_type(
            media_type_of(content_type.unwrap()@),
        )) ==> (r matches Err(PKAvatarError::UnsupportedContentType(t)) && t@ == media_type_of(
            content_type.unwrap()@,
        )),
        (status == 200 && content_length is Some && content_length.unwrap() <= MAX_SIZE
            && content_type is Some && allowed_content_type(media_type_of(content_type.unwrap()@)))
            ==> (r matches Ok(ok) && ok.declared_len == content_length.unwrap()
            && ok.declared_len <= MAX_SIZE && ok.content_type@ == media_type_of(
            content_type.unwrap()@,
        )),
{
    if status != 200 {
        return Err(PKAvatarError::BadCdnResponse(status));
    }
    let declared_len = match content_length {
        None => {
            return Err(PKAvatarError::MissingHeader("Content-Length"));
        },
        Some(sz) => sz,
    };
    if declared_len > MAX_SIZE {
        return Err(PKAvatarError::ImageFileSizeTooLarge(declared_len, MAX_SIZE));
    }
    let ct = match content_type {
        None => {
            return Err(PKAvatarError::MissingHeader("Content-Type"));
        },
        Some(ct) => ct,
    };
    let ct_len = ct.unicode_len();
    let media = match find_char_from(ct, ';', 0, ct_len, ct_len) {
        None => ct.substring_char(0, ct_len),
        Some(i) => ct.substring_char(0, i),
    };
    proof {
        assert(media@ =~= media_type_of(ct@));
    }
    let ok = str_eq(media, "image/jpeg") || str_eq(media, "image/png") || str_eq(
        media,
        "image/gif",
    ) || str_eq(media, "image/webp");
    if !ok {
        return Err(PKAvatarError::UnsupportedContentType(media.to_owned()));
    }
    Ok(ApprovedHeaders { declared_len, content_type: media.to_owned() })
}

/// After the body is read, its actual length must match the declared one;
/// a mismatch means the origin misbehaved and the attempt is abandoned as an
/// internal inconsistency.
pub fn check_body_length(declared: u64, actual: usize) -> (r: Result<(), PKAvatarError>)
    ensures
        r is Ok <==> actual == declared,
        r is Err ==> (r matches Err(PKAvatarError::InternalError(_))),
{
    if actual as u64 == declared {
        Ok(())
    } else {
        Err(PKAvatarError::InternalError("server responded with wrong length".to_owned()))
    }
}

} // verus!
