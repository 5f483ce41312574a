use vstd::prelude::*;
use crate::{clone_string, ImageKind, PKAvatarError, PullResponse};
use crate::db::{add_spec, Catalog, ImageMeta, CATALOG_CAP, MAX_FILE_SIZE};
use crate::process::{
    gate_decode_failed, gate_header_unreadable,
    decoded_dims, gate_dims_too_large, gate_format_disallowed, gate_format_unknown, out_matches,
    pipeline_accepts, process, sniffed_format, header_dims, ProcessOutput,
};
use crate::pull::{parse_url, spec_parse_url, ParsedUrl, PullResult};
use crate::store::{plan_store, public_url, storage_path_of, StoreResult};

verus! {

/// Where one ingestion attempt stands between the outside steps the driver
/// performs (catalog lookup, network fetch, object-store put, metadata
/// insert). Each state carries everything the next verified step needs; the
/// terminal states are `Done` and `Failed`.
pub enum IngestState {
    /// Look the attachment id up in the catalog next.
    NeedDedup { parsed: ParsedUrl },
    /// Fetch the source URL next.
    NeedFetch { parsed: ParsedUrl },
    /// Upload the encoded bytes of `output` under `store.path` next.
    NeedStore {
        parsed: ParsedUrl,
        original_file_size: u64,
        original_type: String,
        output: ProcessOutput,
        store: StoreResult,
    },
    /// Insert the metadata row next.
    NeedRecord { meta: ImageMeta, url: String },
    /// The attempt finished; nothing outside is owed any more.
    Done { response: PullResponse },
    /// The attempt failed with a classified error.
    Failed { error: PKAvatarError },
}

/// Starts one ingestion attempt: validates the source URL, then asks for the
/// dedup lookup — or goes straight to the fetch when `force` bypasses
/// deduplication.
pub fn begin_ingest(raw_url: &str, force: bool) -> (st: IngestState)
    ensures
        spec_parse_url(raw_url@) is None <==> (st matches IngestState::Failed { error }
            && error matches PKAvatarError::InvalidCdnUrl),
        (spec_parse_url(raw_url@) is Some && !force) ==> (st matches IngestState::NeedDedup {
            parsed,
        } && parsed.wf() && parsed.full_url@ == raw_url@),
        (spec_parse_url(raw_url@) is Some && force) ==> (st matches IngestState::NeedFetch {
            parsed,
        } && parsed.wf() && parsed.full_url@ == raw_url@),
{
    let parsed = match parse_url(raw_url) {
        Err(_) => {
            return IngestState::Failed { error: PKAvatarError::InvalidCdnUrl };
        },
        Ok(p) => p,
    };
    if force {
        IngestState::NeedFetch { parsed }
    } else {
        IngestState::NeedDedup { parsed }
    }
}

/// Consumes the dedup lookup's answer: a hit short-circuits the attempt to
/// `Done` with the existing record's URL and `new == false` — no fetch, no
/// re-processing; a miss proceeds to the fetch.
pub fn on_dedup_result(parsed: ParsedUrl, existing: Option<&ImageMeta>) -> (st: IngestState)
    ensures
        existing matches Some(m) ==> (st matches IngestState::Done { response } && response.url@
            == m.url@ && response.new == false),
        existing is None ==> (st matches IngestState::NeedFetch { parsed: p } && p == parsed),
{
    match existing {
        Some(m) => IngestState::Done {
            response: PullResponse { url: clone_string(&m.url), new: false },
        },
        None => IngestState::NeedFetch { parsed },
    }
}

/// Consumes the fetch's outcome. A fetch error fails the attempt with that
/// error; a fetched payload runs the full processing pipeline here, and on
/// acceptance the attempt moves on to the store step with the artifact id and
/// path already settled.
pub fn on_fetch_result(
    parsed: ParsedUrl,
    kind: ImageKind,
    max_dim: u32,
    fetched: Result<PullResult, PKAvatarError>,
) -> (st: IngestState)
    ensures
        fetched matches Err(e) ==> (st matches IngestState::Failed { error } && error == e),
        fetched matches Ok(pr) ==> match st {
            IngestState::NeedStore { parsed: p2, original_file_size, original_type, output, store } => {
                &&& p2 == parsed
                &&& original_file_size == pr.data@.len()
                &&& original_type@ == pr.content_type@
                &&& pipeline_accepts(pr.data@, max_dim)
                &&& out_matches(output, decoded_dims(pr.data@).unwrap(), kind)
                &&& store.id@ == output.hash@
                &&& store.path@ == storage_path_of(output.hash@)
            },
            IngestState::Failed { error } => true,
            _ => false,
        },
        (fetched matches Ok(pr) && gate_format_unknown(pr.data@)) ==> (st
            matches IngestState::Failed { error } && error matches PKAvatarError::UnknownImageFormat),
        (fetched matches Ok(pr) && gate_format_disallowed(pr.data@)) ==> (st
            matches IngestState::Failed { error } && error matches PKAvatarError::UnsupportedImageFormat(f)
            && Some(f) == sniffed_format(fetched.unwrap().data@)),
        (fetched matches Ok(pr) && gate_dims_too_large(pr.data@, max_dim)) ==> (st
            matches IngestState::Failed { error } && error matches PKAvatarError::ImageDimensionsTooLarge(w, h, mw, mh)
            && header_dims(fetched.unwrap().data@) == Some((w, h)) && mw == max_dim && mh
            == max_dim),
        (fetched matches Ok(pr) && (gate_header_unreadable(pr.data@) || gate_decode_failed(
            pr.data@,
            max_dim,
        ))) ==> (st matches IngestState::Failed { error } && error
            matches PKAvatarError::ImageFormatError(_)),
        (fetched matches Ok(pr) && pipeline_accepts(pr.data@, max_dim)) ==> st
            is NeedStore,
{
    let pulled = match fetched {
        Err(e) => {
            return IngestState::Failed { error: e };
        },
        Ok(pr) => pr,
    };
    let output = match process(pulled.data.as_slice(), kind, max_dim) {
        Err(e) => {
            return IngestState::Failed { error: e };
        },
        Ok(out) => out,
    };
    proof {
        crate::hash::lemma_hex_of_ascii(crate::hash::sha256_of(output.data_webp@));
    }
    let store = plan_store(&output);
    let original_file_size = pulled.data.len() as u64;
    IngestState::NeedStore {
        parsed,
        original_file_size,
        original_type: pulled.content_type,
        output,
        store,
    }
}

/// Consumes the object-store put's status. A non-success status abandons the
/// attempt with a store error; success builds the full metadata record —
/// artifact fields from the pipeline output, provenance fields from the
/// source — and asks for the insert.
pub fn on_store_result(
    parsed: ParsedUrl,
    kind: ImageKind,
    original_file_size: u64,
    original_type: String,
    output: ProcessOutput,
    store: StoreResult,
    put_status: u16,
    base_url: &str,
    uploaded_by: Option<u64>,
    system_id: Option<u128>,
) -> (st: IngestState)
    requires
        output.data_webp@.len() <= MAX_FILE_SIZE,
    ensures
        put_status != 200 ==> (st matches IngestState::Failed { error } && error
            matches PKAvatarError::StoreError),
        put_status == 200 ==> (st matches IngestState::NeedRecord { meta, url } && {
            &&& url@ == base_url@ + store.path@
            &&& meta.id@ == store.id@
            &&& meta.url@ == url@
            &&& meta.kind == kind
            &&& meta.file_size == output.data_webp@.len()
            &&& meta.width == output.width
            &&& meta.height == output.height
            &&& meta.uploaded_at is None
            &&& meta.original_url matches Some(u) && u@ == parsed.full_url@
            &&& meta.original_attachment_id == Some(parsed.attachment_id)
            &&& meta.original_file_size == Some(original_file_size)
            &&& meta.original_type matches Some(t) && t@ == original_type@
            &&& meta.uploaded_by_account == uploaded_by
            &&& meta.uploaded_by_system == system_id
        }),
{
    match crate::store::check_put_status(put_status) {
        Err(e) => {
            return IngestState::Failed { error: e };
        },
        Ok(()) => {},
    }
    let url = public_url(base_url, store.path.as_str());
    let meta = ImageMeta {
        id: store.id,
        kind,
        url: clone_string(&url),
        file_size: output.data_webp.len() as u64,
        width: output.width,
        height: output.height,
        uploaded_at: None,
        original_url: Some(clone_string(&parsed.full_url)),
        original_attachment_id: Some(parsed.attachment_id),
        original_file_size: Some(original_file_size),
        original_type: Some(original_type),
        uploaded_by_account: uploaded_by,
        uploaded_by_system: system_id,
    };
    IngestState::NeedRecord { meta, url }
}

/// Performs the final step against the catalog: the idempotent insert. The
/// attempt is then done, answering with the public URL and whether this
/// attempt stored a new artifact (a concurrent or earlier attempt for the
/// same hash makes the insert a silent no-op and the answer `new == false`).
pub fn record_image(catalog: &mut Catalog, meta: ImageMeta, url: String) -> (st: IngestState)
    requires
        old(catalog).wf(),
        old(catalog).images().len() < CATALOG_CAP,
        meta.file_size <= MAX_FILE_SIZE,
    ensures
        final(catalog).wf(),
        final(catalog).images() == add_spec(old(catalog).images(), meta).0,
        final(catalog).pending() == old(catalog).pending(),
        final(catalog).claimed() == old(catalog).claimed(),
        final(catalog).next_id() == old(catalog).next_id(),
        st matches IngestState::Done { response } && response.url@ == url@ && response.new
            == add_spec(old(catalog).images(), meta).1,
{
    let is_new = catalog.add_image(meta);
    IngestState::Done { response: PullResponse { url, new: is_new } }
}

} // verus!
