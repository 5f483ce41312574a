use vstd::prelude::*;
use crate::{bounding_box, classification, ErrorClass, PKAvatarError};
use crate::db::{add_spec, contains_item, has_attachment, Catalog, ImageMeta, ImageQueueEntry,
    CATALOG_CAP, MAX_FILE_SIZE};
use crate::hash::artifact_id_of;
use crate::ingest::{on_fetch_result, on_store_result, IngestState};
use crate::process::{decoded_dims, gate_decode_failed, gate_dims_too_large,
    gate_format_disallowed, gate_format_unknown, gate_header_unreadable, pipeline_accepts};
use crate::pull::{parse_url, spec_parse_url, PullResult};
use crate::store::storage_path_of;

verus! {

/// What a worker does with the claimed queue row after one attempt.
#[derive(Clone, Copy, Debug, PartialEq, Eq, Structural)]
pub enum QueueAction {
    /// The item was migrated (or already was): commit, the row is gone.
    Done,
    /// The item can never be migrated as-is: commit anyway, consuming it.
    Skip,
    /// A transient or internal failure: roll back so the item is retried.
    Retry,
}

/// The single policy deciding a claimed row's fate from an attempt's outcome,
/// shared by every worker: commit on success, commit-as-skip on permanently
/// unmigratable items, roll back everything else.
pub open spec fn disposition_of(outcome: Result<(), PKAvatarError>) -> QueueAction {
    match outcome {
        Ok(u) => QueueAction::Done,
        Err(e) => if classification(e) == ErrorClass::Permanent {
            QueueAction::Skip
        } else {
            QueueAction::Retry
        },
    }
}

/// Decides a claimed row's fate from an attempt's outcome.
pub fn queue_disposition(outcome: &Result<(), PKAvatarError>) -> (a: QueueAction)
    ensures
        a == disposition_of(*outcome),
{
    match outcome {
        Ok(_) => QueueAction::Done,
        Err(e) => match e.classify() {
            ErrorClass::Permanent => QueueAction::Skip,
            ErrorClass::Transient => QueueAction::Retry,
            ErrorClass::Internal => QueueAction::Retry,
        },
    }
}

/// The attachment id a queue item's (valid) URL names.
pub open spec fn item_aid(item: ImageQueueEntry) -> u64 {
    spec_parse_url(item.url@).unwrap().attachment_id as u64
}

/// What the record written for a migrated item looks like: the artifact
/// fields are content-addressed (the id is the 64-hex content hash of the
/// stored bytes, the URL is the base joined with the id's sharded path), the
/// dimensions never upscale the decoded payload, and every provenance field
/// is present — never partially populated.
pub open spec fn recorded_meta_ok(
    m: ImageMeta,
    item: ImageQueueEntry,
    pr: PullResult,
    base_url: Seq<char>,
) -> bool {
    &&& m.kind == item.kind
    &&& m.id@.len() == 64
    &&& m.url@ == base_url + storage_path_of(m.id@)
    &&& exists|b: Seq<u8>|
        #![auto]
        m.id@ == artifact_id_of(b) && b.len() == m.file_size && b.len() > 0
    &&& m.file_size <= MAX_FILE_SIZE
    &&& 1 <= m.width && 1 <= m.height
    &&& {
        let dd = decoded_dims(pr.data@).unwrap();
        (dd.0 <= bounding_box(item.kind).0 && dd.1 <= bounding_box(item.kind).1) ==> (m.width
            == dd.0 && m.height == dd.1)
    }
    &&& m.uploaded_at is None
    &&& m.original_url matches Some(u) && u@ == item.url@
    &&& m.original_attachment_id == Some(item_aid(item))
    &&& m.original_file_size == Some(pr.data@.len() as u64)
    &&& m.original_type matches Some(t) && t@ == pr.content_type@
    &&& m.uploaded_by_account is None
    &&& m.uploaded_by_system is None
}

/// Drives one backlog item through the ingestion steps against the catalog:
/// validate the URL, dedup-check, then consume the fetch outcome and the
/// object-store status the driver experienced, recording the metadata on
/// success. The queue itself is untouched; `handle_item` owns the claim.
///
/// On the full path (valid URL, no dedup hit, accepted payload, stored with
/// success) the attempt succeeds and records the content-addressed row; the
/// one internal residue is an encoded artifact too large for the storage
/// column, which fails the attempt as internal and records nothing.
pub fn handle_item_inner(
    catalog: &mut Catalog,
    item: &ImageQueueEntry,
    fetched: Result<PullResult, PKAvatarError>,
    put_status: u16,
    max_dim: u32,
    base_url: &str,
) -> (r: Result<(), PKAvatarError>)
    requires
        old(catalog).wf(),
        old(catalog).images().len() < CATALOG_CAP,
    ensures
        final(catalog).wf(),
        final(catalog).pending() == old(catalog).pending(),
        final(catalog).claimed() == old(catalog).claimed(),
        final(catalog).next_id() == old(catalog).next_id(),
        r is Err ==> final(catalog).images() == old(catalog).images(),
        attempt_post(
            old(catalog).images(),
            final(catalog).images(),
            *item,
            fetched,
            put_status,
            max_dim,
            base_url@,
            r,
        ),
{
    let parsed = match parse_url(item.url.as_str()) {
        Err(e) => {
            return Err(e);
        },
        Ok(p) => p,
    };
    match catalog.get_by_attachment_id(parsed.attachment_id) {
        Some(_) => {
            return Ok(());
        },
        None => {},
    }
    let kind = item.kind;
    let st = on_fetch_result(parsed, kind, max_dim, fetched);
    let (parsed, original_file_size, original_type, output, store) = match st {
        IngestState::Failed { error } => {
            return Err(error);
        },
        IngestState::NeedStore { parsed, original_file_size, original_type, output, store } => (
            parsed,
            original_file_size,
            original_type,
            output,
            store,
        ),
        _ => {
            return Err(PKAvatarError::InternalError(String::new()));
        },
    };
    match crate::store::check_put_status(put_status) {
        Err(e) => {
            return Err(e);
        },
        Ok(()) => {},
    }
    if output.data_webp.len() as u64 > MAX_FILE_SIZE {
        return Err(PKAvatarError::InternalError("encoded artifact too large".to_owned()));
    }
    let ghost gout = output;
    let st2 = on_store_result(
        parsed,
        kind,
        original_file_size,
        original_type,
        output,
        store,
        put_status,
        base_url,
        None,
        None,
    );
    match st2 {
        IngestState::NeedRecord { meta, url: _ } => {
            let ghost gm = meta;
            let _ = catalog.add_image(meta);
            proof {
                assert(gm.id@ == artifact_id_of(gout.data_webp@) && gout.data_webp@.len()
                    == gm.file_size && gout.data_webp@.len() > 0);
                assert(recorded_meta_ok(gm, *item, fetched->Ok_0, base_url@));
            }
            Ok(())
        },
        IngestState::Failed { error } => Err(error),
        _ => Err(PKAvatarError::InternalError(String::new())),
    }
}

/// Everything one ingestion attempt for `item` settles about the image table
/// and its result, for every combination of the outside events (the fetch
/// outcome and the put status): each failure mode yields its own error, a
/// dedup hit or a permanent failure leaves the table unchanged, and the full
/// successful path records the content-addressed row.
pub open spec fn attempt_post(
    old_images: Seq<ImageMeta>,
    new_images: Seq<ImageMeta>,
    item: ImageQueueEntry,
    fetched: Result<PullResult, PKAvatarError>,
    put_status: u16,
    max_dim: u32,
    base_url: Seq<char>,
    r: Result<(), PKAvatarError>,
) -> bool {
    let parse = spec_parse_url(item.url@);
    let hit = parse is Some && has_attachment(old_images, item_aid(item));
    let data = (fetched->Ok_0).data@;
    &&& parse is None ==> (r matches Err(PKAvatarError::InvalidCdnUrl))
    &&& hit ==> (r is Ok && new_images == old_images)
    &&& (parse is Some && !hit && fetched is Err) ==> (r matches Err(e2) && e2 == fetched->Err_0)
    &&& (parse is Some && !hit && fetched is Ok && gate_format_unknown(data)) ==> (r matches Err(
        PKAvatarError::UnknownImageFormat,
    ))
    &&& (parse is Some && !hit && fetched is Ok && gate_format_disallowed(data)) ==> (r
        matches Err(PKAvatarError::UnsupportedImageFormat(_)))
    &&& (parse is Some && !hit && fetched is Ok && gate_dims_too_large(data, max_dim)) ==> (r
        matches Err(PKAvatarError::ImageDimensionsTooLarge(_, _, _, _)))
    &&& (parse is Some && !hit && fetched is Ok && (gate_header_unreadable(data)
        || gate_decode_failed(data, max_dim))) ==> (r matches Err(PKAvatarError::ImageFormatError(
        _,
    )))
    &&& (parse is Some && !hit && fetched is Ok && pipeline_accepts(data, max_dim) && put_status
        != 200) ==> (r matches Err(PKAvatarError::StoreError))
    &&& (parse is Some && !hit && fetched is Ok && pipeline_accepts(data, max_dim) && put_status
        == 200) ==> ((r is Ok && exists|m: ImageMeta|
        #![auto]
        new_images == add_spec(old_images, m).0 && recorded_meta_ok(
            m,
            item,
            fetched->Ok_0,
            base_url,
        )) || (r matches Err(PKAvatarError::InternalError(_))))
    &&& r is Ok ==> (new_images == old_images || exists|m: ImageMeta|
        #![auto]
        new_images == old_images.push(m) && m.original_attachment_id == Some(item_aid(item)))
}

/// Everything one worker turn settles, for the claimed item at index `i` of
/// the pending set (always the lowest item id): the claim's fate follows the
/// attempt's outcome — the item is gone for good exactly when the result is
/// success (the attempt succeeded or failed permanently), and claimable
/// again exactly when it is an error (a transient or internal failure, which
/// the turn surfaces); the image table changes only when the full successful
/// path records the content-addressed row.
pub open spec fn turn_post(
    old_c: Catalog,
    new_c: Catalog,
    i: int,
    fetched: Result<PullResult, PKAvatarError>,
    put_status: u16,
    max_dim: u32,
    base_url: Seq<char>,
    r: Result<(), PKAvatarError>,
) -> bool {
    let e = old_c.pending()[i];
    let parse = spec_parse_url(e.url@);
    let hit = parse is Some && has_attachment(old_c.images(), item_aid(e));
    let data = (fetched->Ok_0).data@;
    &&& 0 <= i < old_c.pending().len()
    &&& forall|j: int|
        0 <= j < old_c.pending().len() ==> e.itemid <= (#[trigger] old_c.pending()[j]).itemid
    &&& r is Ok ==> (new_c.pending() == old_c.pending().remove(i) && !contains_item(
        new_c.pending(),
        e.itemid,
    ))
    &&& r is Err ==> (new_c.pending() == old_c.pending().remove(i).push(e) && contains_item(
        new_c.pending(),
        e.itemid,
    ))
    &&& parse is None ==> (r is Ok && new_c.images() == old_c.images())
    &&& hit ==> (r is Ok && new_c.images() == old_c.images())
    &&& (parse is Some && !hit && fetched is Err && classification(fetched->Err_0)
        == ErrorClass::Permanent) ==> (r is Ok && new_c.images() == old_c.images())
    &&& (parse is Some && !hit && fetched is Err && classification(fetched->Err_0)
        != ErrorClass::Permanent) ==> (r matches Err(e2) && e2 == fetched->Err_0 && new_c.images()
        == old_c.images())
    &&& (parse is Some && !hit && fetched is Ok && !pipeline_accepts(data, max_dim)) ==> (r is Ok
        && new_c.images() == old_c.images())
    &&& (parse is Some && !hit && fetched is Ok && pipeline_accepts(data, max_dim) && put_status
        != 200) ==> (r matches Err(PKAvatarError::StoreError) && new_c.images() == old_c.images())
    &&& (parse is Some && !hit && fetched is Ok && pipeline_accepts(data, max_dim) && put_status
        == 200) ==> ((r is Ok && exists|m: ImageMeta|
        #![auto]
        new_c.images() == add_spec(old_c.images(), m).0 && recorded_meta_ok(
            m,
            e,
            fetched->Ok_0,
            base_url,
        )) || (r matches Err(PKAvatarError::InternalError(_)) && new_c.images() == old_c.images()))
    &&& r is Ok ==> (new_c.images() == old_c.images() || exists|m: ImageMeta|
        #![auto]
        new_c.images() == old_c.images().push(m) && m.original_attachment_id == Some(item_aid(e)))
}

/// Claimed ids are restored exactly when the one pushed id is taken back out.
proof fn lemma_claim_set_restored(s: Seq<i32>, x: i32, t: Seq<i32>)
    requires
        forall|k: int| 0 <= k < s.len() ==> #[trigger] s[k] != x,
        exists|k: int|
            0 <= k < s.push(x).len() && s.push(x)[k] == x && t == s.push(x).remove(k),
    ensures
        t == s,
{
    let k = choose|k: int|
        0 <= k < s.push(x).len() && s.push(x)[k] == x && t == s.push(x).remove(k);
    if k < s.len() {
        assert(s[k] == x);
    }
    assert(s.push(x).remove(s.len() as int) =~= s);
    assert(t =~= s);
}

/// One worker turn: claim one backlog item (if any), drive it through the
/// ingestion steps, and settle the claim by the shared policy — commit when
/// the item was migrated or can never be (so it is gone for good), roll back
/// otherwise (so the item is claimable again). The result is an error exactly
/// when the claim was rolled back, and never a permanent one: a transient
/// fetch failure surfaces as that error with the item retried later, while a
/// permanently unmigratable item is consumed silently.
pub fn handle_item(
    catalog: &mut Catalog,
    fetched: Result<PullResult, PKAvatarError>,
    put_status: u16,
    max_dim: u32,
    base_url: &str,
) -> (r: Result<(), PKAvatarError>)
    requires
        old(catalog).wf(),
        old(catalog).images().len() < CATALOG_CAP,
    ensures
        final(catalog).wf(),
        final(catalog).next_id() == old(catalog).next_id(),
        final(catalog).claimed() == old(catalog).claimed(),
        old(catalog).pending().len() == 0 ==> (r is Ok && final(catalog).pending() == old(
            catalog,
        ).pending() && final(catalog).images() == old(catalog).images()),
        r matches Err(e) ==> classification(e) != ErrorClass::Permanent,
        r is Err ==> final(catalog).images() == old(catalog).images(),
        old(catalog).pending().len() > 0 ==> exists|i: int|
            #![auto]
            turn_post(
                *old(catalog),
                *final(catalog),
                i,
                fetched,
                put_status,
                max_dim,
                base_url@,
                r,
            ),
{
    let item = match catalog.pop_queue() {
        None => {
            return Ok(());
        },
        Some(e) => e,
    };
    let ghost gi = choose|i: int|
        0 <= i < old(catalog).pending().len() && old(catalog).pending()[i] == item && catalog
            .pending() == old(catalog).pending().remove(i);
    let ghost gitem = item;
    proof {
        if old(catalog).claimed().contains(gitem.itemid) {
            crate::db::lemma_claim_exclusive(old(catalog), gitem.itemid);
            assert(old(catalog).pending()[gi].itemid != gitem.itemid);
        }
        assert(forall|k: int|
            0 <= k < old(catalog).claimed().len() ==> #[trigger] old(catalog).claimed()[k]
                != gitem.itemid);
    }
    let outcome = handle_item_inner(catalog, &item, fetched, put_status, max_dim, base_url);
    match queue_disposition(&outcome) {
        QueueAction::Done => {
            catalog.commit_claim(item.itemid);
            proof {
                lemma_claim_set_restored(
                    old(catalog).claimed(),
                    gitem.itemid,
                    catalog.claimed(),
                );
                assert(turn_post(
                    *old(catalog),
                    *catalog,
                    gi,
                    fetched,
                    put_status,
                    max_dim,
                    base_url@,
                    Ok(()),
                ));
            }
            Ok(())
        },
        QueueAction::Skip => {
            catalog.commit_claim(item.itemid);
            proof {
                lemma_claim_set_restored(
                    old(catalog).claimed(),
                    gitem.itemid,
                    catalog.claimed(),
                );
                assert(turn_post(
                    *old(catalog),
                    *catalog,
                    gi,
                    fetched,
                    put_status,
                    max_dim,
                    base_url@,
                    Ok(()),
                ));
            }
            Ok(())
        },
        QueueAction::Retry => {
            catalog.rollback_claim(item);
            proof {
                lemma_claim_set_restored(
                    old(catalog).claimed(),
                    gitem.itemid,
                    catalog.claimed(),
                );
                assert(turn_post(
                    *old(catalog),
                    *catalog,
                    gi,
                    fetched,
                    put_status,
                    max_dim,
                    base_url@,
                    outcome,
                ));
            }
            outcome
        },
    }
}

} // verus!
