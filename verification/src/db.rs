use vstd::prelude::*;
use crate::ImageKind;

verus! {

/// One persisted image record, keyed by artifact id (the content hash). The
/// provenance fields (`original_*`, `uploaded_by_*`) are all present when the
/// record was ingested from a source URL and all absent when it was uploaded
/// directly.
pub struct ImageMeta {
    pub id: String,
    pub kind: ImageKind,
    pub url: String,
    pub file_size: u64,
    pub width: u32,
    pub height: u32,
    pub uploaded_at: Option<u64>,
    pub original_url: Option<String>,
    pub original_attachment_id: Option<u64>,
    pub original_file_size: Option<u64>,
    pub original_type: Option<String>,
    pub uploaded_by_account: Option<u64>,
    pub uploaded_by_system: Option<u128>,
}

/// Aggregate observability numbers over the image table.
pub struct Stats {
    pub total_images: i64,
    pub total_file_size: i64,
}

/// One backlog item: a source URL waiting to be migrated.
pub struct ImageQueueEntry {
    pub itemid: i32,
    pub url: String,
    pub kind: ImageKind,
}

/// Upper bound on how many rows the model holds; keeps aggregate arithmetic
/// inside machine integers.
pub const CATALOG_CAP: usize = 0x4000_0000;

/// Upper bound on a single record's stored file size (the relational schema
/// keeps it in a signed 32-bit column).
pub const MAX_FILE_SIZE: u64 = 0x7fff_ffff;

/// Some record in `s` already carries this artifact id.
pub open spec fn has_image_id(s: Seq<ImageMeta>, id: Seq<char>) -> bool {
    exists|i: int| 0 <= i < s.len() && (#[trigger] s[i]).id@ == id
}

/// Some record in `s` was ingested from this attachment.
pub open spec fn has_attachment(s: Seq<ImageMeta>, aid: u64) -> bool {
    exists|i: int| 0 <= i < s.len() && (#[trigger] s[i]).original_attachment_id == Some(aid)
}

/// Some record in `s` was ingested from this source URL.
pub open spec fn has_original_url(s: Seq<ImageMeta>, url: Seq<char>) -> bool {
    exists|i: int| 0 <= i < s.len() && ((#[trigger] s[i]).original_url matches Some(u) && u@
        == url)
}

/// Some queue entry in `s` has this item id.
pub open spec fn contains_item(s: Seq<ImageQueueEntry>, itemid: i32) -> bool {
    exists|i: int| 0 <= i < s.len() && (#[trigger] s[i]).itemid == itemid
}

/// Total stored file size over a sequence of records.
pub open spec fn sum_file_size(s: Seq<ImageMeta>) -> int
    decreases s.len(),
{
    if s.len() == 0 {
        0
    } else {
        sum_file_size(s.drop_last()) + s.last().file_size
    }
}

/// The effect of an idempotent insert on the image table: a no-op when the
/// artifact id is already present, an append otherwise; the flag says whether
/// the record is new.
pub open spec fn add_spec(s: Seq<ImageMeta>, m: ImageMeta) -> (Seq<ImageMeta>, bool) {
    if has_image_id(s, m.id@) {
        (s, false)
    } else {
        (s.push(m), true)
    }
}

/// The metadata catalog and the backlog queue it owns, modelled over plain
/// sequences. Pending entries are claimable; a claimed entry is handed to the
/// single worker that dequeued it, and only its item id is retained, marking
/// the in-flight transaction until the worker commits (the entry is gone for
/// good) or rolls back (the entry is claimable again).
pub struct Catalog {
    images: Vec<ImageMeta>,
    pending: Vec<ImageQueueEntry>,
    claimed: Vec<i32>,
    next_item_id: i32,
}

impl Catalog {
    /// The image table.
    pub closed spec fn images(&self) -> Seq<ImageMeta> {
        self.images@
    }

    /// Backlog entries a dequeue may claim.
    pub closed spec fn pending(&self) -> Seq<ImageQueueEntry> {
        self.pending@
    }

    /// Item ids currently held by an in-flight claim.
    pub closed spec fn claimed(&self) -> Seq<i32> {
        self.claimed@
    }

    /// The id the next enqueued entry will get.
    pub closed spec fn next_id(&self) -> i32 {
        self.next_item_id
    }

    /// Catalog invariant: artifact ids are unique, file sizes fit the storage
    /// column, row counts stay bounded, queue item ids are unique across the
    /// pending and claimed sets, and every issued id is below the next one.
    pub closed spec fn wf(&self) -> bool {
        &&& forall|i: int, j: int|
            0 <= i < j < self.images@.len() ==> (#[trigger] self.images@[i]).id@ != (
            #[trigger] self.images@[j]).id@
        &&& forall|i: int|
            0 <= i < self.images@.len() ==> (#[trigger] self.images@[i]).file_size <= MAX_FILE_SIZE
        &&& self.images@.len() <= CATALOG_CAP
        &&& self.pending@.len() + self.claimed@.len() <= CATALOG_CAP
        &&& forall|i: int, j: int|
            0 <= i < j < self.pending@.len() ==> (#[trigger] self.pending@[i]).itemid != (
            #[trigger] self.pending@[j]).itemid
        &&& forall|i: int, j: int|
            0 <= i < j < self.claimed@.len() ==> #[trigger] self.claimed@[i]
                != #[trigger] self.claimed@[j]
        &&& forall|i: int, j: int|
            0 <= i < self.pending@.len() && 0 <= j < self.claimed@.len() ==> (
            #[trigger] self.pending@[i]).itemid != #[trigger] self.claimed@[j]
        &&& forall|i: int|
            0 <= i < self.pending@.len() ==> (#[trigger] self.pending@[i]).itemid
                < self.next_item_id
        &&& forall|i: int|
            0 <= i < self.claimed@.len() ==> #[trigger] self.claimed@[i] < self.next_item_id
    }

    /// A fresh, empty catalog.
    pub fn new() -> (c: Catalog)
        ensures
            c.wf(),
            c.images() =~= Seq::<ImageMeta>::empty(),
            c.pending() =~= Seq::<ImageQueueEntry>::empty(),
            c.claimed() =~= Seq::<i32>::empty(),
            c.next_id() == 0,
    {
        Catalog { images: Vec::new(), pending: Vec::new(), claimed: Vec::new(), next_item_id: 0 }
    }

    /// Index of the record with this artifact id, if one exists.
    fn find_image_by_id(&self, id: &String) -> (r: Option<usize>)
        ensures
            r matches Some(i) ==> i < self.images().len() && self.images()[i as int].id@ == id@,
            r is None ==> !has_image_id(self.images(), id@),
    {
        let n = self.images.len();
        let mut i: usize = 0;
        while i < n
            invariant
                i <= n,
                n == self.images@.len(),
                forall|k: int| 0 <= k < i ==> (#[trigger] self.images@[k]).id@ != id@,
            decreases n - i,
        {
            if self.images[i].id == *id {
                return Some(i);
            }
            i = i + 1;
        }
        None
    }

    /// Index of an in-flight claim on this item id, if one exists.
    fn find_claim_index(&self, itemid: i32) -> (r: Option<usize>)
        ensures
            r matches Some(i) ==> i < self.claimed().len() && self.claimed()[i as int] == itemid,
            r is None ==> !self.claimed().contains(itemid),
    {
        let n = self.claimed.len();
        let mut i: usize = 0;
        while i < n
            invariant
                i <= n,
                n == self.claimed@.len(),
                forall|k: int| 0 <= k < i ==> #[trigger] self.claimed@[k] != itemid,
            decreases n - i,
        {
            if self.claimed[i] == itemid {
                return Some(i);
            }
            i = i + 1;
        }
        None
    }

    /// Index of the pending entry with the lowest item id.
    fn min_pending_index(&self) -> (r: usize)
        requires
            self.pending().len() > 0,
        ensures
            r < self.pending().len(),
            forall|j: int|
                0 <= j < self.pending().len() ==> self.pending()[r as int].itemid <= (
                #[trigger] self.pending()[j]).itemid,
    {
        let n = self.pending.len();
        let mut best: usize = 0;
        let mut i: usize = 1;
        while i < n
            invariant
                0 <= best < i <= n,
                n == self.pending@.len(),
                forall|j: int|
                    0 <= j < i ==> self.pending@[best as int].itemid <= (
                    #[trigger] self.pending@[j]).itemid,
            decreases n - i,
        {
            if self.pending[i].itemid < self.pending[best].itemid {
                best = i;
            }
            i = i + 1;
        }
        best
    }

    /// Dedup lookup: the record previously ingested from this attachment,
    /// if one exists.
    pub fn get_by_attachment_id(&self, attachment_id: u64) -> (r: Option<&ImageMeta>)
        ensures
            r matches Some(m) ==> has_attachment(self.images(), attachment_id)
                && m.original_attachment_id == Some(attachment_id) && exists|i: int|
                0 <= i < self.images().len() && self.images()[i] == *m,
            r is None ==> !has_attachment(self.images(), attachment_id),
    {
        let n = self.images.len();
        let mut i: usize = 0;
        while i < n
            invariant
                i <= n,
                n == self.images@.len(),
                forall|k: int|
                    0 <= k < i ==> (#[trigger] self.images@[k]).original_attachment_id != Some(
                        attachment_id,
                    ),
            decreases n - i,
        {
            match self.images[i].original_attachment_id {
                Some(aid) => {
                    if aid == attachment_id {
                        return Some(&self.images[i]);
                    }
                },
                None => {},
            }
            i = i + 1;
        }
        None
    }

    /// Secondary dedup lookup, keyed by the original source URL.
    pub fn get_by_original_url(&self, original_url: &str) -> (r: Option<&ImageMeta>)
        ensures
            r matches Some(m) ==> has_original_url(self.images(), original_url@) && (
            m.original_url matches Some(u) && u@ == original_url@) && exists|i: int|
                0 <= i < self.images().len() && self.images()[i] == *m,
            r is None ==> !has_original_url(self.images(), original_url@),
    {
        let target: String = original_url.to_owned();
        let n = self.images.len();
        let mut i: usize = 0;
        while i < n
            invariant
                i <= n,
                n == self.images@.len(),
                target@ == original_url@,
                forall|k: int|
                    0 <= k < i ==> !((#[trigger] self.images@[k]).original_url matches Some(u)
                        && u@ == original_url@),
            decreases n - i,
        {
            match &self.images[i].original_url {
                Some(u) => {
                    if *u == target {
                        return Some(&self.images[i]);
                    }
                },
                None => {},
            }
            i = i + 1;
        }
        None
    }

    /// Idempotent insert keyed by artifact id: never overwrites, and reports
    /// whether the record was newly stored.
    pub fn add_image(&mut self, meta: ImageMeta) -> (r: bool)
        requires
            old(self).wf(),
            old(self).images().len() < CATALOG_CAP,
            meta.file_size <= MAX_FILE_SIZE,
        ensures
            final(self).wf(),
            r == add_spec(old(self).images(), meta).1,
            final(self).images() == add_spec(old(self).images(), meta).0,
            r == !has_image_id(old(self).images(), meta.id@),
            final(self).pending() == old(self).pending(),
            final(self).claimed() == old(self).claimed(),
            final(self).next_id() == old(self).next_id(),
    {
        match self.find_image_by_id(&meta.id) {
            Some(_) => {
                proof {
                    assert(has_image_id(self.images@, meta.id@));
                }
                return false;
            },
            None => {},
        }
        self.images.push(meta);
        proof {
            assert(self.images@ =~= add_spec(old(self).images(), meta).0);
        }
        true
    }

    /// Number of backlog rows still present (claimable or held by an
    /// uncommitted claim).
    pub fn get_queue_length(&self) -> (n: i64)
        requires
            self.wf(),
        ensures
            n == self.pending().len() + self.claimed().len(),
    {
        self.pending.len() as i64 + self.claimed.len() as i64
    }

    /// Aggregates over the image table: row count and total stored bytes.
    pub fn get_stats(&self) -> (s: Stats)
        requires
            self.wf(),
        ensures
            s.total_images == self.images().len(),
            s.total_file_size == sum_file_size(self.images()),
    {
        let n = self.images.len();
        let mut total: i64 = 0;
        let mut i: usize = 0;
        while i < n
            invariant
                i <= n,
                n == self.images@.len() <= CATALOG_CAP,
                forall|k: int|
                    0 <= k < n ==> (#[trigger] self.images@[k]).file_size <= MAX_FILE_SIZE,
                total == sum_file_size(self.images@.take(i as int)),
                0 <= total <= i * 0x1_0000_0000,
            decreases n - i,
        {
            let fs = self.images[i].file_size;
            proof {
                assert(self.images@.take(i + 1 as int).drop_last() =~= self.images@.take(i as int));
                assert(self.images@.take(i + 1 as int).last() == self.images@[i as int]);
            }
            total = total + fs as i64;
            i = i + 1;
        }
        proof {
            assert(self.images@.take(n as int) =~= self.images@);
        }
        Stats { total_images: n as i64, total_file_size: total }
    }

    /// Appends a backlog entry under a fresh item id.
    pub fn push_queue(&mut self, url: &str, kind: ImageKind)
        requires
            old(self).wf(),
            old(self).next_id() < i32::MAX,
            old(self).pending().len() + old(self).claimed().len() < CATALOG_CAP,
        ensures
            final(self).wf(),
            final(self).pending().len() == old(self).pending().len() + 1,
            final(self).pending() == old(self).pending().push(final(self).pending().last()),
            final(self).pending().last().itemid == old(self).next_id(),
            final(self).pending().last().url@ == url@,
            final(self).pending().last().kind == kind,
            final(self).claimed() == old(self).claimed(),
            final(self).images() == old(self).images(),
            final(self).next_id() == old(self).next_id() + 1,
    {
        let entry = ImageQueueEntry { itemid: self.next_item_id, url: url.to_owned(), kind };
        self.pending.push(entry);
        self.next_item_id = self.next_item_id + 1;
    }

    /// Claims exactly one pending entry — the lowest item id — handing it to
    /// the caller and marking its id claimed until the caller commits or
    /// rolls the claim back. Two claims can never hold the same entry, and a
    /// claim never waits on another: entries already claimed are simply not
    /// candidates.
    pub fn pop_queue(&mut self) -> (r: Option<ImageQueueEntry>)
        requires
            old(self).wf(),
        ensures
            final(self).wf(),
            final(self).images() == old(self).images(),
            final(self).next_id() == old(self).next_id(),
            r is None ==> old(self).pending().len() == 0 && final(self).pending() == old(self).pending() && final(self).claimed() == old(self).claimed(),
            r matches Some(e) ==> {
                &&& exists|i: int|
                    0 <= i < old(self).pending().len() && old(self).pending()[i] == e && final(self).pending() == old(self).pending().remove(i)
                &&& forall|j: int|
                    0 <= j < old(self).pending().len() ==> e.itemid <= (#[trigger] old(self).pending()[j]).itemid
                &&& final(self).claimed() == old(self).claimed().push(e.itemid)
                &&& !contains_item(final(self).pending(), e.itemid)
                &&& final(self).claimed().contains(e.itemid)
            },
    {
        if self.pending.len() == 0 {
            return None;
        }
        let best = self.min_pending_index();
        let e = self.pending.remove(best);
        self.claimed.push(e.itemid);
        proof {
            assert(!contains_item(self.pending@, e.itemid));
            assert(self.claimed@[self.claimed@.len() - 1] == e.itemid);
        }
        Some(e)
    }

    /// Commits an in-flight claim: the entry is deleted for good, never to be
    /// claimable again.
    pub fn commit_claim(&mut self, itemid: i32)
        requires
            old(self).wf(),
        ensures
            final(self).wf(),
            final(self).images() == old(self).images(),
            final(self).pending() == old(self).pending(),
            final(self).next_id() == old(self).next_id(),
            !old(self).claimed().contains(itemid) ==> final(self).claimed() == old(self).claimed(),
            old(self).claimed().contains(itemid) ==> exists|i: int|
                0 <= i < old(self).claimed().len() && old(self).claimed()[i] == itemid && final(self).claimed() == old(self).claimed().remove(i),
            !final(self).claimed().contains(itemid),
            !contains_item(old(self).pending(), itemid) ==> !contains_item(
                final(self).pending(),
                itemid,
            ),
    {
        match self.find_claim_index(itemid) {
            Some(i) => {
                self.claimed.remove(i);
                proof {
                    assert forall|j: int| 0 <= j < self.claimed@.len() implies #[trigger] self
                        .claimed@[j] != itemid by {
                        if j < i {
                            assert(self.claimed@[j] == old(self).claimed()[j]);
                        } else {
                            assert(self.claimed@[j] == old(self).claimed()[j + 1]);
                        }
                    }
                    assert(!self.claimed@.contains(itemid));
                }
            },
            None => {
                proof {
                    assert(!self.claimed@.contains(itemid));
                }
            },
        }
    }

    /// Rolls an in-flight claim back, the worker returning the entry it
    /// holds: the entry reappears in the pending set and is claimable by a
    /// later dequeue.
    pub fn rollback_claim(&mut self, entry: ImageQueueEntry)
        requires
            old(self).wf(),
        ensures
            final(self).wf(),
            final(self).images() == old(self).images(),
            final(self).next_id() == old(self).next_id(),
            !old(self).claimed().contains(entry.itemid) ==> final(self).claimed() == old(self).claimed() && final(self).pending() == old(self).pending(),
            old(self).claimed().contains(entry.itemid) ==> (exists|i: int|
                0 <= i < old(self).claimed().len() && old(self).claimed()[i] == entry.itemid
                    && final(self).claimed() == old(self).claimed().remove(i)) && final(self).pending() == old(self).pending().push(entry) && contains_item(
                final(self).pending(),
                entry.itemid,
            ),
    {
        match self.find_claim_index(entry.itemid) {
            Some(i) => {
                self.claimed.remove(i);
                proof {
                    assert forall|j: int| 0 <= j < self.claimed@.len() implies #[trigger] self
                        .claimed@[j] != entry.itemid by {
                        if j < i {
                            assert(self.claimed@[j] == old(self).claimed()[j]);
                        } else {
                            assert(self.claimed@[j] == old(self).claimed()[j + 1]);
                        }
                    }
                }
                let ghost eid = entry.itemid;
                self.pending.push(entry);
                proof {
                    assert(self.pending@[self.pending@.len() - 1].itemid == eid);
                    assert(contains_item(self.pending@, eid));
                }
            },
            None => {},
        }
    }
}

/// Idempotence of the insert: adding a record under a fresh artifact id
/// reports it new; adding any record under that same id afterwards reports it
/// known and leaves the table unchanged.
pub proof fn lemma_insert_idempotent(s: Seq<ImageMeta>, m1: ImageMeta, m2: ImageMeta)
    requires
        m1.id@ == m2.id@,
        !has_image_id(s, m1.id@),
    ensures
        add_spec(s, m1).1 == true,
        add_spec(add_spec(s, m1).0, m2).1 == false,
        add_spec(add_spec(s, m1).0, m2).0 == add_spec(s, m1).0,
{
    let s1 = s.push(m1);
    assert(s1[s.len() as int].id@ == m2.id@);
    assert(has_image_id(s1, m2.id@));
}

/// At-most-once handout: while one worker holds a claim on an item id, no
/// dequeue can return an entry with that id.
pub proof fn lemma_claim_exclusive(c: &Catalog, itemid: i32)
    requires
        c.wf(),
        c.claimed().contains(itemid),
    ensures
        forall|j: int| 0 <= j < c.pending().len() ==> (#[trigger] c.pending()[j]).itemid != itemid,
{
    let i = choose|i: int| 0 <= i < c.claimed().len() && c.claimed()[i] == itemid;
}

} // verus!
