use vstd::prelude::*;
use crate::{clone_string, PKAvatarError};
use crate::process::ProcessOutput;

verus! {

/// Where a stored artifact ended up: its id (the content hash) and its
/// public relative path.
pub struct StoreResult {
    pub id: String,
    pub path: String,
}

/// The deterministic object path for an artifact id: two hex characters of
/// sharding, then the rest of the hash, with the canonical extension.
pub open spec fn storage_path_of(hash: Seq<char>) -> Seq<char> {
    "images/"@ + hash.subrange(0, 2) + "/"@ + hash.subrange(2, hash.len() as int) + ".webp"@
}

/// Builds the storage path for an artifact id.
pub fn storage_path(hash: &str) -> (p: String)
    requires
        hash@.len() >= 2,
        vstd::utf8::is_ascii_chars(hash@),
    ensures
        p@ == storage_path_of(hash@),
{
    let n = hash.unicode_len();
    let prefix = hash.substring_ascii(0, 2);
    let rest = hash.substring_ascii(2, n);
    let mut p = "images/".to_owned();
    p.append(prefix);
    p.append("/");
    p.append(rest);
    p.append(".webp");
    p
}

/// The store accepts a put exactly when the backend answers 200; anything
/// else abandons the attempt with a store error.
pub fn check_put_status(status_code: u16) -> (r: Result<(), PKAvatarError>)
    ensures
        r is Ok <==> status_code == 200,
        r is Err ==> (r matches Err(PKAvatarError::StoreError)),
{
    if status_code == 200 {
        Ok(())
    } else {
        Err(PKAvatarError::StoreError)
    }
}

/// What storing an artifact settles before the backend is involved: the id is
/// the artifact's hash and the path is derived from it.
pub fn plan_store(out: &ProcessOutput) -> (r: StoreResult)
    requires
        out.hash@.len() == 64,
        vstd::utf8::is_ascii_chars(out.hash@),
    ensures
        r.id@ == out.hash@,
        r.path@ == storage_path_of(out.hash@),
{
    let id = clone_string(&out.hash);
    let path = storage_path(out.hash.as_str());
    StoreResult { id, path }
}

/// The public URL of a stored artifact: the configured base joined with the
/// artifact's path.
pub fn public_url(base_url: &str, path: &str) -> (r: String)
    ensures
        r@ == base_url@ + path@,
{
    let mut r = base_url.to_owned();
    r.append(path);
    r
}

} // verus!
