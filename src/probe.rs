use vstd::prelude::*;
use vstd::string::StringExecFns;
use crate::digest::{compute_crc32c_hash, crc32c_field_of, crc32c_of, get_content_type, mime_of};
use crate::model::UploadItem;

verus! {

/// One file of an existence probe.
pub struct FileCheckItem {
    /// Path relative to the watched root.
    pub file_name: String,
    pub content_type: String,
    /// Base64 of the big-endian CRC-32C of the content.
    pub crc32c: Option<String>,
}

/// The server's answer for one file of a probe.
pub struct FileCheckResult {
    pub file_name: String,
    pub crc32c: Option<String>,
    /// `exists` or `needs_upload`.
    pub status: String,
    pub file_id: String,
    pub upload_url: Option<String>,
}

/// What the server said of one file.
pub enum Verdict {
    /// The server already holds this content: nothing to send.
    Exists,
    /// The content must be sent to `upload_url`, then finalised under `file_id`.
    NeedsUpload { upload_url: Option<String>, file_id: String },
    /// A status this client does not know.
    Unrecognized,
}

/// A copy of an optional string.
pub fn copy_option(o: &Option<String>) -> (r: Option<String>)
    ensures
        r == *o,
{
    match o {
        Some(s) => Some(s.clone()),
        None => None,
    }
}

impl FileCheckResult {
    /// A field-by-field copy.
    pub fn copy(&self) -> (r: Self)
        ensures
            r == *self,
    {
        FileCheckResult {
            file_name: self.file_name.clone(),
            crc32c: copy_option(&self.crc32c),
            status: self.status.clone(),
            file_id: self.file_id.clone(),
            upload_url: copy_option(&self.upload_url),
        }
    }
}

/// The probe entry for `item` whose content is `content`.
pub fn file_check_item(item: &UploadItem, content: &[u8]) -> (r: FileCheckItem)
    ensures
        r.file_name == item.relative_path,
        r.content_type@ == mime_of(item.path@),
        r.crc32c matches Some(c) && c@ == crc32c_field_of(crc32c_of(content@)),
{
    FileCheckItem {
        file_name: item.relative_path.clone(),
        content_type: get_content_type(item.path.as_str()),
        crc32c: Some(compute_crc32c_hash(content)),
    }
}

/// The `Content-Type` sent with the content of the file at `file_path`.
pub fn content_type_of(file_path: &str) -> (r: String)
    ensures
        r@ == mime_of(file_path@),
{
    get_content_type(file_path)
}

/// Reads a probe answer's status.
pub fn classify(result: FileCheckResult) -> (r: Verdict)
    ensures
        result.status@ == "exists"@ ==> r == Verdict::Exists,
        result.status@ == "needs_upload"@ ==> r == (Verdict::NeedsUpload {
            upload_url: result.upload_url,
            file_id: result.file_id,
        }),
        result.status@ != "exists"@ && result.status@ != "needs_upload"@ ==> r
            == Verdict::Unrecognized,
{
    let exists = "exists".to_owned();
    let needs_upload = "needs_upload".to_owned();
    proof {
        reveal_strlit("exists");
        reveal_strlit("needs_upload");
        assert("exists"@.len() != "needs_upload"@.len());
    }
    if result.status == exists {
        Verdict::Exists
    } else if result.status == needs_upload {
        Verdict::NeedsUpload { upload_url: result.upload_url, file_id: result.file_id }
    } else {
        Verdict::Unrecognized
    }
}

/// Index of the first item whose relative path is `name`.
pub open spec fn find_name(items: Seq<UploadItem>, name: Seq<char>) -> Option<int>
    decreases items.len(),
{
    if items.len() == 0 {
        None
    } else {
        match find_name(items.drop_last(), name) {
            Some(i) => Some(i),
            None => if items.last().relative_path@ == name {
                Some(items.len() - 1)
            } else {
                None
            },
        }
    }
}

/// Each answer, in order, paired with the first sent item of its name;
/// answers that name no sent item are left out.
pub open spec fn matched_pairs(items: Seq<UploadItem>, results: Seq<FileCheckResult>) -> Seq<
    (UploadItem, FileCheckResult),
>
    decreases results.len(),
{
    if results.len() == 0 {
        seq![]
    } else {
        let prev = matched_pairs(items, results.drop_last());
        match find_name(items, results.last().file_name@) {
            Some(i) => prev.push((items[i], results.last())),
            None => prev,
        }
    }
}

/// A first match in a prefix stays the first match of the whole.
proof fn lemma_find_name_extends(s: Seq<UploadItem>, n: int, name: Seq<char>)
    requires
        0 <= n <= s.len(),
        find_name(s.take(n), name) is Some,
    ensures
        find_name(s, name) == find_name(s.take(n), name),
        0 <= find_name(s, name)->0 < n,
    decreases s.len() - n,
{
    if n < s.len() {
        assert(s.take(n + 1).drop_last() =~= s.take(n));
        lemma_find_name_extends(s, n + 1, name);
    } else {
        assert(s.take(n) =~= s);
    }
    lemma_find_name_range(s.take(n), name);
}

/// A found index lies in the sequence.
proof fn lemma_find_name_range(s: Seq<UploadItem>, name: Seq<char>)
    ensures
        find_name(s, name) matches Some(i) ==> 0 <= i < s.len() && s[i].relative_path@ == name,
    decreases s.len(),
{
    if s.len() > 0 {
        lemma_find_name_range(s.drop_last(), name);
    }
}

/// The first item whose relative path is `name`.
fn find_item(items: &Vec<UploadItem>, name: &String) -> (r: Option<usize>)
    ensures
        match r {
            Some(i) => find_name(items@, name@) == Some(i as int) && i < items@.len(),
            None => find_name(items@, name@) is None,
        },
{
    let mut i: usize = 0;
    assert(items@.take(0) =~= Seq::<UploadItem>::empty());
    while i < items.len()
        invariant
            i <= items@.len(),
            find_name(items@.take(i as int), name@) is None,
        decreases items@.len() - i,
    {
        assert(items@.take(i + 1).drop_last() =~= items@.take(i as int));
        if items[i].relative_path == *name {
            proof {
                lemma_find_name_extends(items@, i + 1, name@);
            }
            return Some(i);
        }
        i = i + 1;
    }
    assert(items@.take(i as int) =~= items@);
    None
}

/// Pairs the probe's answers with the items that were sent.
pub fn match_results(valid_items: &Vec<UploadItem>, results: Vec<FileCheckResult>) -> (r: Vec<
    (UploadItem, FileCheckResult),
>)
    ensures
        r@ == matched_pairs(valid_items@, results@),
{
    let mut out: Vec<(UploadItem, FileCheckResult)> = Vec::new();
    let mut i: usize = 0;
    while i < results.len()
        invariant
            i <= results@.len(),
            out@ == matched_pairs(valid_items@, results@.take(i as int)),
        decreases results@.len() - i,
    {
        assert(results@.take(i + 1).drop_last() =~= results@.take(i as int));
        match find_item(valid_items, &results[i].file_name) {
            Some(k) => {
                out.push((valid_items[k].clone(), results[i].copy()));
            },
            None => {},
        }
        i = i + 1;
    }
    assert(results@.take(i as int) =~= results@);
    out
}

/// Address of the batch existence probe.
pub fn batch_url(server_url: &str) -> (r: String)
    ensures
        r@ == server_url@ + "/api/sync/get_presigned_batch"@,
{
    server_url.to_owned().concat("/api/sync/get_presigned_batch")
}

/// Address that finalises the upload of `file_id`.
pub fn metadata_url(server_url: &str, file_id: &str) -> (r: String)
    ensures
        r@ == server_url@ + "/api/sync/"@ + file_id@ + "/update_metadata"@,
{
    server_url.to_owned().concat("/api/sync/").concat(file_id).concat("/update_metadata")
}

/// Value of the `Authorization` header for `token`.
pub fn bearer(token: &str) -> (r: String)
    ensures
        r@ == "Bearer "@ + token@,
{
    "Bearer ".to_owned().concat(token)
}

/// Whether an HTTP status code reports success (2xx).
pub fn is_success_status(code: u16) -> (r: bool)
    ensures
        r == (200 <= code <= 299),
{
    200 <= code && code <= 299
}

} // verus!
