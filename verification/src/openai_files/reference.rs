//! References to stored files.

use crate::text::joined;
use crate::text::starts_with;
use crate::text::strip_prefix;
use vstd::prelude::*;

verus! {

/// What the URI of a stored file begins with.
pub const OPENAI_FILE_URI_PREFIX: &'static str = "sediment://";

/// The largest file that may be uploaded.
pub const OPENAI_FILE_UPLOAD_LIMIT_BYTES: u64 = 536_870_912;

/// The largest file that may be downloaded on request.
pub const OPENAI_FILE_DOWNLOAD_LIMIT_BYTES: u64 = 536_870_912;

/// The largest file that may be downloaded unasked.
pub const OPENAI_FILE_AUTO_DOWNLOAD_LIMIT_BYTES: u64 = 134_217_728;

/// How much may be downloaded unasked in all.
pub const OPENAI_FILE_AUTO_DOWNLOAD_BUDGET_BYTES: u64 = 536_870_912;

/// The URI of the file with the id `file_id`.
pub open spec fn file_uri(file_id: Seq<char>) -> Seq<char> {
    OPENAI_FILE_URI_PREFIX@ + file_id
}

/// The file id that a reference stands for: what follows the scheme of a URI,
/// or a bare id, which begins with `file_` or `file-`.
pub open spec fn file_id_of(reference: Seq<char>) -> Option<Seq<char>> {
    if OPENAI_FILE_URI_PREFIX@.is_prefix_of(reference) {
        let id = reference.skip(OPENAI_FILE_URI_PREFIX@.len() as int);
        if id.len() > 0 {
            Some(id)
        } else {
            None
        }
    } else if "file_"@.is_prefix_of(reference) || "file-"@.is_prefix_of(reference) {
        Some(reference)
    } else {
        None
    }
}

/// Whether `value` is the URI of a stored file.
pub fn is_openai_file_uri(value: &str) -> (r: bool)
    ensures
        r == OPENAI_FILE_URI_PREFIX@.is_prefix_of(value@),
{
    starts_with(value, OPENAI_FILE_URI_PREFIX)
}

/// The URI of the file with the id `file_id`.
pub fn openai_file_uri(file_id: &str) -> (r: String)
    ensures
        r@ == file_uri(file_id@),
{
    joined(OPENAI_FILE_URI_PREFIX, file_id)
}

/// The file id that `reference` stands for, if it is a reference.
pub fn parse_openai_file_id<'a>(reference: &'a str) -> (r: Option<&'a str>)
    ensures
        r is Some <==> file_id_of(reference@) is Some,
        r matches Some(id) ==> Some(id@) == file_id_of(reference@),
{
    if let Some(file_id) = strip_prefix(reference, OPENAI_FILE_URI_PREFIX) {
        if file_id.is_empty() {
            return None;
        }
        return Some(file_id);
    }
    if starts_with(reference, "file_") || starts_with(reference, "file-") {
        Some(reference)
    } else {
        None
    }
}

/// A file's URI leads back to its id.
pub proof fn uri_leads_back_to_the_id(file_id: Seq<char>)
    requires
        file_id.len() > 0,
    ensures
        file_id_of(file_uri(file_id)) == Some(file_id),
        OPENAI_FILE_URI_PREFIX@.is_prefix_of(file_uri(file_id)),
{
    let prefix = OPENAI_FILE_URI_PREFIX@;
    let uri = file_uri(file_id);
    assert(uri.subrange(0, prefix.len() as int) == prefix);
    assert(uri.skip(prefix.len() as int) == file_id);
}

/// A reference and the URI of the id that it stands for stand for the same
/// file.
pub proof fn reference_and_its_uri_agree(reference: Seq<char>)
    requires
        file_id_of(reference) is Some,
    ensures
        file_id_of(file_uri(file_id_of(reference)->0)) == file_id_of(reference),
        file_id_of(reference)->0.len() > 0,
{
    reveal_strlit("file_");
    reveal_strlit("file-");
    uri_leads_back_to_the_id(file_id_of(reference)->0);
}

/// Different ids have different URIs.
pub proof fn uris_tell_files_apart(a: Seq<char>, b: Seq<char>)
    ensures
        file_uri(a) == file_uri(b) <==> a == b,
{
    let n = OPENAI_FILE_URI_PREFIX@.len() as int;
    assert(file_uri(a).skip(n) == a);
    assert(file_uri(b).skip(n) == b);
}

} // verus!
