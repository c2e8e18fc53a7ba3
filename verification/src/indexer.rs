//! Talking to the indexer, as far as it is a matter of values: where its
//! resources are, and what an answer's status means. Sending the request and
//! reading the body is the caller's part.

use vstd::prelude::*;
use vstd::string::StringExecFns;

verus! {

/// The content type of a file whose answer names none.
pub const DEFAULT_CONTENT_TYPE: &'static str = "application/octet-stream";

/// Where the unspent outputs of an address are listed.
pub open spec fn spec_unspent_outputs_url(base_url: Seq<char>, address: Seq<char>) -> Seq<char> {
    base_url + "/txos/address/"@ + address + "/unspent"@
}

/// Where the unspent outputs of an address are listed.
pub fn unspent_outputs_url(base_url: &str, address: &str) -> (r: String)
    ensures
        r@ == spec_unspent_outputs_url(base_url@, address@),
{
    let mut url = base_url.to_owned();
    url.append("/txos/address/");
    url.append(address);
    url.append("/unspent");
    url
}

/// Where the inscription of an origin is described.
pub open spec fn spec_inscription_url(base_url: Seq<char>, origin: Seq<char>) -> Seq<char> {
    base_url + "/inscriptions/origin/"@ + origin
}

/// Where the inscription of an origin is described.
pub fn inscription_url(base_url: &str, origin: &str) -> (r: String)
    ensures
        r@ == spec_inscription_url(base_url@, origin@),
{
    let mut url = base_url.to_owned();
    url.append("/inscriptions/origin/");
    url.append(origin);
    url
}

/// What the status of an answer means for a lookup.
#[derive(Clone, Copy, Debug, PartialEq, Eq, Structural)]
pub enum IndexerAnswer {
    /// The body holds what was asked for.
    Body,
    /// The indexer knows nothing of what was asked for; that is an empty
    /// answer, not a failure.
    Nothing,
    /// The indexer failed.
    Failed,
}

/// Whether a status reports success: the statuses from 200 to 299.
pub open spec fn spec_is_success(status: u16) -> bool {
    200 <= status <= 299
}

/// Whether a status reports success.
pub fn is_success(status: u16) -> (r: bool)
    ensures
        r == spec_is_success(status),
{
    200 <= status && status <= 299
}

/// What a status means for a lookup: success brings a body, 404 means that
/// there is nothing to find, and every other status is a failure.
pub open spec fn spec_lookup_answer(status: u16) -> IndexerAnswer {
    if spec_is_success(status) {
        IndexerAnswer::Body
    } else if status == 404 {
        IndexerAnswer::Nothing
    } else {
        IndexerAnswer::Failed
    }
}

/// What a status means for a lookup: see `spec_lookup_answer`.
pub fn lookup_answer(status: u16) -> (r: IndexerAnswer)
    ensures
        r == spec_lookup_answer(status),
{
    if is_success(status) {
        IndexerAnswer::Body
    } else if status == 404 {
        IndexerAnswer::Nothing
    } else {
        IndexerAnswer::Failed
    }
}

/// The content type of a file: the one its answer names, or the default.
pub fn content_type_or_default(named: Option<&str>) -> (r: String)
    ensures
        r@ == match named {
            Some(content_type) => content_type@,
            None => DEFAULT_CONTENT_TYPE@,
        },
{
    match named {
        Some(content_type) => content_type.to_owned(),
        None => DEFAULT_CONTENT_TYPE.to_owned(),
    }
}

} // verus!
