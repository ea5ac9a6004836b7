//! AT-URI handling.
//!
//! An AT-URI names a record as `at://<repo>/<collection>/<rkey>`: the scheme
//! prefix, then the repository (a DID or handle), the record collection and
//! the record key, separated by the first two slashes after the prefix. The
//! record key keeps any further slashes.

use vstd::prelude::*;
use crate::atproto::{
    at_identifier_valid,
    is_at_identifier,
    is_nsid,
    is_record_key,
    nsid_valid,
    record_key_valid,
};
use crate::errors::ToolError;

verus! {

/// The components of a record's AT-URI.
#[derive(Debug, PartialEq, Eq)]
pub struct RecordPath {
    /// The repository: a DID or a handle.
    pub repo: String,
    /// The record collection, a namespaced identifier.
    pub collection: String,
    /// The record key within the collection.
    pub rkey: String,
}

/// Whether `s` starts with the `at://` scheme prefix.
pub open spec fn has_at_scheme(s: Seq<char>) -> bool {
    s.len() >= 5 && s[0] == 'a' && s[1] == 't' && s[2] == ':' && s[3] == '/' && s[4] == '/'
}

/// Index of the first `/` in `s` at or after `from`; the length when there
/// is none.
pub open spec fn slash_index(s: Seq<char>, from: int) -> int
    decreases s.len() - from,
{
    if from < 0 || from >= s.len() {
        s.len() as int
    } else if s[from] == '/' {
        from
    } else {
        slash_index(s, from + 1)
    }
}

/// Whether `s` is a structurally well-formed AT-URI: the scheme prefix and
/// at least two slashes after it.
pub open spec fn at_uri_well_formed(s: Seq<char>) -> bool {
    has_at_scheme(s) && slash_index(s, 5) < s.len() && slash_index(s, slash_index(s, 5) + 1)
        < s.len()
}

/// The repository part: between the prefix and the first slash.
pub open spec fn at_uri_repo(s: Seq<char>) -> Seq<char> {
    s.subrange(5, slash_index(s, 5))
}

/// The collection part: between the first and the second slash.
pub open spec fn at_uri_collection(s: Seq<char>) -> Seq<char> {
    s.subrange(slash_index(s, 5) + 1, slash_index(s, slash_index(s, 5) + 1))
}

/// The record-key part: everything after the second slash.
pub open spec fn at_uri_rkey(s: Seq<char>) -> Seq<char> {
    s.subrange(slash_index(s, slash_index(s, 5) + 1) + 1, s.len() as int)
}

/// A position with no slash before it (at or after `from`) and a slash or
/// the end at it is where the first slash search lands.
proof fn lemma_slash_index_at(s: Seq<char>, from: int, p: int)
    requires
        0 <= from <= p <= s.len(),
        forall|k: int| from <= k < p ==> s[k] != '/',
        p == s.len() || s[p] == '/',
    ensures
        slash_index(s, from) == p,
    decreases p - from,
{
    if from < p {
        lemma_slash_index_at(s, from + 1, p);
    }
}

/// Find the first `/` in `s` at or after `from`; returns the length when
/// there is none.
fn find_slash(s: &str, from: usize, n: usize) -> (idx: usize)
    requires
        from <= s@.len(),
        n == s@.len(),
    ensures
        idx == slash_index(s@, from as int),
        from <= idx <= s@.len(),
        idx < s@.len() ==> s@[idx as int] == '/',
{
    let mut p = from;
    while p < n && s.get_char(p) != '/'
        invariant
            n == s@.len(),
            from <= p <= n,
            forall|k: int| from <= k < p ==> s@[k] != '/',
        decreases n - p,
    {
        p = p + 1;
    }
    proof {
        lemma_slash_index_at(s@, from as int, p as int);
    }
    p
}

/// Split an AT-URI into repository, collection and record key.
///
/// Succeeds exactly on structurally well-formed AT-URIs; the components are
/// not themselves validated here.
pub fn parse_at_uri(uri: &str) -> (r: Result<RecordPath, ToolError>)
    ensures
        r is Ok <==> at_uri_well_formed(uri@),
        r matches Ok(p) ==> p.repo@ == at_uri_repo(uri@) && p.collection@ == at_uri_collection(
            uri@,
        ) && p.rkey@ == at_uri_rkey(uri@),
        !at_uri_well_formed(uri@) ==> (r matches Err(e) && e matches ToolError::Validation(m) && m@
            == "invalid AT URI"@),
{
    let n = uri.unicode_len();
    if n < 5 || uri.get_char(0) != 'a' || uri.get_char(1) != 't' || uri.get_char(2) != ':'
        || uri.get_char(3) != '/' || uri.get_char(4) != '/' {
        return Err(ToolError::Validation(String::from_str("invalid AT URI")));
    }
    let i = find_slash(uri, 5, n);
    if i == n {
        return Err(ToolError::Validation(String::from_str("invalid AT URI")));
    }
    let j = find_slash(uri, i + 1, n);
    if j == n {
        return Err(ToolError::Validation(String::from_str("invalid AT URI")));
    }
    let repo = uri.substring_char(5, i).to_owned();
    let collection = uri.substring_char(i + 1, j).to_owned();
    let rkey = uri.substring_char(j + 1, n).to_owned();
    Ok(RecordPath { repo, collection, rkey })
}

/// Split an AT-URI and validate each component, as a record fetch requires.
///
/// Succeeds exactly when the URI is well-formed and the repository,
/// collection and record key each match their syntax; reports the first
/// failure.
pub fn get_record_request(uri: &str) -> (r: Result<RecordPath, ToolError>)
    ensures
        r is Ok <==> at_uri_well_formed(uri@) && at_identifier_valid(at_uri_repo(uri@))
            && nsid_valid(at_uri_collection(uri@)) && record_key_valid(at_uri_rkey(uri@)),
        r matches Ok(p) ==> p.repo@ == at_uri_repo(uri@) && p.collection@ == at_uri_collection(
            uri@,
        ) && p.rkey@ == at_uri_rkey(uri@),
        !at_uri_well_formed(uri@) ==> (r matches Err(e) && e matches ToolError::Validation(m) && m@
            == "invalid AT URI"@),
        at_uri_well_formed(uri@) && !at_identifier_valid(at_uri_repo(uri@)) ==> (r matches Err(e)
            && e matches ToolError::Validation(m) && m@ == "invalid repo"@),
        at_uri_well_formed(uri@) && at_identifier_valid(at_uri_repo(uri@)) && !nsid_valid(
            at_uri_collection(uri@),
        ) ==> (r matches Err(e) && e matches ToolError::Validation(m) && m@
            == "invalid collection"@),
        at_uri_well_formed(uri@) && at_identifier_valid(at_uri_repo(uri@)) && nsid_valid(
            at_uri_collection(uri@),
        ) && !record_key_valid(at_uri_rkey(uri@)) ==> (r matches Err(e)
            && e matches ToolError::Validation(m) && m@ == "invalid record key"@),
{
    let path = parse_at_uri(uri)?;
    if !is_at_identifier(path.repo.as_str()) {
        return Err(ToolError::Validation(String::from_str("invalid repo")));
    }
    if !is_nsid(path.collection.as_str()) {
        return Err(ToolError::Validation(String::from_str("invalid collection")));
    }
    if !is_record_key(path.rkey.as_str()) {
        return Err(ToolError::Validation(String::from_str("invalid record key")));
    }
    Ok(path)
}

} // verus!
