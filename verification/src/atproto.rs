//! Trusted view of atproto identifier syntax.
//!
//! Whether a string is a well-formed actor reference, collection name or
//! record key is decided by the API client crate. Each check is a pure
//! function of the characters alone, so the library names the outcome with
//! an uninterpreted predicate and relies on the crate's parser to decide it.

use vstd::prelude::*;

verus! {

/// Whether a string is a well-formed actor reference (a DID or a handle).
pub uninterp spec fn at_identifier_valid(s: Seq<char>) -> bool;

/// Whether a string is a well-formed namespaced collection identifier.
pub uninterp spec fn nsid_valid(s: Seq<char>) -> bool;

/// Whether a string is a well-formed record key.
pub uninterp spec fn record_key_valid(s: Seq<char>) -> bool;

/// Relies on `FromStr` for `atrium_api::types::string::AtIdentifier`: it
/// accepts exactly the strings matching the DID or handle syntax, a function
/// of the characters alone.
#[verifier::external_body]
pub(crate) fn is_at_identifier(s: &str) -> (r: bool)
    ensures
        r == at_identifier_valid(s@),
{
    s.parse::<atrium_api::types::string::AtIdentifier>().is_ok()
}

/// Relies on `FromStr` for `atrium_api::types::string::Nsid`: it accepts
/// exactly the strings matching the namespaced-identifier syntax, a function
/// of the characters alone.
#[verifier::external_body]
pub(crate) fn is_nsid(s: &str) -> (r: bool)
    ensures
        r == nsid_valid(s@),
{
    s.parse::<atrium_api::types::string::Nsid>().is_ok()
}

/// Relies on `FromStr` for `atrium_api::types::string::RecordKey`: it accepts
/// exactly the strings matching the record-key syntax, a function of the
/// characters alone.
#[verifier::external_body]
pub(crate) fn is_record_key(s: &str) -> (r: bool)
    ensures
        r == record_key_valid(s@),
{
    s.parse::<atrium_api::types::string::RecordKey>().is_ok()
}

} // verus!
