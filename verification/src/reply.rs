//! Reply references for post creation.
//!
//! The service keeps reply threads flat: every reply names both its
//! immediate parent and the root of the thread. A reply to a post that is
//! itself a reply reuses that post's root; a reply to a top-level post is
//! rooted at the post itself.

use vstd::prelude::*;
use crate::at_uri::{
    at_uri_collection,
    at_uri_repo,
    at_uri_rkey,
    at_uri_well_formed,
    get_record_request,
    RecordPath,
};
use crate::atproto::{at_identifier_valid, nsid_valid, record_key_valid};
use crate::errors::ToolError;
use crate::params::CreatePostParams;

verus! {

/// A content-addressed reference to a record: its AT-URI and the hash of
/// its content.
#[derive(Debug, PartialEq, Eq)]
pub struct StrongRef {
    /// AT-URI of the record.
    pub uri: String,
    /// Content hash of the record.
    pub cid: String,
}

/// The reply references of a post: its immediate parent and the root of the
/// thread it belongs to.
#[derive(Debug, PartialEq, Eq)]
pub struct ReplyRef {
    /// The post being replied to.
    pub parent: StrongRef,
    /// The root of the reply thread.
    pub root: StrongRef,
}

/// Copy a reference.
pub fn clone_strong_ref(s: &StrongRef) -> (r: StrongRef)
    ensures
        r == *s,
{
    StrongRef { uri: s.uri.clone(), cid: s.cid.clone() }
}

/// Resolve the reply references for a post replying to `parent`.
///
/// When the parent post already carries a thread root, that root is reused;
/// otherwise the parent is the root itself.
pub fn resolve_reply_refs(parent: StrongRef, parent_root: Option<StrongRef>) -> (r: ReplyRef)
    ensures
        r.parent == parent,
        parent_root matches Some(root) ==> r.root == root,
        parent_root is None ==> r.root == parent,
{
    match parent_root {
        Some(root) => ReplyRef { parent, root },
        None => {
            let root = clone_strong_ref(&parent);
            ReplyRef { parent, root }
        },
    }
}

/// Build the reply references for a reply to the post fetched at `uri`.
///
/// The fetched record carries an optional content hash and, when the post is
/// itself a reply, the root of its thread. A record without a content hash
/// cannot be referenced: the call fails with an upstream error.
pub fn reply_refs_from_record(uri: String, cid: Option<String>, parent_root: Option<StrongRef>) -> (r:
    Result<ReplyRef, ToolError>)
    ensures
        cid is None ==> (r matches Err(e) && e matches ToolError::Upstream(m) && m@
            == "failed to get cid"@),
        cid matches Some(c) ==> (r matches Ok(refs) && refs.parent.uri@ == uri@
            && refs.parent.cid@ == c@ && (parent_root matches Some(root) ==> refs.root == root) && (
        parent_root is None ==> refs.root == refs.parent)),
{
    let c = match cid {
        Some(c) => c,
        None => {
            return Err(ToolError::Upstream(String::from_str("failed to get cid")));
        },
    };
    let parent = StrongRef { uri, cid: c };
    Ok(resolve_reply_refs(parent, parent_root))
}

/// What a post-creation call settles before any remote work: the text to
/// post and, for a reply, the record the reply targets.
#[derive(Debug, PartialEq, Eq)]
pub struct PostPlan {
    /// Text content of the post, passed through unchanged.
    pub text: String,
    /// The record the post replies to, when it is a reply.
    pub reply_target: Option<RecordPath>,
}

/// Plan a post creation: a plain post passes its text through; a reply must
/// name a well-formed record URI with valid components, which is split for
/// the fetch that follows.
pub fn create_post_plan(params: CreatePostParams) -> (r: Result<PostPlan, ToolError>)
    ensures
        params.reply is None ==> (r matches Ok(p) && p.text@ == params.text@
            && p.reply_target is None),
        params.reply matches Some(uri) ==> (r is Ok <==> at_uri_well_formed(uri@)
            && at_identifier_valid(at_uri_repo(uri@)) && nsid_valid(at_uri_collection(uri@))
            && record_key_valid(at_uri_rkey(uri@))),
        params.reply matches Some(uri) ==> (r matches Ok(p) ==> p.text@ == params.text@
            && (p.reply_target matches Some(path) && path.repo@ == at_uri_repo(uri@)
            && path.collection@ == at_uri_collection(uri@) && path.rkey@ == at_uri_rkey(uri@))),
        r matches Err(e) ==> e matches ToolError::Validation(_),
{
    match params.reply {
        None => Ok(PostPlan { text: params.text, reply_target: None }),
        Some(uri) => {
            let path = get_record_request(uri.as_str())?;
            Ok(PostPlan { text: params.text, reply_target: Some(path) })
        },
    }
}

} // verus!
