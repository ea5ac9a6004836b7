//! Tool parameters, their bounds, and the requests they prepare.
//!
//! Each tool takes a small parameter record, applies defaults for omitted
//! fields, checks the declared numeric bounds, and produces the request that
//! is handed to the API client. A bound failure is reported as a
//! `Validation` error before any remote call is made.

use vstd::prelude::*;
use crate::atproto::{at_identifier_valid, is_at_identifier};
use crate::errors::ToolError;
use crate::reason::{ReasonEnum, reason_wire};

verus! {

/// Default number of items fetched when a limit is omitted.
pub const DEFAULT_LIMIT: u8 = 10;

/// Default reply depth of a thread request when omitted.
pub const DEFAULT_DEPTH: u16 = 1;

/// Default parent height of a thread request when omitted.
pub const DEFAULT_PARENT_HEIGHT: u16 = 10;

/// Largest accepted limit for feed and notification calls.
pub const MAX_LIMIT: u8 = 100;

/// Largest accepted reply depth or parent height for thread calls.
pub const MAX_THREAD_BOUND: u16 = 1000;

/// Parameters of the author-feed tool.
#[derive(Debug, PartialEq, Eq)]
pub struct GetAuthorFeedParams {
    /// Handle or DID of the account whose feed is fetched.
    pub actor: String,
    /// Bound on the number of posts fetched.
    pub limit: Option<u8>,
}

/// Parameters of the post-thread tool.
#[derive(Debug, PartialEq, Eq)]
pub struct GetPostThreadParams {
    /// AT-URI of the post whose thread is fetched.
    pub uri: String,
    /// How many levels of replies to include.
    pub depth: Option<u16>,
    /// How many levels of parent posts to include.
    pub parent_height: Option<u16>,
}

/// Parameters of the notification-listing tool.
#[derive(Debug, PartialEq, Eq)]
pub struct ListNotificationsParams {
    /// Bound on the number of notifications fetched.
    pub limit: Option<u8>,
    /// Notification reasons to include.
    pub reasons: Vec<ReasonEnum>,
}

/// Parameters of the post-creation tool.
#[derive(Debug, PartialEq, Eq)]
pub struct CreatePostParams {
    /// Text content of the post.
    pub text: String,
    /// AT-URI of the post being replied to, if any.
    pub reply: Option<String>,
}

/// Parameters of the post-search tool.
#[derive(Debug, PartialEq, Eq)]
pub struct SearchPostsParams {
    /// Search query.
    pub q: String,
    /// Bound on the number of posts returned.
    pub limit: Option<u8>,
}

/// Whether an optional limit is within the accepted range.
pub open spec fn limit_opt_ok(l: Option<u8>) -> bool {
    match l {
        None => true,
        Some(v) => 1 <= v <= MAX_LIMIT,
    }
}

/// The limit that takes effect: the given one, or the default when omitted.
pub open spec fn limit_value(l: Option<u8>) -> u8 {
    match l {
        None => DEFAULT_LIMIT,
        Some(v) => v,
    }
}

/// Whether an optional thread bound (depth or parent height) is within range.
pub open spec fn thread_bound_opt_ok(b: Option<u16>) -> bool {
    match b {
        None => true,
        Some(v) => v <= MAX_THREAD_BOUND,
    }
}

/// The thread bound that takes effect, given its default.
pub open spec fn thread_bound_value(b: Option<u16>, default: u16) -> u16 {
    match b {
        None => default,
        Some(v) => v,
    }
}

/// Apply the default and the range check to an optional limit.
pub fn effective_limit(limit: Option<u8>) -> (r: Result<u8, ToolError>)
    ensures
        r is Ok <==> limit_opt_ok(limit),
        r matches Ok(v) ==> v == limit_value(limit),
        !limit_opt_ok(limit) ==> (r matches Err(e) && e matches ToolError::Validation(m)
            && m@ == "limit out of range"@),
{
    match limit {
        None => Ok(DEFAULT_LIMIT),
        Some(v) => {
            if 1 <= v && v <= MAX_LIMIT {
                Ok(v)
            } else {
                Err(ToolError::Validation(String::from_str("limit out of range")))
            }
        },
    }
}

/// Apply the default and the range check to an optional depth or parent
/// height of a thread request.
pub fn effective_thread_bound(bound: Option<u16>, default: u16, message: &str) -> (r: Result<
    u16,
    ToolError,
>)
    ensures
        r is Ok <==> thread_bound_opt_ok(bound),
        r matches Ok(v) ==> v == thread_bound_value(bound, default),
        !thread_bound_opt_ok(bound) ==> (r matches Err(e) && e matches ToolError::Validation(m)
            && m@ == message@),
{
    match bound {
        None => Ok(default),
        Some(v) => {
            if v <= MAX_THREAD_BOUND {
                Ok(v)
            } else {
                Err(ToolError::Validation(message.to_owned()))
            }
        },
    }
}

/// Request handed to the API client for an author-feed call.
#[derive(Debug, PartialEq, Eq)]
pub struct AuthorFeedRequest {
    /// Actor reference, checked for well-formedness.
    pub actor: String,
    /// Feed filter applied by the service.
    pub filter: String,
    /// Effective limit, within range.
    pub limit: u8,
}

/// Request handed to the API client for a post-thread call.
#[derive(Debug, PartialEq, Eq)]
pub struct ThreadRequest {
    /// AT-URI of the post.
    pub uri: String,
    /// Effective reply depth, within range.
    pub depth: u16,
    /// Effective parent height, within range.
    pub parent_height: u16,
}

/// Request handed to the API client for a post-search call.
#[derive(Debug, PartialEq, Eq)]
pub struct SearchRequest {
    /// Search query, passed through unchanged.
    pub q: String,
    /// Effective limit, within range.
    pub limit: u8,
}

/// Request handed to the API client for a notification-listing call.
#[derive(Debug, PartialEq, Eq)]
pub struct NotificationsRequest {
    /// Effective limit, within range.
    pub limit: u8,
    /// Wire tokens of the requested reasons, in the given order.
    pub reasons: Vec<String>,
}

/// Check an actor reference for well-formedness and pass it through.
pub fn check_actor(actor: String) -> (r: Result<String, ToolError>)
    ensures
        r is Ok <==> at_identifier_valid(actor@),
        r matches Ok(a) ==> a@ == actor@,
        !at_identifier_valid(actor@) ==> (r matches Err(e) && e matches ToolError::Validation(m)
            && m@ == "malformed actor reference"@),
{
    if is_at_identifier(actor.as_str()) {
        Ok(actor)
    } else {
        Err(ToolError::Validation(String::from_str("malformed actor reference")))
    }
}

/// Prepare an author-feed request: the actor must be well-formed, the limit
/// within range; replies are filtered out of the feed.
pub fn author_feed_request(params: GetAuthorFeedParams) -> (r: Result<AuthorFeedRequest, ToolError>)
    ensures
        r is Ok <==> at_identifier_valid(params.actor@) && limit_opt_ok(params.limit),
        r matches Ok(q) ==> q.actor@ == params.actor@ && q.filter@ == "posts_no_replies"@
            && q.limit == limit_value(params.limit),
        !at_identifier_valid(params.actor@) ==> (r matches Err(e) && e matches ToolError::Validation(
            m,
        ) && m@ == "malformed actor reference"@),
        at_identifier_valid(params.actor@) && !limit_opt_ok(params.limit) ==> (r matches Err(e)
            && e matches ToolError::Validation(m) && m@ == "limit out of range"@),
{
    let actor = check_actor(params.actor)?;
    let limit = effective_limit(params.limit)?;
    Ok(AuthorFeedRequest { actor, filter: String::from_str("posts_no_replies"), limit })
}

/// Prepare a post-thread request: depth and parent height must be within
/// range; the URI is passed through unchanged.
pub fn post_thread_request(params: GetPostThreadParams) -> (r: Result<ThreadRequest, ToolError>)
    ensures
        r is Ok <==> thread_bound_opt_ok(params.depth) && thread_bound_opt_ok(params.parent_height),
        r matches Ok(q) ==> q.uri@ == params.uri@ && q.depth == thread_bound_value(
            params.depth,
            DEFAULT_DEPTH,
        ) && q.parent_height == thread_bound_value(params.parent_height, DEFAULT_PARENT_HEIGHT),
        !thread_bound_opt_ok(params.depth) ==> (r matches Err(e) && e matches ToolError::Validation(
            m,
        ) && m@ == "depth out of range"@),
        thread_bound_opt_ok(params.depth) && !thread_bound_opt_ok(params.parent_height) ==> (
        r matches Err(e) && e matches ToolError::Validation(m) && m@
            == "parent height out of range"@),
{
    let depth = effective_thread_bound(params.depth, DEFAULT_DEPTH, "depth out of range")?;
    let parent_height = effective_thread_bound(
        params.parent_height,
        DEFAULT_PARENT_HEIGHT,
        "parent height out of range",
    )?;
    Ok(ThreadRequest { uri: params.uri, depth, parent_height })
}

/// Prepare a post-search request: the limit must be within range; the query
/// is passed through unchanged.
pub fn search_request(params: SearchPostsParams) -> (r: Result<SearchRequest, ToolError>)
    ensures
        r is Ok <==> limit_opt_ok(params.limit),
        r matches Ok(q) ==> q.q@ == params.q@ && q.limit == limit_value(params.limit),
        !limit_opt_ok(params.limit) ==> (r matches Err(e) && e matches ToolError::Validation(m)
            && m@ == "limit out of range"@),
{
    let limit = effective_limit(params.limit)?;
    Ok(SearchRequest { q: params.q, limit })
}

/// Prepare a notification-listing request: the limit must be within range;
/// the reasons are encoded to their wire tokens, order preserved.
pub fn notifications_request(params: ListNotificationsParams) -> (r: Result<
    NotificationsRequest,
    ToolError,
>)
    ensures
        r is Ok <==> limit_opt_ok(params.limit),
        r matches Ok(q) ==> q.limit == limit_value(params.limit) && q.reasons@.len()
            == params.reasons@.len() && (forall|i: int|
            0 <= i < params.reasons@.len() ==> q.reasons@[i]@ == reason_wire(params.reasons@[i])),
        !limit_opt_ok(params.limit) ==> (r matches Err(e) && e matches ToolError::Validation(m)
            && m@ == "limit out of range"@),
{
    let limit = effective_limit(params.limit)?;
    let mut reasons: Vec<String> = Vec::new();
    let mut i: usize = 0;
    while i < params.reasons.len()
        invariant
            i <= params.reasons@.len(),
            reasons@.len() == i,
            forall|j: int| 0 <= j < i ==> reasons@[j]@ == reason_wire(params.reasons@[j]),
        decreases params.reasons@.len() - i,
    {
        reasons.push(params.reasons[i].to_wire());
        i = i + 1;
    }
    Ok(NotificationsRequest { limit, reasons })
}

/// Prepare the notification-listing request that the unreplied-mentions
/// resolver issues: mention and reply notifications, bounded by `max_num` or
/// the default limit when omitted.
pub fn unreplied_mentions_request(max_num: Option<u8>) -> (r: Result<
    NotificationsRequest,
    ToolError,
>)
    ensures
        r is Ok <==> limit_opt_ok(max_num),
        r matches Ok(q) ==> q.limit == limit_value(max_num) && q.reasons@.len() == 2
            && q.reasons@[0]@ == reason_wire(ReasonEnum::Mention) && q.reasons@[1]@ == reason_wire(
            ReasonEnum::Reply,
        ),
        !limit_opt_ok(max_num) ==> (r matches Err(e) && e matches ToolError::Validation(m) && m@
            == "limit out of range"@),
{
    let params = ListNotificationsParams {
        limit: max_num,
        reasons: vec![ReasonEnum::Mention, ReasonEnum::Reply],
    };
    notifications_request(params)
}

} // verus!

