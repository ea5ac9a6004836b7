//! The unreplied-mentions resolver.
//!
//! Given the mention and reply notifications of the authenticated account,
//! the thread view fetched for each notification, and the account's own
//! identifier, the resolver keeps exactly the notifications whose post has
//! no direct reply by the account, in feed order. A thread view is inspected
//! one reply level deep: replies to replies are out of scope by design.
//!
//! Fetching itself happens outside this crate; the resolver receives the
//! outcome of every fetch and fails on the first error, returning no partial
//! result.

use vstd::prelude::*;
use crate::errors::ToolError;
use crate::params::ThreadRequest;
use crate::reason::ReasonEnum;

verus! {

broadcast use vstd::prelude::Seq::lemma_filter_push, vstd::prelude::Seq::lemma_filter_len;

/// An event directed at the authenticated account: the post it concerns,
/// why it was raised, and when it was indexed.
#[derive(Debug, PartialEq, Eq)]
pub struct Notification {
    /// AT-URI of the post the notification points at.
    pub uri: String,
    /// Why the notification was raised.
    pub reason: ReasonEnum,
    /// When the service indexed the event.
    pub indexed_at: String,
}

/// One direct reply under a thread root.
#[derive(Debug, PartialEq, Eq)]
pub struct ReplyView {
    /// Identifier of the reply's author.
    pub author_did: String,
}

/// A post thread as the resolver requests it: the root post and its direct
/// replies, one level deep.
#[derive(Debug, PartialEq, Eq)]
pub struct ThreadView {
    /// AT-URI of the root post.
    pub uri: String,
    /// Identifier of the root post's author.
    pub author_did: String,
    /// The direct replies, in the order the service returned them.
    pub replies: Vec<ReplyView>,
}

/// Whether some reply in the sequence was written by `did`.
pub open spec fn has_reply_by(replies: Seq<ReplyView>, did: Seq<char>) -> bool {
    exists|i: int| 0 <= i < replies.len() && replies[i].author_did@ == did
}

/// Whether the thread holds a direct reply by `did`.
pub open spec fn has_self_reply(t: ThreadView, did: Seq<char>) -> bool {
    has_reply_by(t.replies@, did)
}

/// Whether some fetched thread is rooted at `uri` and holds a direct reply
/// by `did`: membership in the replied set.
pub open spec fn uri_replied(threads: Seq<ThreadView>, did: Seq<char>, uri: Seq<char>) -> bool {
    exists|i: int|
        0 <= i < threads.len() && threads[i].uri@ == uri && has_self_reply(threads[i], did)
}

/// Whether some string in the sequence has contents `u`.
pub open spec fn in_strs(ss: Seq<String>, u: Seq<char>) -> bool {
    exists|k: int| 0 <= k < ss.len() && ss[k]@ == u
}

/// The notifications kept by the resolver: those whose post URI is not in
/// the replied set, in their original order.
pub open spec fn unreplied_of(
    notifications: Seq<Notification>,
    threads: Seq<ThreadView>,
    did: Seq<char>,
) -> Seq<Notification> {
    notifications.filter(|n: Notification| !uri_replied(threads, did, n.uri@))
}

/// Appending a string to a pool adds exactly its contents to the contents
/// the pool holds.
proof fn lemma_in_strs_push(ss: Seq<String>, e: String, u: Seq<char>)
    ensures
        in_strs(ss.push(e), u) == (in_strs(ss, u) || e@ == u),
{
    if in_strs(ss.push(e), u) {
        let k = choose|k: int| 0 <= k < ss.push(e).len() && ss.push(e)[k]@ == u;
        if k < ss.len() {
            assert(ss[k]@ == u);
        }
    }
    if in_strs(ss, u) {
        let k = choose|k: int| 0 <= k < ss.len() && ss[k]@ == u;
        assert(ss.push(e)[k]@ == u);
    }
    if e@ == u {
        assert(ss.push(e)[ss.len() as int]@ == u);
    }
}

/// Appending a thread to the inspected prefix extends the replied set by
/// that thread's root URI exactly when the account replied under it.
proof fn lemma_uri_replied_push(ts: Seq<ThreadView>, t: ThreadView, did: Seq<char>, u: Seq<char>)
    ensures
        uri_replied(ts.push(t), did, u) == (uri_replied(ts, did, u) || (t.uri@ == u
            && has_self_reply(t, did))),
{
    if uri_replied(ts.push(t), did, u) {
        let i = choose|i: int|
            0 <= i < ts.push(t).len() && ts.push(t)[i].uri@ == u && has_self_reply(
                ts.push(t)[i],
                did,
            );
        if i < ts.len() {
            assert(ts[i].uri@ == u && has_self_reply(ts[i], did));
        }
    }
    if uri_replied(ts, did, u) {
        let i = choose|i: int| 0 <= i < ts.len() && ts[i].uri@ == u && has_self_reply(ts[i], did);
        assert(ts.push(t)[i].uri@ == u && has_self_reply(ts.push(t)[i], did));
    }
    if t.uri@ == u && has_self_reply(t, did) {
        assert(ts.push(t)[ts.len() as int].uri@ == u);
    }
}

/// Whether some reply in `replies` was written by `did`.
pub fn any_reply_by(replies: &Vec<ReplyView>, did: &String) -> (r: bool)
    ensures
        r == has_reply_by(replies@, did@),
{
    let mut i: usize = 0;
    while i < replies.len()
        invariant
            i <= replies@.len(),
            forall|j: int| 0 <= j < i ==> replies@[j].author_did@ != did@,
        decreases replies@.len() - i,
    {
        if crate::strings::str_eq(replies[i].author_did.as_str(), did.as_str()) {
            return true;
        }
        i = i + 1;
    }
    false
}

/// Build the replied set: the root URIs of the threads under which the
/// account has posted a direct reply.
pub fn collect_replied(threads: &Vec<ThreadView>, did: &String) -> (r: Vec<String>)
    ensures
        forall|u: Seq<char>| #![auto] in_strs(r@, u) == uri_replied(threads@, did@, u),
{
    let mut replied: Vec<String> = Vec::new();
    let mut i: usize = 0;
    while i < threads.len()
        invariant
            i <= threads@.len(),
            forall|u: Seq<char>| #![auto]
                in_strs(replied@, u) == uri_replied(threads@.take(i as int), did@, u),
        decreases threads@.len() - i,
    {
        let ghost pre = replied@;
        let has = any_reply_by(&threads[i].replies, did);
        if has {
            replied.push(threads[i].uri.clone());
        }
        proof {
            assert(threads@.take(i as int + 1) =~= threads@.take(i as int).push(
                threads@[i as int],
            ));
            assert forall|u: Seq<char>| #![auto]
                in_strs(replied@, u) == uri_replied(threads@.take(i as int + 1), did@, u) by {
                lemma_uri_replied_push(threads@.take(i as int), threads@[i as int], did@, u);
                if has {
                    lemma_in_strs_push(pre, threads@[i as int].uri, u);
                }
            }
        }
        i = i + 1;
    }
    proof {
        assert(threads@.take(threads@.len() as int) =~= threads@);
    }
    replied
}

/// Whether the pool holds a string with the contents of `u`.
pub fn contains_str(ss: &Vec<String>, u: &String) -> (r: bool)
    ensures
        r == in_strs(ss@, u@),
{
    let mut k: usize = 0;
    while k < ss.len()
        invariant
            k <= ss@.len(),
            forall|j: int| 0 <= j < k ==> ss@[j]@ != u@,
        decreases ss@.len() - k,
    {
        if crate::strings::str_eq(ss[k].as_str(), u.as_str()) {
            return true;
        }
        k = k + 1;
    }
    false
}

/// Keep the notifications whose post the account has not replied under,
/// preserving their order.
pub fn filter_unreplied(
    notifications: Vec<Notification>,
    threads: &Vec<ThreadView>,
    did: &String,
) -> (out: Vec<Notification>)
    ensures
        out@ == unreplied_of(notifications@, threads@, did@),
{
    let replied = collect_replied(threads, did);
    let mut rest = notifications;
    let ghost orig = rest@;
    let mut out: Vec<Notification> = Vec::new();
    proof {
        assert(orig.take(0) =~= Seq::<Notification>::empty());
        assert(out@ =~= unreplied_of(orig.take(0), threads@, did@));
    }
    while rest.len() > 0
        invariant
            rest@.len() <= orig.len(),
            rest@ =~= orig.subrange(orig.len() - rest@.len(), orig.len() as int),
            out@ == unreplied_of(orig.take(orig.len() - rest@.len()), threads@, did@),
            forall|u: Seq<char>| #![auto] in_strs(replied@, u) == uri_replied(threads@, did@, u),
        decreases rest@.len(),
    {
        let ghost k = orig.len() - rest@.len();
        let n = rest.remove(0);
        let keep = !contains_str(&replied, &n.uri);
        if keep {
            out.push(n);
        }
        proof {
            assert(n == orig[k]);
            assert(in_strs(replied@, n.uri@) == uri_replied(threads@, did@, n.uri@));
            assert(orig.take(k + 1) =~= orig.take(k).push(orig[k]));
            assert(unreplied_of(orig.take(k).push(n), threads@, did@) == if !uri_replied(
                threads@,
                did@,
                n.uri@,
            ) {
                unreplied_of(orig.take(k), threads@, did@).push(n)
            } else {
                unreplied_of(orig.take(k), threads@, did@)
            });
        }
    }
    proof {
        assert(orig.take(orig.len() as int) =~= orig);
    }
    out
}

/// Whether every thread fetch succeeded.
pub open spec fn all_ok(rs: Seq<Result<ThreadView, String>>) -> bool {
    forall|i: int| 0 <= i < rs.len() ==> rs[i] is Ok
}

/// The fetched threads, once every fetch is known to have succeeded.
pub open spec fn ok_threads(rs: Seq<Result<ThreadView, String>>) -> Seq<ThreadView> {
    rs.map_values(|r: Result<ThreadView, String>| r->Ok_0)
}

/// Index of the first failed fetch; the length when none failed.
pub open spec fn first_err_index(rs: Seq<Result<ThreadView, String>>) -> int
    decreases rs.len(),
{
    if rs.len() == 0 {
        0
    } else if rs[0] is Err {
        0
    } else {
        1 + first_err_index(rs.drop_first())
    }
}

/// A failure preceded by successes alone is the first failure.
proof fn lemma_first_err(rs: Seq<Result<ThreadView, String>>, k: int)
    requires
        0 <= k < rs.len(),
        forall|j: int| 0 <= j < k ==> rs[j] is Ok,
        rs[k] is Err,
    ensures
        first_err_index(rs) == k,
    decreases k,
{
    if k > 0 {
        assert(rs[0] is Ok);
        lemma_first_err(rs.drop_first(), k - 1);
    }
}

/// The plan of thread fetches for a batch of notifications: one request per
/// notification, in order, asking for one level of replies and no parent
/// context.
pub fn thread_fetch_plan(notifications: &Vec<Notification>) -> (plan: Vec<ThreadRequest>)
    ensures
        plan@.len() == notifications@.len(),
        forall|i: int| #![auto]
            0 <= i < notifications@.len() ==> plan@[i].uri@ == notifications@[i].uri@
                && plan@[i].depth == 1 && plan@[i].parent_height == 0,
{
    let mut plan: Vec<ThreadRequest> = Vec::new();
    let mut i: usize = 0;
    while i < notifications.len()
        invariant
            i <= notifications@.len(),
            plan@.len() == i,
            forall|j: int| #![auto]
                0 <= j < i ==> plan@[j].uri@ == notifications@[j].uri@ && plan@[j].depth == 1
                    && plan@[j].parent_height == 0,
        decreases notifications@.len() - i,
    {
        plan.push(ThreadRequest { uri: notifications[i].uri.clone(), depth: 1, parent_height: 0 });
        i = i + 1;
    }
    plan
}

/// Resolve the unreplied mentions once every thread fetch has reported back.
///
/// With no authenticated identity the call fails with `AuthState`. A failed
/// fetch fails the whole call with `Upstream`, carrying the first failure's
/// message and returning no partial result. Otherwise the result is exactly
/// the notifications whose post has no direct reply by the account, in their
/// original order.
pub fn resolve_unreplied(
    notifications: Vec<Notification>,
    did: Option<String>,
    thread_results: Vec<Result<ThreadView, String>>,
) -> (out: Result<Vec<Notification>, ToolError>)
    ensures
        did is None ==> (out matches Err(e) && e is AuthState),
        did matches Some(d) ==> (all_ok(thread_results@) ==> (out matches Ok(kept) && kept@
            == unreplied_of(notifications@, ok_threads(thread_results@), d@))),
        did matches Some(d) ==> (!all_ok(thread_results@) ==> (out matches Err(e)
            && e matches ToolError::Upstream(m) && m@ == thread_results@[first_err_index(
            thread_results@,
        )]->Err_0@)),
{
    if did.is_none() {
        return Err(ToolError::AuthState);
    }
    let d = did.unwrap();
    let mut rest = thread_results;
    let ghost orig = rest@;
    let mut threads: Vec<ThreadView> = Vec::new();
    while rest.len() > 0
        invariant
            did is Some,
            did->Some_0 == d,
            orig == thread_results@,
            threads@.len() + rest@.len() == orig.len(),
            rest@ =~= orig.subrange(threads@.len() as int, orig.len() as int),
            forall|j: int| 0 <= j < threads@.len() ==> (#[trigger] orig[j]) is Ok,
            forall|j: int| 0 <= j < threads@.len() ==> (#[trigger] threads@[j]) == orig[j]->Ok_0,
        decreases rest@.len(),
    {
        let ghost k = threads@.len() as int;
        let r = rest.remove(0);
        proof {
            assert(r == orig[k]);
        }
        match r {
            Ok(t) => {
                threads.push(t);
            },
            Err(m) => {
                proof {
                    assert(forall|j: int| 0 <= j < k ==> (#[trigger] orig[j]) is Ok);
                    lemma_first_err(orig, k);
                    assert(orig[k] is Err);
                    assert(!all_ok(orig));
                }
                return Err(ToolError::Upstream(m));
            },
        }
    }
    proof {
        assert(forall|i: int| 0 <= i < orig.len() ==> (#[trigger] orig[i]) is Ok);
        assert(all_ok(orig));
        assert(threads@ =~= ok_threads(orig));
    }
    let kept = filter_unreplied(notifications, &threads, &d);
    Ok(kept)
}

/// Running the resolver twice against identical upstream state yields
/// identical output: the kept notifications are a function of the
/// notification list, the fetched threads and the identity alone.
pub proof fn lemma_resolver_deterministic(
    n1: Seq<Notification>,
    t1: Seq<ThreadView>,
    d1: Seq<char>,
    n2: Seq<Notification>,
    t2: Seq<ThreadView>,
    d2: Seq<char>,
)
    requires
        n1 == n2,
        t1 == t2,
        d1 == d2,
    ensures
        unreplied_of(n1, t1, d1) == unreplied_of(n2, t2, d2),
{
}

/// An empty notification list resolves to an empty output; its fetch plan
/// holds no requests, so no thread fetch is issued for it.
pub proof fn lemma_empty_notifications(threads: Seq<ThreadView>, did: Seq<char>)
    ensures
        unreplied_of(Seq::<Notification>::empty(), threads, did) =~= Seq::<Notification>::empty(),
{
    Seq::<Notification>::empty().lemma_filter_len(
        |n: Notification| !uri_replied(threads, did, n.uri@),
    );
}

} // verus!
