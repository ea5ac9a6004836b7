//! Notification reasons and their wire representation.
//!
//! The remote service tags each notification with a reason drawn from a
//! closed set, serialized as a fixed lowercase hyphenated token. The mapping
//! is exhaustive in both directions, and unrecognized tokens are rejected on
//! the decode path.

use vstd::prelude::*;
use crate::strings::str_eq;

verus! {

/// The closed set of notification reasons.
#[derive(Clone, Copy, Debug, PartialEq, Eq, Structural)]
pub enum ReasonEnum {
    Like,
    Repost,
    Follow,
    Mention,
    Reply,
    Quote,
    StarterpackJoined,
    Verified,
    Unverified,
}

/// The wire token of each reason.
pub open spec fn reason_wire(r: ReasonEnum) -> Seq<char> {
    match r {
        ReasonEnum::Like => "like"@,
        ReasonEnum::Repost => "repost"@,
        ReasonEnum::Follow => "follow"@,
        ReasonEnum::Mention => "mention"@,
        ReasonEnum::Reply => "reply"@,
        ReasonEnum::Quote => "quote"@,
        ReasonEnum::StarterpackJoined => "starterpack-joined"@,
        ReasonEnum::Verified => "verified"@,
        ReasonEnum::Unverified => "unverified"@,
    }
}

/// The reason a wire token decodes to; unrecognized tokens decode to `None`.
pub open spec fn reason_from_wire(s: Seq<char>) -> Option<ReasonEnum> {
    if s == "like"@ {
        Some(ReasonEnum::Like)
    } else if s == "repost"@ {
        Some(ReasonEnum::Repost)
    } else if s == "follow"@ {
        Some(ReasonEnum::Follow)
    } else if s == "mention"@ {
        Some(ReasonEnum::Mention)
    } else if s == "reply"@ {
        Some(ReasonEnum::Reply)
    } else if s == "quote"@ {
        Some(ReasonEnum::Quote)
    } else if s == "starterpack-joined"@ {
        Some(ReasonEnum::StarterpackJoined)
    } else if s == "verified"@ {
        Some(ReasonEnum::Verified)
    } else if s == "unverified"@ {
        Some(ReasonEnum::Unverified)
    } else {
        None
    }
}

impl ReasonEnum {
    /// Encode this reason as its wire token.
    pub fn to_wire(&self) -> (s: String)
        ensures
            s@ == reason_wire(*self),
    {
        match self {
            ReasonEnum::Like => String::from_str("like"),
            ReasonEnum::Repost => String::from_str("repost"),
            ReasonEnum::Follow => String::from_str("follow"),
            ReasonEnum::Mention => String::from_str("mention"),
            ReasonEnum::Reply => String::from_str("reply"),
            ReasonEnum::Quote => String::from_str("quote"),
            ReasonEnum::StarterpackJoined => String::from_str("starterpack-joined"),
            ReasonEnum::Verified => String::from_str("verified"),
            ReasonEnum::Unverified => String::from_str("unverified"),
        }
    }

    /// Decode a wire token; returns `None` on an unrecognized token.
    pub fn from_wire(s: &str) -> (r: Option<ReasonEnum>)
        ensures
            r == reason_from_wire(s@),
    {
        if str_eq(s, "like") {
            Some(ReasonEnum::Like)
        } else if str_eq(s, "repost") {
            Some(ReasonEnum::Repost)
        } else if str_eq(s, "follow") {
            Some(ReasonEnum::Follow)
        } else if str_eq(s, "mention") {
            Some(ReasonEnum::Mention)
        } else if str_eq(s, "reply") {
            Some(ReasonEnum::Reply)
        } else if str_eq(s, "quote") {
            Some(ReasonEnum::Quote)
        } else if str_eq(s, "starterpack-joined") {
            Some(ReasonEnum::StarterpackJoined)
        } else if str_eq(s, "verified") {
            Some(ReasonEnum::Verified)
        } else if str_eq(s, "unverified") {
            Some(ReasonEnum::Unverified)
        } else {
            None
        }
    }
}

/// Encoding a reason and decoding the token yields the reason back: the wire
/// mapping loses nothing.
pub proof fn lemma_reason_wire_round_trip(r: ReasonEnum)
    ensures
        reason_from_wire(reason_wire(r)) == Some(r),
{
    reveal_strlit("like");
    reveal_strlit("repost");
    reveal_strlit("follow");
    reveal_strlit("mention");
    reveal_strlit("reply");
    reveal_strlit("quote");
    reveal_strlit("starterpack-joined");
    reveal_strlit("verified");
    reveal_strlit("unverified");
    assert("like"@.len() == 4);
    assert("repost"@.len() == 6);
    assert("follow"@.len() == 6);
    assert("mention"@.len() == 7);
    assert("reply"@.len() == 5);
    assert("quote"@.len() == 5);
    assert("starterpack-joined"@.len() == 18);
    assert("verified"@.len() == 8);
    assert("unverified"@.len() == 10);
    match r {
        ReasonEnum::Like => assert(reason_from_wire("like"@) == Some(ReasonEnum::Like)),
        ReasonEnum::Repost => assert(reason_from_wire("repost"@) == Some(ReasonEnum::Repost)),
        ReasonEnum::Follow => {
            assert("follow"@[0] != "repost"@[0]);
            assert(reason_from_wire("follow"@) == Some(ReasonEnum::Follow));
        },
        ReasonEnum::Mention => assert(reason_from_wire("mention"@) == Some(ReasonEnum::Mention)),
        ReasonEnum::Reply => assert(reason_from_wire("reply"@) == Some(ReasonEnum::Reply)),
        ReasonEnum::Quote => {
            assert("quote"@[0] != "reply"@[0]);
            assert(reason_from_wire("quote"@) == Some(ReasonEnum::Quote));
        },
        ReasonEnum::StarterpackJoined => assert(reason_from_wire("starterpack-joined"@)
            == Some(ReasonEnum::StarterpackJoined)),
        ReasonEnum::Verified => assert(reason_from_wire("verified"@) == Some(ReasonEnum::Verified)),
        ReasonEnum::Unverified => assert(reason_from_wire("unverified"@)
            == Some(ReasonEnum::Unverified)),
    }
}

/// No two reasons share a wire token.
pub proof fn lemma_reason_wire_injective(a: ReasonEnum, b: ReasonEnum)
    requires
        reason_wire(a) == reason_wire(b),
    ensures
        a == b,
{
    lemma_reason_wire_round_trip(a);
    lemma_reason_wire_round_trip(b);
}

/// A token that decodes encodes back to itself: decoding accepts exactly the
/// nine wire tokens.
pub proof fn lemma_reason_decode_then_encode(s: Seq<char>)
    ensures
        reason_from_wire(s) matches Some(r) ==> reason_wire(r) == s,
{
}

} // verus!
