//! Wire encoding and decoding of notification reasons.

use bsky_rmcp::reason::ReasonEnum;

#[test]
fn encodes_every_reason_to_its_token() {
    assert_eq!(ReasonEnum::Like.to_wire(), "like");
    assert_eq!(ReasonEnum::Repost.to_wire(), "repost");
    assert_eq!(ReasonEnum::Follow.to_wire(), "follow");
    assert_eq!(ReasonEnum::Mention.to_wire(), "mention");
    assert_eq!(ReasonEnum::Reply.to_wire(), "reply");
    assert_eq!(ReasonEnum::Quote.to_wire(), "quote");
    assert_eq!(ReasonEnum::StarterpackJoined.to_wire(), "starterpack-joined");
    assert_eq!(ReasonEnum::Verified.to_wire(), "verified");
    assert_eq!(ReasonEnum::Unverified.to_wire(), "unverified");
}

#[test]
fn decodes_every_token_back() {
    let all = vec![
        ReasonEnum::Like,
        ReasonEnum::Repost,
        ReasonEnum::Follow,
        ReasonEnum::Mention,
        ReasonEnum::Reply,
        ReasonEnum::Quote,
        ReasonEnum::StarterpackJoined,
        ReasonEnum::Verified,
        ReasonEnum::Unverified,
    ];
    for reason in all {
        let token = reason.to_wire();
        assert_eq!(ReasonEnum::from_wire(token.as_str()), Some(reason));
    }
}

#[test]
fn rejects_unrecognized_tokens() {
    assert_eq!(ReasonEnum::from_wire(""), None);
    assert_eq!(ReasonEnum::from_wire("likes"), None);
    assert_eq!(ReasonEnum::from_wire("Mention"), None);
    assert_eq!(ReasonEnum::from_wire("starterpack joined"), None);
}
