//! The unreplied-mentions resolver on concrete upstream states.

use bsky_rmcp::errors::ToolError;
use bsky_rmcp::resolver::{
    resolve_unreplied, thread_fetch_plan, Notification, ReplyView, ThreadView,
};
use bsky_rmcp::reason::ReasonEnum;

fn notification(uri: &str, reason: ReasonEnum) -> Notification {
    Notification { uri: uri.to_string(), reason, indexed_at: "".to_string() }
}

fn thread(uri: &str, author: &str, reply_authors: &[&str]) -> ThreadView {
    ThreadView {
        uri: uri.to_string(),
        author_did: author.to_string(),
        replies: reply_authors
            .iter()
            .map(|a| ReplyView { author_did: a.to_string() })
            .collect(),
    }
}

#[test]
fn keeps_only_unanswered_notifications() {
    let uri_one = "at://did:plc:a/app.bsky.feed.post/1";
    let uri_two = "at://did:plc:a/app.bsky.feed.post/2";
    let notifications = vec![
        notification(uri_one, ReasonEnum::Reply),
        notification(uri_two, ReasonEnum::Mention),
    ];
    let threads = vec![
        Ok(thread(uri_one, "did:plc:a", &["did:plc:self"])),
        Ok(thread(uri_two, "did:plc:a", &[])),
    ];
    let out = resolve_unreplied(notifications, Some("did:plc:self".to_string()), threads).unwrap();
    assert_eq!(out, vec![notification(uri_two, ReasonEnum::Mention)]);
}

#[test]
fn a_reply_by_someone_else_does_not_count() {
    let uri = "at://did:plc:a/app.bsky.feed.post/1";
    let notifications = vec![notification(uri, ReasonEnum::Mention)];
    let threads = vec![Ok(thread(uri, "did:plc:a", &["did:plc:other", "did:plc:stranger"]))];
    let out = resolve_unreplied(notifications, Some("did:plc:self".to_string()), threads).unwrap();
    assert_eq!(out, vec![notification(uri, ReasonEnum::Mention)]);
}

#[test]
fn any_self_reply_among_many_counts() {
    let uri = "at://did:plc:a/app.bsky.feed.post/1";
    let notifications = vec![notification(uri, ReasonEnum::Reply)];
    let threads = vec![Ok(thread(uri, "did:plc:a", &["did:plc:other", "did:plc:self"]))];
    let out = resolve_unreplied(notifications, Some("did:plc:self".to_string()), threads).unwrap();
    assert_eq!(out, vec![]);
}

#[test]
fn order_of_kept_notifications_is_preserved() {
    let uris = ["at://r/c/1", "at://r/c/2", "at://r/c/3", "at://r/c/4"];
    let notifications: Vec<Notification> =
        uris.iter().map(|u| notification(u, ReasonEnum::Mention)).collect();
    // The second post got a self reply; the others did not.
    let threads: Vec<Result<ThreadView, String>> = vec![
        Ok(thread(uris[0], "a", &[])),
        Ok(thread(uris[1], "a", &["did:plc:self"])),
        Ok(thread(uris[2], "a", &["did:plc:bystander"])),
        Ok(thread(uris[3], "a", &[])),
    ];
    let out = resolve_unreplied(notifications, Some("did:plc:self".to_string()), threads).unwrap();
    let kept: Vec<&str> = out.iter().map(|n| n.uri.as_str()).collect();
    assert_eq!(kept, vec![uris[0], uris[2], uris[3]]);
}

#[test]
fn one_failed_fetch_fails_the_whole_call() {
    let uri_one = "at://did:plc:a/app.bsky.feed.post/1";
    let uri_two = "at://did:plc:a/app.bsky.feed.post/2";
    let notifications = vec![
        notification(uri_one, ReasonEnum::Reply),
        notification(uri_two, ReasonEnum::Mention),
    ];
    let threads = vec![
        Ok(thread(uri_one, "did:plc:a", &[])),
        Err("connection reset".to_string()),
    ];
    let out = resolve_unreplied(notifications, Some("did:plc:self".to_string()), threads);
    assert_eq!(out, Err(ToolError::Upstream("connection reset".to_string())));
}

#[test]
fn the_first_failure_is_the_one_reported() {
    let notifications = vec![notification("at://r/c/1", ReasonEnum::Mention)];
    let threads = vec![
        Err("first failure".to_string()),
        Err("second failure".to_string()),
    ];
    let out = resolve_unreplied(notifications, Some("did:plc:self".to_string()), threads);
    assert_eq!(out, Err(ToolError::Upstream("first failure".to_string())));
}

#[test]
fn missing_identity_fails_with_auth_state() {
    let notifications = vec![notification("at://r/c/1", ReasonEnum::Mention)];
    let out = resolve_unreplied(notifications, None, vec![]);
    assert_eq!(out, Err(ToolError::AuthState));
}

#[test]
fn empty_notification_list_resolves_to_empty_output() {
    let out = resolve_unreplied(vec![], Some("did:plc:self".to_string()), vec![]).unwrap();
    assert_eq!(out, vec![]);
}

#[test]
fn empty_notification_list_plans_no_fetches() {
    let plan = thread_fetch_plan(&vec![]);
    assert_eq!(plan.len(), 0);
}

#[test]
fn fetch_plan_asks_one_level_deep_with_no_parents() {
    let notifications = vec![
        notification("at://r/c/1", ReasonEnum::Mention),
        notification("at://r/c/2", ReasonEnum::Reply),
    ];
    let plan = thread_fetch_plan(&notifications);
    assert_eq!(plan.len(), 2);
    for (req, n) in plan.iter().zip(notifications.iter()) {
        assert_eq!(req.uri, n.uri);
        assert_eq!(req.depth, 1);
        assert_eq!(req.parent_height, 0);
    }
}

#[test]
fn identical_upstream_state_yields_identical_output() {
    let build = || {
        let uris = ["at://r/c/1", "at://r/c/2", "at://r/c/3"];
        let notifications: Vec<Notification> =
            uris.iter().map(|u| notification(u, ReasonEnum::Mention)).collect();
        let threads: Vec<Result<ThreadView, String>> = vec![
            Ok(thread(uris[0], "a", &["did:plc:self"])),
            Ok(thread(uris[1], "a", &[])),
            Ok(thread(uris[2], "a", &["did:plc:other"])),
        ];
        (notifications, threads)
    };
    let (n1, t1) = build();
    let (n2, t2) = build();
    let out1 = resolve_unreplied(n1, Some("did:plc:self".to_string()), t1).unwrap();
    let out2 = resolve_unreplied(n2, Some("did:plc:self".to_string()), t2).unwrap();
    assert_eq!(out1, out2);
}

#[test]
fn notifications_without_a_fetched_thread_are_kept() {
    let notifications = vec![notification("at://r/c/9", ReasonEnum::Mention)];
    let out = resolve_unreplied(notifications, Some("did:plc:self".to_string()), vec![]).unwrap();
    assert_eq!(out, vec![notification("at://r/c/9", ReasonEnum::Mention)]);
}
