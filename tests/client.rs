use hellvents::client::{broadcast_commands, PendingRequest, RequestStep};
use hellvents::span::Span;

#[test]
fn request_resolves_only_on_own_id() {
    let req = PendingRequest::with_id("abc".to_string(), Span::from_secs(100));
    let other = "xyz".to_string();
    let own = "abc".to_string();
    assert_eq!(req.observe(Some(&other), Span::from_secs(101)), RequestStep::Waiting);
    assert_eq!(req.observe(None, Span::from_secs(101)), RequestStep::Waiting);
    assert_eq!(req.observe(Some(&own), Span::from_secs(102)), RequestStep::Resolved);
}

#[test]
fn two_requests_never_swap_responses() {
    let a = PendingRequest::with_id("a".to_string(), Span::from_secs(0));
    let b = PendingRequest::with_id("b".to_string(), Span::from_secs(0));
    let ra = "a".to_string();
    let rb = "b".to_string();
    let now = Span::from_secs(1);
    assert_eq!(a.observe(Some(&rb), now), RequestStep::Waiting);
    assert_eq!(b.observe(Some(&ra), now), RequestStep::Waiting);
    assert_eq!(b.observe(Some(&rb), now), RequestStep::Resolved);
    assert_eq!(a.observe(Some(&ra), now), RequestStep::Resolved);
}

#[test]
fn request_expires_at_sixty_seconds() {
    let req = PendingRequest::with_id("r".to_string(), Span::from_secs(10));
    assert_eq!(req.deadline(), Span::from_secs(70));
    let almost = Span { secs: 69, nanos: 999_999_999 };
    assert_eq!(req.observe(None, almost), RequestStep::Waiting);
    assert_eq!(req.observe(None, Span::from_secs(70)), RequestStep::Expired);
    assert_eq!(req.observe(Some(&"q".to_string()), Span::from_secs(90)), RequestStep::Expired);
}

#[test]
fn fresh_requests_get_distinct_ids() {
    let a = PendingRequest::open(Span::from_secs(0));
    let b = PendingRequest::open(Span::from_secs(0));
    assert_eq!(a.id().len(), 36);
    assert_ne!(a.id(), b.id());
}

#[test]
fn broadcast_builds_one_command_per_player() {
    let players = vec!["1".to_string(), "2".to_string()];
    assert_eq!(
        broadcast_commands(&players, "hi all"),
        vec!["Message 1 hi all".to_string(), "Message 2 hi all".to_string()]
    );
    assert!(broadcast_commands(&Vec::new(), "x").is_empty());
}
