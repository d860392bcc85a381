use cdp_injector::{
    select_target, target_from_body, DiscoveryError, DiscoveryPoll, PollAction, PollEvent, MAX_ATTEMPTS,
    RETRY_INTERVAL_MS,
};

#[test]
fn empty_target_list_is_not_found_without_retry() {
    let mut p = DiscoveryPoll::new();
    assert_eq!(p.start(), PollAction::Request);
    assert_eq!(p.on_event(PollEvent::Response("[]".to_string())), PollAction::Failed(DiscoveryError::TargetNotFound));
    assert_eq!(p.attempts(), 1);
    assert!(p.is_done());
}

#[test]
fn poll_gives_up_after_four_requests() {
    let mut p = DiscoveryPoll::new();
    assert_eq!(p.start(), PollAction::Request);
    let mut requests = 1;
    loop {
        match p.on_event(PollEvent::TransportError) {
            PollAction::WaitThenRequest(ms) => {
                assert_eq!(ms, RETRY_INTERVAL_MS);
                requests += 1;
            }
            PollAction::Failed(e) => {
                assert_eq!(e, DiscoveryError::Exhausted);
                break;
            }
            other => panic!("unexpected {:?}", other),
        }
    }
    assert_eq!(requests, 4);
    assert_eq!(MAX_ATTEMPTS, 4);
    assert_eq!(RETRY_INTERVAL_MS, 1000);
    assert_eq!(p.attempts(), 4);
}

#[test]
fn poll_succeeds_after_a_retry() {
    let mut p = DiscoveryPoll::new();
    p.start();
    assert_eq!(p.on_event(PollEvent::TransportError), PollAction::WaitThenRequest(1000));
    let body = r#"[{"webSocketDebuggerUrl":"ws://127.0.0.1:9222/devtools/page/A","type":"page"}]"#;
    assert_eq!(p.on_event(PollEvent::Response(body.to_string())), PollAction::Found("ws://127.0.0.1:9222/devtools/page/A".to_string()));
    assert_eq!(p.attempts(), 2);
}

#[test]
fn body_selects_last_target() {
    let body = r#"[{"webSocketDebuggerUrl":"ws://h/1"},{"webSocketDebuggerUrl":"ws://h/2","id":3}]"#;
    assert_eq!(target_from_body(body), Ok("ws://h/2".to_string()));
}

#[test]
fn body_errors() {
    assert_eq!(target_from_body("[]"), Err(DiscoveryError::TargetNotFound));
    assert_eq!(target_from_body("not json"), Err(DiscoveryError::Malformed));
    assert_eq!(target_from_body(r#"[{"url":"x"}]"#), Err(DiscoveryError::Malformed));
    assert_eq!(target_from_body(r#"{"webSocketDebuggerUrl":"ws://h/1"}"#), Err(DiscoveryError::Malformed));
}

#[test]
fn select_target_cases() {
    assert_eq!(select_target(&vec![]), Err(DiscoveryError::TargetNotFound));
    assert_eq!(select_target(&vec![Some("a".to_string()), Some("b".to_string())]), Ok("b".to_string()));
    assert_eq!(select_target(&vec![None, Some("b".to_string())]), Err(DiscoveryError::Malformed));
}
