use cdp_injector::{
    debug_flag, error_line_text, evaluate_params_text, payload_expression, DebugFlag, DiscoveryError, InjectError,
    Orchestrator, Phase, RunAction, RunEvent, SessionError, EVALUATE_METHOD,
};

#[test]
fn debug_flags() {
    assert_eq!(debug_flag(DebugFlag::Inspect, 9229), "--inspect=9229");
    assert_eq!(debug_flag(DebugFlag::RemoteDebuggingPort, 0), "--remote-debugging-port=0");
    assert_eq!(debug_flag(DebugFlag::Inspect, 65535), "--inspect=65535");
}

#[test]
fn directory_round_trips_through_payload() {
    let dir = "/home/Jürgen Müller/my dir/日本";
    let expr = payload_expression("(function(d){})", dir);
    assert!(expr.starts_with("(function(d){})("));
    assert!(expr.ends_with(')'));
    let quoted = &expr["(function(d){})(".len()..expr.len() - 1];
    let back: String = serde_json::from_str(quoted).unwrap();
    assert_eq!(back, dir);

    let params = evaluate_params_text(&expr);
    let v: serde_json::Value = serde_json::from_str(&params).unwrap();
    assert_eq!(v.get("expression").and_then(|x| x.as_str()), Some(expr.as_str()));
    assert_eq!(v.get("includeCommandLineAPI").and_then(|x| x.as_bool()), Some(true));
}

#[test]
fn payload_escapes_quotes_and_backslashes() {
    let expr = payload_expression("f", "C:\\Users\\a \"b\"");
    assert_eq!(expr, r#"f("C:\\Users\\a \"b\"")"#);
    let params = evaluate_params_text("x");
    assert_eq!(params, r#"{"expression":"x","includeCommandLineAPI":true}"#);
    assert_eq!(EVALUATE_METHOD, "Runtime.evaluate");
}

#[test]
fn error_line_format() {
    assert_eq!(error_line_text("failed to start target"), "[error] failed to start target");
}

#[test]
fn spawn_failure_exits_one_without_kill() {
    let mut o = Orchestrator::new();
    let a = o.advance(RunEvent::Failed(InjectError::ProcessSpawn));
    assert_eq!(a, RunAction::Finish { kill: false, exit_code: 1 });
    assert_eq!(o.phase(), Phase::Failed);
    assert_eq!(o.error(), Some(InjectError::ProcessSpawn));
}

#[test]
fn successful_run_exits_zero_without_kill() {
    let mut o = Orchestrator::new();
    for _ in 0..4 {
        assert_eq!(o.advance(RunEvent::Succeeded), RunAction::Continue);
    }
    assert_eq!(o.phase(), Phase::SessionOpen);
    assert_eq!(o.advance(RunEvent::Succeeded), RunAction::Finish { kill: false, exit_code: 0 });
    assert_eq!(o.phase(), Phase::Sent);
    assert_eq!(o.error(), None);
}

#[test]
fn empty_target_list_fails_run_and_kills() {
    let mut o = Orchestrator::new();
    o.advance(RunEvent::Succeeded);
    o.advance(RunEvent::Succeeded);
    assert_eq!(o.phase(), Phase::AwaitingReadiness);
    let e = InjectError::Discovery(DiscoveryError::TargetNotFound);
    assert_eq!(o.advance(RunEvent::Failed(e)), RunAction::Finish { kill: true, exit_code: 1 });
    assert_eq!(o.error(), Some(e));
}

#[test]
fn send_failure_after_launch_kills() {
    let mut o = Orchestrator::new();
    for _ in 0..4 {
        o.advance(RunEvent::Succeeded);
    }
    let e = InjectError::Session(SessionError::Send);
    assert_ne!(e, InjectError::Payload);
    assert_eq!(o.advance(RunEvent::Failed(e)), RunAction::Finish { kill: true, exit_code: 1 });
}

#[test]
fn payload_escapes_control_characters() {
    let expr = payload_expression("f", "a\tb\nc\u{1}d\u{1f}e\u{8}\u{c}\r\u{7f}é");
    assert_eq!(expr, "f(\"a\\tb\\nc\\u0001d\\u001fe\\b\\f\\r\u{7f}é\")");
}
