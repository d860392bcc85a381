use cdp_injector::{scan_line, scan_lines, ReadinessError, ReadinessScanner, ScanOutcome, DEBUGGER_MARKER, DEVTOOLS_MARKER};

fn lines(v: &[&str]) -> Vec<String> {
    v.iter().map(|s| s.to_string()).collect()
}

#[test]
fn scan_finds_endpoint_after_two_lines() {
    let ls = lines(&["Starting…", "Debugger listening on ws://127.0.0.1:9222/abc", "Ready"]);
    let r = scan_lines(&ls, DEBUGGER_MARKER).unwrap();
    assert_eq!(r.url, "ws://127.0.0.1:9222/abc");
    assert_eq!(r.consumed, 2);
}

#[test]
fn scan_takes_first_of_two_announcements() {
    let ls = lines(&["Debugger listening on ws://a/1", "Debugger listening on ws://b/2"]);
    let r = scan_lines(&ls, DEBUGGER_MARKER).unwrap();
    assert_eq!(r.url, "ws://a/1");
    assert_eq!(r.consumed, 1);
}

#[test]
fn scan_without_marker_is_eof() {
    let ls = lines(&["Starting", "Ready", "listening on ws://x"]);
    assert_eq!(scan_lines(&ls, DEBUGGER_MARKER), Err(ReadinessError::Eof));
    assert_eq!(scan_lines(&Vec::new(), DEBUGGER_MARKER), Err(ReadinessError::Eof));
}

#[test]
fn scan_line_strips_marker() {
    assert_eq!(scan_line("DevTools listening on ws://h:1/devtools/browser/x", DEVTOOLS_MARKER), Some("ws://h:1/devtools/browser/x".to_string()));
    assert_eq!(scan_line("  DevTools listening on ws://h", DEVTOOLS_MARKER), None);
    assert_eq!(scan_line("Debugger listening on ", DEBUGGER_MARKER), Some(String::new()));
}

#[test]
fn scanner_streams_line_by_line() {
    let mut s = ReadinessScanner::new(DEBUGGER_MARKER);
    assert_eq!(s.feed_line("Starting…"), ScanOutcome::Continue);
    assert!(!s.is_done());
    assert_eq!(s.feed_line("Debugger listening on ws://127.0.0.1:9222/abc"), ScanOutcome::Found("ws://127.0.0.1:9222/abc".to_string()));
    assert!(s.is_done());
    assert_eq!(s.consumed(), 2);
}

#[test]
fn scanner_end_of_stream_fails() {
    let mut s = ReadinessScanner::new(DEBUGGER_MARKER);
    assert_eq!(s.feed_line("Starting…"), ScanOutcome::Continue);
    assert_eq!(s.feed_end(), ScanOutcome::Failed(ReadinessError::Eof));
    assert!(s.is_done());
    assert_eq!(s.consumed(), 1);
}
