//! Launches a debug-enabled target, finds its remote-debugging endpoint and
//! sends it one DevTools request.  The decisions are verified; the process,
//! pipe and socket handling stay with the caller.
pub mod text;
pub mod readiness;
pub mod discovery;
pub mod session;
pub mod launch;

pub use readiness::{
    scan_line, scan_lines, ReadinessError, ReadinessScanner, ScanOutcome, ScanResult, DEBUGGER_MARKER,
    DEVTOOLS_MARKER,
};
pub use discovery::{
    select_target, target_from_body, DiscoveryError, DiscoveryPoll, PollAction, PollEvent, DISCOVERY_REQUEST,
    MAX_ATTEMPTS, RETRY_INTERVAL_MS,
};
pub use session::{endpoint_address, rpc_frame_text, Address, ChromeDebugger, SessionError, DEFAULT_PORT};
pub use launch::{
    debug_flag, error_line_text, evaluate_params_text, payload_expression, DebugFlag, InjectError, Orchestrator,
    Phase, RunAction, RunEvent, EVALUATE_METHOD,
};
