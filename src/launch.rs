use vstd::prelude::*;
use vstd::string::StringExecFns;
use crate::text::{decimal, decimal_text, json_quoted, quote_json, lemma_json_quoted_injective};
use crate::readiness::ReadinessError;
use crate::discovery::DiscoveryError;
use crate::session::{rpc_frame, SessionError};

verus! {

/// The DevTools method that evaluates an expression in the target.
pub const EVALUATE_METHOD: &'static str = "Runtime.evaluate";

/// The two forms of the debug-mode argument a target accepts.
#[derive(Debug, Clone, Copy, PartialEq, Eq)]
pub enum DebugFlag {
    /// `--inspect=<port>`, for a Node-style inspector.
    Inspect,
    /// `--remote-debugging-port=<port>`, for a Chromium-style target.
    RemoteDebuggingPort,
}

pub open spec fn flag_prefix(kind: DebugFlag) -> Seq<char> {
    match kind {
        DebugFlag::Inspect => "--inspect="@,
        DebugFlag::RemoteDebuggingPort => "--remote-debugging-port="@,
    }
}

/// The argument that starts a target in debug mode on `port`.
pub fn debug_flag(kind: DebugFlag, port: u16) -> (r: String)
    ensures
        r@ == flag_prefix(kind) + decimal(port as nat),
{
    let mut r = match kind {
        DebugFlag::Inspect => String::from_str("--inspect="),
        DebugFlag::RemoteDebuggingPort => String::from_str("--remote-debugging-port="),
    };
    let digits = decimal_text(port as u32);
    r.append(digits.as_str());
    r
}

/// The expression that calls `script` with the directory as its one argument,
/// written as a JSON string.
pub open spec fn payload(script: Seq<char>, quoted_dir: Seq<char>) -> Seq<char> {
    script + "("@ + quoted_dir + ")"@
}

/// The parameters of an evaluation request for `quoted_expr`, an expression
/// already written as a JSON string.
pub open spec fn evaluate_params(quoted_expr: Seq<char>) -> Seq<char> {
    "{\"expression\":"@ + quoted_expr + ",\"includeCommandLineAPI\":true}"@
}

/// Builds the expression that hands `dir` to `script`.
pub fn payload_expression(script: &str, dir: &str) -> (r: String)
    ensures
        r@ == payload(script@, json_quoted(dir@)),
{
    let quoted = match quote_json(dir) {
        Ok(q) => q,
        Err(_) => return String::new(),
    };
    let mut t = String::from_str(script);
    t.append("(");
    t.append(quoted.as_str());
    t.append(")");
    t
}

/// Builds the JSON parameters of the evaluation of `expression`.
pub fn evaluate_params_text(expression: &str) -> (r: String)
    ensures
        r@ == evaluate_params(json_quoted(expression@)),
{
    let quoted = match quote_json(expression) {
        Ok(q) => q,
        Err(_) => return String::new(),
    };
    let mut t = String::from_str("{\"expression\":");
    t.append(quoted.as_str());
    t.append(",\"includeCommandLineAPI\":true}");
    t
}

/// The expression keeps the written directory whole: for one script, two
/// expressions are equal only where the written directories are.
pub proof fn lemma_payload_keeps_dir(script: Seq<char>, q1: Seq<char>, q2: Seq<char>)
    requires
        payload(script, q1) == payload(script, q2),
    ensures
        q1 == q2,
{
    reveal_strlit("(");
    reveal_strlit(")");
    let p1 = payload(script, q1);
    let p2 = payload(script, q2);
    let n = script.len() + 1;
    assert(p1 =~= script + "("@ + q1 + ")"@);
    assert(p1.subrange(n as int, p1.len() - 1) =~= q1);
    assert(p2.subrange(n as int, p2.len() - 1) =~= q2);
}

/// The evaluation parameters keep the expression whole: equal parameter
/// texts come from equal expressions.
pub proof fn lemma_evaluate_params_keeps_expr(q1: Seq<char>, q2: Seq<char>)
    requires
        evaluate_params(q1) == evaluate_params(q2),
    ensures
        q1 == q2,
{
    let head = "{\"expression\":"@;
    let tail = ",\"includeCommandLineAPI\":true}"@;
    let p1 = evaluate_params(q1);
    let p2 = evaluate_params(q2);
    assert(p1 =~= head + q1 + tail);
    assert(p2 =~= head + q2 + tail);
    assert(q1 =~= p1.subrange(head.len() as int, p1.len() - tail.len()));
    assert(q2 =~= p2.subrange(head.len() as int, p2.len() - tail.len()));
}

/// A request frame keeps its parameters whole: for one id and method, equal
/// frames carry equal parameter texts.
pub proof fn lemma_rpc_frame_keeps_params(id: nat, method: Seq<char>, p1: Seq<char>, p2: Seq<char>)
    requires
        rpc_frame(id, method, p1) == rpc_frame(id, method, p2),
    ensures
        p1 == p2,
{
    reveal_strlit("}");
    let head = "{\"id\":"@ + decimal(id) + ",\"method\":"@ + method + ",\"params\":"@;
    let f1 = rpc_frame(id, method, p1);
    let f2 = rpc_frame(id, method, p2);
    assert(f1 =~= head + p1 + "}"@);
    assert(f2 =~= head + p2 + "}"@);
    assert(p1 =~= f1.subrange(head.len() as int, f1.len() - 1));
    assert(p2 =~= f2.subrange(head.len() as int, f2.len() - 1));
}

/// A directory reaches the target losslessly: the request frame that hands
/// `script` the directory, with spaces, non-ASCII characters or anything
/// else in it, determines that directory.
pub proof fn lemma_dir_round_trip(id: nat, method: Seq<char>, script: Seq<char>, d1: Seq<char>, d2: Seq<char>)
    requires
        rpc_frame(id, method, evaluate_params(json_quoted(payload(script, json_quoted(d1)))))
            == rpc_frame(id, method, evaluate_params(json_quoted(payload(script, json_quoted(d2))))),
    ensures
        d1 == d2,
{
    lemma_rpc_frame_keeps_params(
        id,
        method,
        evaluate_params(json_quoted(payload(script, json_quoted(d1)))),
        evaluate_params(json_quoted(payload(script, json_quoted(d2)))),
    );
    lemma_evaluate_params_keeps_expr(
        json_quoted(payload(script, json_quoted(d1))),
        json_quoted(payload(script, json_quoted(d2))),
    );
    lemma_json_quoted_injective(payload(script, json_quoted(d1)), payload(script, json_quoted(d2)));
    lemma_payload_keeps_dir(script, json_quoted(d1), json_quoted(d2));
    lemma_json_quoted_injective(d1, d2);
}

/// The line printed for a failed run.
pub open spec fn error_line(message: Seq<char>) -> Seq<char> {
    "[error] "@ + message
}

/// Writes the line printed for a failed run.
pub fn error_line_text(message: &str) -> (r: String)
    ensures
        r@ == error_line(message@),
{
    let mut r = String::from_str("[error] ");
    r.append(message);
    r
}

/// Why a run failed.
#[derive(Debug, Clone, Copy, PartialEq, Eq)]
pub enum InjectError {
    /// No local port could be bound.
    PortAllocation,
    /// The target could not be started.
    ProcessSpawn,
    /// The diagnostic stream ended before an endpoint was announced.
    Readiness(ReadinessError),
    /// The discovery endpoint gave no target.
    Discovery(DiscoveryError),
    /// The script, or the directory handed to it, could not be read.
    Payload,
    /// The WebSocket handshake failed.
    Handshake,
    /// The request could not be written or sent.
    Session(SessionError),
}

/// The phases of one run.
#[derive(Debug, Clone, Copy, PartialEq, Eq)]
pub enum Phase {
    NotStarted,
    Launched,
    AwaitingReadiness,
    Ready,
    SessionOpen,
    Sent,
    Failed,
}

/// What happened in the current phase.
#[derive(Debug, Clone, Copy, PartialEq, Eq)]
pub enum RunEvent {
    /// The phase's work succeeded.
    Succeeded,
    /// The phase's work failed.
    Failed(InjectError),
}

/// What the caller does after an event.
#[derive(Debug, Clone, Copy, PartialEq, Eq)]
pub enum RunAction {
    /// Go on with the next phase's work.
    Continue,
    /// The run is over: kill the target first if `kill` holds, then exit with
    /// `exit_code`.
    Finish { kill: bool, exit_code: i32 },
}

/// The phase that follows a successful `p`.
pub open spec fn next_phase(p: Phase) -> Phase {
    match p {
        Phase::NotStarted => Phase::Launched,
        Phase::Launched => Phase::AwaitingReadiness,
        Phase::AwaitingReadiness => Phase::Ready,
        Phase::Ready => Phase::SessionOpen,
        Phase::SessionOpen => Phase::Sent,
        _ => p,
    }
}

/// Whether a target process exists in phase `p`: from its launch until the
/// run ends.
pub open spec fn process_live(p: Phase) -> bool {
    match p {
        Phase::NotStarted | Phase::Sent | Phase::Failed => false,
        _ => true,
    }
}

pub open spec fn is_terminal(p: Phase) -> bool {
    p == Phase::Sent || p == Phase::Failed
}

/// The run's decisions: which phase it is in, and what ends it.  A failure
/// after launch always asks for the target to be killed; a failure before it
/// never does.
pub struct Orchestrator {
    phase: Phase,
    error: Option<InjectError>,
}

impl Orchestrator {
    pub closed spec fn spec_phase(&self) -> Phase {
        self.phase
    }

    pub closed spec fn spec_error(&self) -> Option<InjectError> {
        self.error
    }

    /// A run that has not started.
    pub fn new() -> (r: Self)
        ensures
            r.spec_phase() == Phase::NotStarted,
            r.spec_error() is None,
    {
        Orchestrator { phase: Phase::NotStarted, error: None }
    }

    /// The current phase.
    pub fn phase(&self) -> (r: Phase)
        ensures
            r == self.spec_phase(),
    {
        self.phase
    }

    /// The error that ended the run, if it failed.
    pub fn error(&self) -> (r: Option<InjectError>)
        ensures
            r == self.spec_error(),
    {
        self.error
    }

    /// Takes the outcome of the current phase's work.
    pub fn advance(&mut self, event: RunEvent) -> (r: RunAction)
        requires
            !is_terminal(old(self).spec_phase()),
        ensures
            event == RunEvent::Succeeded ==> {
                &&& final(self).spec_phase() == next_phase(old(self).spec_phase())
                &&& final(self).spec_error() == old(self).spec_error()
                &&& final(self).spec_phase() == Phase::Sent ==> r == (RunAction::Finish { kill: false, exit_code: 0 })
                &&& final(self).spec_phase() != Phase::Sent ==> r == RunAction::Continue
            },
            event matches RunEvent::Failed(e) ==> {
                &&& final(self).spec_phase() == Phase::Failed
                &&& final(self).spec_error() == Some(e)
                &&& r == (RunAction::Finish { kill: process_live(old(self).spec_phase()), exit_code: 1 })
            },
    {
        match event {
            RunEvent::Succeeded => {
                let next = match self.phase {
                    Phase::NotStarted => Phase::Launched,
                    Phase::Launched => Phase::AwaitingReadiness,
                    Phase::AwaitingReadiness => Phase::Ready,
                    Phase::Ready => Phase::SessionOpen,
                    _ => Phase::Sent,
                };
                self.phase = next;
                match next {
                    Phase::Sent => RunAction::Finish { kill: false, exit_code: 0 },
                    _ => RunAction::Continue,
                }
            },
            RunEvent::Failed(e) => {
                let kill = match self.phase {
                    Phase::NotStarted => false,
                    _ => true,
                };
                self.phase = Phase::Failed;
                self.error = Some(e);
                RunAction::Finish { kill, exit_code: 1 }
            },
        }
    }
}

/// A run never ends in failure with its target left running: whatever phase
/// it fails in, the target is killed exactly when one was launched.
pub proof fn lemma_failure_cleans_up(p: Phase)
    requires
        !is_terminal(p),
    ensures
        process_live(p) <==> p != Phase::NotStarted,
        next_phase(p) != Phase::Sent ==> process_live(next_phase(p)),
{
}

} // verus!
