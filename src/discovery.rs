use vstd::prelude::*;

verus! {

/// How many discovery requests are made at most.
pub const MAX_ATTEMPTS: u32 = 4;

/// The fixed pause, in milliseconds, before a discovery request is retried.
pub const RETRY_INTERVAL_MS: u64 = 1000;

/// The HTTP request that asks a target for its list of debuggable targets.
pub const DISCOVERY_REQUEST: &'static str = "GET /json/list HTTP/1.1\r\nHost: localhost\r\nConnection: close\r\n\r\n";

/// What a JSON text gives when read as an array of targets: for each target,
/// its `webSocketDebuggerUrl` string if it has one; nothing when the text is
/// not a JSON array.
pub uninterp spec fn listed_targets(body: Seq<char>) -> Option<Seq<Option<Seq<char>>>>;

/// The view of one listed target.
pub open spec fn target_view(t: Option<String>) -> Option<Seq<char>> {
    match t {
        Some(u) => Some(u@),
        None => None,
    }
}

/// Relies on serde_json::from_str, reading `body` as an array of JSON values,
/// and on serde_json::Value::get and as_str to pick each one's endpoint field.
#[verifier::external_body]
fn parse_target_list(body: &str) -> (r: Result<Vec<Option<String>>, serde_json::Error>)
    ensures
        r matches Ok(v) ==> listed_targets(body@) == Some(v@.map_values(|t: Option<String>| target_view(t))),
        r is Err ==> listed_targets(body@) is None,
{
    serde_json::from_str::<Vec<serde_json::Value>>(body).map(|ts|
        ts.iter().map(|t| t.get("webSocketDebuggerUrl").and_then(|u| u.as_str()).map(|u| u.to_owned())).collect()
    )
}

/// Why discovery gave no endpoint.
#[derive(Debug, Clone, Copy, PartialEq, Eq)]
pub enum DiscoveryError {
    /// Every allowed request failed at the transport level.
    Exhausted,
    /// The target list was empty.
    TargetNotFound,
    /// The response was not a list of targets with endpoints.
    Malformed,
}

/// The endpoint chosen from a target list: the last target's.
pub open spec fn chosen_target(ts: Seq<Option<Seq<char>>>) -> Result<Seq<char>, DiscoveryError> {
    if ts.len() == 0 {
        Err(DiscoveryError::TargetNotFound)
    } else if exists|i: int| 0 <= i < ts.len() && #[trigger] ts[i] is None {
        Err(DiscoveryError::Malformed)
    } else {
        Ok(ts.last()->Some_0)
    }
}

/// The endpoint that a discovery response body gives.
pub open spec fn body_target(body: Seq<char>) -> Result<Seq<char>, DiscoveryError> {
    match listed_targets(body) {
        None => Err(DiscoveryError::Malformed),
        Some(ts) => chosen_target(ts),
    }
}

pub open spec fn result_view(r: Result<String, DiscoveryError>) -> Result<Seq<char>, DiscoveryError> {
    match r {
        Ok(s) => Ok(s@),
        Err(e) => Err(e),
    }
}

/// Chooses the endpoint from a parsed target list.  An empty list is fatal,
/// as is a target without an endpoint.
pub fn select_target(targets: &Vec<Option<String>>) -> (r: Result<String, DiscoveryError>)
    ensures
        result_view(r) == chosen_target(targets@.map_values(|t: Option<String>| target_view(t))),
{
    let ghost ts = targets@.map_values(|t: Option<String>| target_view(t));
    if targets.len() == 0 {
        return Err(DiscoveryError::TargetNotFound);
    }
    let mut i: usize = 0;
    while i < targets.len()
        invariant
            i <= targets@.len(),
            ts == targets@.map_values(|t: Option<String>| target_view(t)),
            forall|j: int| 0 <= j < i ==> #[trigger] ts[j] is Some,
        decreases targets@.len() - i,
    {
        if targets[i].is_none() {
            assert(ts[i as int] is None);
            return Err(DiscoveryError::Malformed);
        }
        i = i + 1;
    }
    let last = targets.len() - 1;
    match &targets[last] {
        Some(u) => Ok(u.clone()),
        None => {
            assert(ts[last as int] is None);
            Err(DiscoveryError::Malformed)
        },
    }
}

/// Reads a discovery response body and chooses the endpoint from it.
pub fn target_from_body(body: &str) -> (r: Result<String, DiscoveryError>)
    ensures
        result_view(r) == body_target(body@),
{
    match parse_target_list(body) {
        Ok(targets) => select_target(&targets),
        Err(_) => Err(DiscoveryError::Malformed),
    }
}

/// What came back from one discovery request.
#[derive(Debug, Clone, PartialEq, Eq)]
pub enum PollEvent {
    /// The request failed at the transport level (refused, timed out).
    TransportError,
    /// The request was answered with this body.
    Response(String),
}

/// What the caller does next.
#[derive(Debug, Clone, PartialEq, Eq)]
pub enum PollAction {
    /// Make a discovery request now.
    Request,
    /// Wait this many milliseconds, then make a discovery request.
    WaitThenRequest(u64),
    /// Discovery is over: connect to this endpoint.
    Found(String),
    /// Discovery is over and failed.
    Failed(DiscoveryError),
}

/// The bounded discovery poll: it counts the requests it has asked for and
/// never asks for more than `MAX_ATTEMPTS`.
pub struct DiscoveryPoll {
    attempts: u32,
    done: bool,
}

impl DiscoveryPoll {
    pub closed spec fn spec_attempts(&self) -> nat {
        self.attempts as nat
    }

    pub closed spec fn spec_done(&self) -> bool {
        self.done
    }

    /// Never more requests than `MAX_ATTEMPTS`.
    pub open spec fn wf(&self) -> bool {
        self.spec_attempts() <= MAX_ATTEMPTS as nat
    }

    /// A poll that has made no request.
    pub fn new() -> (r: Self)
        ensures
            r.wf(),
            r.spec_attempts() == 0,
            !r.spec_done(),
    {
        DiscoveryPoll { attempts: 0, done: false }
    }

    /// Number of requests asked for so far.
    pub fn attempts(&self) -> (r: u32)
        ensures
            r == self.spec_attempts(),
    {
        self.attempts
    }

    /// Whether discovery is over.
    pub fn is_done(&self) -> (r: bool)
        ensures
            r == self.spec_done(),
    {
        self.done
    }

    /// Asks for the first request.
    pub fn start(&mut self) -> (r: PollAction)
        requires
            old(self).wf(),
            old(self).spec_attempts() == 0,
            !old(self).spec_done(),
        ensures
            final(self).wf(),
            r == PollAction::Request,
            final(self).spec_attempts() == 1,
            !final(self).spec_done(),
    {
        self.attempts = 1;
        PollAction::Request
    }

    /// Takes the outcome of the last request.  A transport error is retried
    /// after the fixed interval while fewer than `MAX_ATTEMPTS` requests were
    /// made, and ends discovery with `Exhausted` after that.  A response ends
    /// discovery at once: an empty target list is not retried.
    pub fn on_event(&mut self, event: PollEvent) -> (r: PollAction)
        requires
            old(self).wf(),
            old(self).spec_attempts() >= 1,
            !old(self).spec_done(),
        ensures
            final(self).wf(),
            final(self).spec_attempts() <= MAX_ATTEMPTS,
            event == PollEvent::TransportError && old(self).spec_attempts() < MAX_ATTEMPTS ==> {
                &&& r == PollAction::WaitThenRequest(RETRY_INTERVAL_MS)
                &&& final(self).spec_attempts() == old(self).spec_attempts() + 1
                &&& !final(self).spec_done()
            },
            event == PollEvent::TransportError && old(self).spec_attempts() == MAX_ATTEMPTS ==> {
                &&& r == PollAction::Failed(DiscoveryError::Exhausted)
                &&& final(self).spec_attempts() == old(self).spec_attempts()
                &&& final(self).spec_done()
            },
            event matches PollEvent::Response(body) ==> {
                &&& final(self).spec_attempts() == old(self).spec_attempts()
                &&& final(self).spec_done()
                &&& match body_target(body@) {
                    Ok(u) => r matches PollAction::Found(s) && s@ == u,
                    Err(e) => r == PollAction::Failed(e),
                }
            },
    {
        match event {
            PollEvent::TransportError => {
                if self.attempts < MAX_ATTEMPTS {
                    self.attempts = self.attempts + 1;
                    PollAction::WaitThenRequest(RETRY_INTERVAL_MS)
                } else {
                    self.done = true;
                    PollAction::Failed(DiscoveryError::Exhausted)
                }
            },
            PollEvent::Response(body) => {
                self.done = true;
                match target_from_body(body.as_str()) {
                    Ok(url) => PollAction::Found(url),
                    Err(e) => PollAction::Failed(e),
                }
            },
        }
    }
}

} // verus!
