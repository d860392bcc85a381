use vstd::prelude::*;
use vstd::string::StringExecFns;
use crate::text::{decimal, decimal_text, json_quoted, quote_json};

verus! {

#[verifier::external_type_specification]
#[verifier::external_body]
#[verifier::reject_recursive_types(S)]
pub struct ExWebSocket<S>(tungstenite::WebSocket<S>);

#[verifier::external_type_specification]
#[verifier::external_body]
pub struct ExWsError(tungstenite::Error);

/// Relies on tungstenite::WebSocket::send: writes `text` as one text frame
/// and flushes it to the transport.
#[verifier::external_body]
fn send_text<S: std::io::Read + std::io::Write>(ws: &mut tungstenite::WebSocket<S>, text: String) -> (r: Result<(), tungstenite::Error>)
{
    ws.send(tungstenite::Message::Text(text))
}

/// What `uri` gives when read as a URI: its host, if it names one, and its
/// port, if it names one; nothing when it is not a URI.
pub uninterp spec fn uri_parts(uri: Seq<char>) -> Option<(Option<Seq<char>>, Option<u16>)>;

pub open spec fn opt_view(o: Option<String>) -> Option<Seq<char>> {
    match o {
        Some(s) => Some(s@),
        None => None,
    }
}

/// Relies on http's `Uri::from_str` (as re-exported by tungstenite), with
/// `Uri::host` and `Uri::port_u16` to read the parts.
#[verifier::external_body]
fn parse_uri(uri: &str) -> (r: Option<(Option<String>, Option<u16>)>)
    ensures
        r matches Some((h, p)) ==> uri_parts(uri@) == Some((opt_view(h), p)),
        r is None ==> uri_parts(uri@) is None,
{
    let u = <tungstenite::http::Uri as std::str::FromStr>::from_str(uri).ok()?;
    Some((u.host().map(|h| h.to_owned()), u.port_u16()))
}

/// The port a WebSocket endpoint is reached on when its URI names none.
pub const DEFAULT_PORT: u16 = 80;

/// Where an endpoint's TCP connection goes.
#[derive(Debug, Clone, PartialEq, Eq)]
pub struct Address {
    pub host: String,
    pub port: u16,
}

/// The host and port an endpoint URI names, or `None` when it is not a URI
/// or names no host.
pub open spec fn uri_address(uri: Seq<char>) -> Option<(Seq<char>, u16)> {
    match uri_parts(uri) {
        Some((Some(h), p)) => Some((h, match p { Some(n) => n, None => DEFAULT_PORT })),
        _ => None,
    }
}

/// Reads the host and port to connect to for the endpoint `uri`.  A URI
/// without a port is reached on `DEFAULT_PORT`; one that cannot be read or
/// names no host fails the handshake.
pub fn endpoint_address(uri: &str) -> (r: Option<Address>)
    ensures
        r matches Some(a) ==> uri_address(uri@) == Some((a.host@, a.port)),
        r is None <==> uri_address(uri@) is None,
{
    match parse_uri(uri) {
        Some((Some(host), port)) => {
            let port = match port {
                Some(n) => n,
                None => DEFAULT_PORT,
            };
            Some(Address { host, port })
        },
        _ => None,
    }
}

/// Why a request could not be sent.
#[derive(Debug, Clone, Copy, PartialEq, Eq)]
pub enum SessionError {
    /// The frame could not be written to the transport.
    Send,
}

/// The JSON text of one request: `{"id":<id>,"method":<method>,"params":<params>}`,
/// with the method already written as a JSON string and the parameters as a
/// JSON object text.
pub open spec fn rpc_frame(id: nat, quoted_method: Seq<char>, params: Seq<char>) -> Seq<char> {
    "{\"id\":"@ + decimal(id) + ",\"method\":"@ + quoted_method + ",\"params\":"@ + params + "}"@
}

/// Writes the JSON text of the request `id` calling `method` with the JSON
/// object text `params`.
pub fn rpc_frame_text(id: u32, method: &str, params: &str) -> (r: String)
    ensures
        r@ == rpc_frame(id as nat, json_quoted(method@), params@),
{
    let quoted = match quote_json(method) {
        Ok(q) => q,
        Err(_) => return String::new(),
    };
    let id_text = decimal_text(id);
    let mut t = String::from_str("{\"id\":");
    t.append(id_text.as_str());
    t.append(",\"method\":");
    t.append(quoted.as_str());
    t.append(",\"params\":");
    t.append(params);
    t.append("}");
    t
}

/// A DevTools session over an open WebSocket.  Each request carries the next
/// correlation id; the first is 1 and each sent request advances it by one.
/// `sent` and `frames` record, for the proofs, the ids and the texts of the
/// requests sent so far.
#[verifier::reject_recursive_types(S)]
pub struct ChromeDebugger<S> {
    id: u32,
    ws: tungstenite::WebSocket<S>,
    sent: Ghost<Seq<nat>>,
    frames: Ghost<Seq<Seq<char>>>,
}

impl<S> ChromeDebugger<S> {
    pub closed spec fn spec_next_id(&self) -> nat {
        self.id as nat
    }

    /// The ids of the requests sent so far, in order.
    pub closed spec fn spec_sent_ids(&self) -> Seq<nat> {
        self.sent@
    }

    /// The texts of the frames sent so far, in order.
    pub closed spec fn spec_sent_frames(&self) -> Seq<Seq<char>> {
        self.frames@
    }

    /// The next id follows the ids sent so far, which count up from 1.
    pub open spec fn wf(&self) -> bool {
        &&& self.spec_next_id() == self.spec_sent_ids().len() + 1
        &&& forall|i: int| 0 <= i < self.spec_sent_ids().len() ==> #[trigger] self.spec_sent_ids()[i] == i + 1
    }

    /// A session over a socket whose handshake has completed.
    pub fn new(ws: tungstenite::WebSocket<S>) -> (r: Self)
        ensures
            r.wf(),
            r.spec_next_id() == 1,
            r.spec_sent_ids() == Seq::<nat>::empty(),
            r.spec_sent_frames() == Seq::<Seq<char>>::empty(),
    {
        ChromeDebugger { id: 1, ws, sent: Ghost(Seq::empty()), frames: Ghost(Seq::empty()) }
    }

    /// The id that the next request will carry.
    pub fn next_id(&self) -> (r: u32)
        ensures
            r == self.spec_next_id(),
    {
        self.id
    }

    /// Sends `method` with the JSON object text `params` as one text frame,
    /// `rpc_frame(id, json_quoted(method), params)` with the current id.  The
    /// id advances exactly when the frame was written.
    pub fn send(&mut self, method: &str, params: &str) -> (r: Result<(), SessionError>)
        where
            S: std::io::Read + std::io::Write,
        requires
            old(self).wf(),
            old(self).spec_next_id() < u32::MAX,
        ensures
            final(self).wf(),
            r is Ok ==> {
                &&& final(self).spec_next_id() == old(self).spec_next_id() + 1
                &&& final(self).spec_sent_ids() == old(self).spec_sent_ids().push(old(self).spec_next_id())
                &&& final(self).spec_sent_frames() == old(self).spec_sent_frames().push(
                    rpc_frame(old(self).spec_next_id(), json_quoted(method@), params@),
                )
            },
            r is Err ==> {
                &&& r == Err::<(), SessionError>(SessionError::Send)
                &&& final(self).spec_next_id() == old(self).spec_next_id()
                &&& final(self).spec_sent_ids() == old(self).spec_sent_ids()
                &&& final(self).spec_sent_frames() == old(self).spec_sent_frames()
            },
    {
        let text = rpc_frame_text(self.id, method, params);
        let ghost frame = text@;
        match send_text(&mut self.ws, text) {
            Ok(()) => {
                proof {
                    self.sent@ = self.sent@.push(self.id as nat);
                    self.frames@ = self.frames@.push(frame);
                }
                self.id = self.id + 1;
                Ok(())
            },
            Err(_) => Err(SessionError::Send),
        }
    }
}

/// Within one session the ids sent start at 1 and rise by exactly one per
/// request: strictly increasing, with no gap and no repeat.
pub proof fn lemma_session_ids<S>(d: &ChromeDebugger<S>)
    requires
        d.wf(),
    ensures
        d.spec_sent_ids().len() > 0 ==> d.spec_sent_ids()[0] == 1,
        forall|i: int| 0 <= i < d.spec_sent_ids().len() - 1 ==>
            #[trigger] d.spec_sent_ids()[i + 1] == d.spec_sent_ids()[i] + 1,
        forall|i: int, j: int| 0 <= i < j < d.spec_sent_ids().len() ==>
            d.spec_sent_ids()[i] < d.spec_sent_ids()[j],
        d.spec_next_id() == d.spec_sent_ids().len() + 1,
{
    assert forall|i: int| 0 <= i < d.spec_sent_ids().len() - 1 implies
        #[trigger] d.spec_sent_ids()[i + 1] == d.spec_sent_ids()[i] + 1 by {
        assert(d.spec_sent_ids()[i] == i + 1);
        assert(d.spec_sent_ids()[i + 1] == i + 2);
    }
    assert forall|i: int, j: int| 0 <= i < j < d.spec_sent_ids().len() implies
        d.spec_sent_ids()[i] < d.spec_sent_ids()[j] by {
        assert(d.spec_sent_ids()[i] == i + 1);
        assert(d.spec_sent_ids()[j] == j + 1);
    }
}

} // verus!
