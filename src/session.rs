//! One client connection: its first request, the decisions of the double TLS
//! handshake, and the records of what was relayed.
//!
//! The caller performs each step (`Session::phase`) and reports how it went
//! (`Session::handle_https`); the session decides the next step.

use vstd::prelude::*;

use crate::cert::unix_now;
use crate::http::{
    default_request, default_response, request_of, response_of, Method, Request, Response,
};
use crate::text::{chars_of, decode_strict, split_by, split_chars, string_of, views, Sep};
use vstd::utf8::{decode_utf8, valid_utf8};

verus! {

/// The step a session is at. For a `CONNECT` the steps run in this order;
/// a failed step closes the session.
#[derive(Debug, Clone, Copy, PartialEq, Eq, Structural)]
pub enum TunnelPhase {
    /// Waiting for the client's first request.
    AwaitRequest,
    /// Tell the client `HTTP/1.1 200 Connection established`.
    SendEstablished,
    /// Issue a leaf certificate for the target host.
    IssueLeaf,
    /// Open a TCP connection to the target.
    ConnectOrigin,
    /// TLS handshake with the origin, as a client.
    OriginHandshake,
    /// TLS handshake with the client, as a server, with the leaf certificate.
    ClientHandshake,
    /// Relay between the two TLS streams.
    Relay,
    /// Finished: close both connections.
    Closed,
}

/// How the step that the caller performed went.
pub enum TunnelEvent {
    Succeeded,
    Failed,
    /// The relay finished; the text captured from the client and from the origin.
    Relayed(String, String),
}

/// Why a session's first request was not taken.
#[derive(Debug, Clone, Copy, PartialEq, Eq, Structural)]
pub enum SessionError {
    /// Nothing was received.
    NoData,
    /// The header block has not ended yet: read more and offer everything received.
    Incomplete,
    /// What was received is not UTF-8 text.
    NotText,
    /// The text is not a request.
    BadRequest,
    /// A `CONNECT` whose target is not `host:port`.
    BadTarget,
}

/// The text that tells the client its tunnel is open:
/// `HTTP/1.1 200 Connection established`, then an empty line.
pub open spec fn established_text() -> Seq<char> {
    seq![
        'H', 'T', 'T', 'P', '/', '1', '.', '1', ' ', '2', '0', '0', ' ', 'C', 'o', 'n', 'n', 'e',
        'c', 't', 'i', 'o', 'n', ' ', 'e', 's', 't', 'a', 'b', 'l', 'i', 's', 'h', 'e', 'd', '\r',
        '\n', '\r', '\n',
    ]
}

/// The reply the caller sends in step `SendEstablished`.
pub fn established_reply() -> (r: &'static str)
    ensures
        r@ == established_text(),
{
    proof { reveal_strlit("HTTP/1.1 200 Connection established\r\n\r\n"); }
    let r = "HTTP/1.1 200 Connection established\r\n\r\n";
    assert(r@ =~= established_text());
    r
}

/// Whether the bytes hold an empty line after some line: a `\n` followed by
/// `\n`, or by `\r\n`. Only then has a request's header block ended.
pub open spec fn has_blank_line(b: Seq<u8>) -> bool {
    exists|i: int|
        0 <= i && i + 1 < b.len() && #[trigger] b[i] == 10 && (b[i + 1] == 10 || (i + 2 < b.len()
            && b[i + 1] == 13 && b[i + 2] == 10))
}

fn find_blank_line(b: &[u8]) -> (r: bool)
    ensures
        r == has_blank_line(b@),
{
    let n = b.len();
    let mut i: usize = 0;
    while i < n
        invariant
            i <= n,
            n == b@.len(),
            forall|k: int|
                0 <= k < i && k + 1 < n ==> !(#[trigger] b@[k] == 10 && (b@[k + 1] == 10 || (k + 2
                    < n && b@[k + 1] == 13 && b@[k + 2] == 10))),
        decreases n - i,
    {
        if b[i] == 10 && i + 1 < n && (b[i + 1] == 10 || (i + 2 < n && b[i + 1] == 13 && b[i + 2] == 10)) {
            return true;
        }
        i = i + 1;
    }
    false
}

/// The step after `phase` once the caller reports `event`.
pub open spec fn tunnel_next(phase: TunnelPhase, event: TunnelEvent) -> TunnelPhase {
    match phase {
        TunnelPhase::AwaitRequest => phase,
        TunnelPhase::Relay | TunnelPhase::Closed => TunnelPhase::Closed,
        _ => if event is Failed {
            TunnelPhase::Closed
        } else {
            match phase {
                TunnelPhase::SendEstablished => TunnelPhase::IssueLeaf,
                TunnelPhase::IssueLeaf => TunnelPhase::ConnectOrigin,
                TunnelPhase::ConnectOrigin => TunnelPhase::OriginHandshake,
                TunnelPhase::OriginHandshake => TunnelPhase::ClientHandshake,
                _ => TunnelPhase::Relay,
            }
        },
    }
}

/// A step that the caller performs (neither the start nor the end).
pub open spec fn is_step(phase: TunnelPhase) -> bool {
    phase != TunnelPhase::AwaitRequest && phase != TunnelPhase::Closed
}

/// The step after a successful `phase`.
fn advance(phase: TunnelPhase) -> (r: TunnelPhase)
    requires
        is_step(phase),
    ensures
        r == tunnel_next(phase, TunnelEvent::Succeeded),
{
    match phase {
        TunnelPhase::SendEstablished => TunnelPhase::IssueLeaf,
        TunnelPhase::IssueLeaf => TunnelPhase::ConnectOrigin,
        TunnelPhase::ConnectOrigin => TunnelPhase::OriginHandshake,
        TunnelPhase::OriginHandshake => TunnelPhase::ClientHandshake,
        TunnelPhase::ClientHandshake => TunnelPhase::Relay,
        _ => TunnelPhase::Closed,
    }
}

/// The step reached from `phase` after the events in order.
pub open spec fn tunnel_run(phase: TunnelPhase, events: Seq<TunnelEvent>) -> TunnelPhase
    decreases events.len(),
{
    if events.len() == 0 {
        phase
    } else {
        tunnel_run(tunnel_next(phase, events[0]), events.skip(1))
    }
}

/// A closed session stays closed, whatever is reported.
pub proof fn lemma_closed_stays_closed(events: Seq<TunnelEvent>)
    ensures
        tunnel_run(TunnelPhase::Closed, events) == TunnelPhase::Closed,
    decreases events.len(),
{
    if events.len() > 0 {
        lemma_closed_stays_closed(events.skip(1));
    }
}

/// The origin is handshaken first: the client handshake is entered only from
/// a successful origin handshake, and after a failed origin handshake the
/// session is closed and never reaches the client handshake.
pub proof fn lemma_origin_before_client(phase: TunnelPhase, event: TunnelEvent, events: Seq<
    TunnelEvent,
>)
    ensures
        tunnel_next(phase, event) == TunnelPhase::ClientHandshake ==> phase
            == TunnelPhase::OriginHandshake && !(event is Failed),
        tunnel_next(TunnelPhase::OriginHandshake, TunnelEvent::Failed) == TunnelPhase::Closed,
        tunnel_run(tunnel_next(TunnelPhase::OriginHandshake, TunnelEvent::Failed), events)
            == TunnelPhase::Closed,
{
    lemma_closed_stays_closed(events);
}

/// The host and port of a `CONNECT` target: the first two pieces of `url`
/// split at `:`.
pub open spec fn connect_target_of(url: Seq<char>) -> Option<(Seq<char>, Seq<char>)> {
    let p = split_by(url, Sep::Char(':'));
    if p.len() < 2 {
        None
    } else {
        Some((p[0], p[1]))
    }
}

/// Splits a `CONNECT` target into its host and port.
pub fn parse_connect_target(url: &str) -> (r: Option<(String, String)>)
    ensures
        match connect_target_of(url@) {
            Some((h, p)) => r matches Some((rh, rp)) && rh@ == h && rp@ == p,
            None => r is None,
        },
{
    let chars = chars_of(url);
    let p = split_chars(&chars, Sep::Char(':'));
    if p.len() < 2 {
        return None;
    }
    assert(views(p@)[0] == p@[0]@);
    assert(views(p@)[1] == p@[1]@);
    Some((string_of(p[0].as_slice()), string_of(p[1].as_slice())))
}

/// The session id that a UUID's bytes give: its first four bytes, little-endian.
pub fn session_id_from_uuid_bytes(b: &[u8; 16]) -> (r: u32)
    ensures
        r == b[0] as int + b[1] as int * 0x100 + b[2] as int * 0x10000 + b[3] as int
            * 0x1000000,
{
    b[0] as u32 + b[1] as u32 * 0x100 + b[2] as u32 * 0x10000 + b[3] as u32 * 0x1000000
}

/// Relies on `uuid::Uuid::new_v4`: the bytes of a random UUID. Nothing is
/// known of them.
#[verifier::external_body]
fn random_uuid_bytes() -> (r: [u8; 16]) {
    uuid::Uuid::new_v4().into_bytes()
}

/// A fresh random session id.
pub fn new_session_id() -> u32 {
    let b = random_uuid_bytes();
    session_id_from_uuid_bytes(&b)
}

/// One client connection.
pub struct Session {
    /// The last request seen.
    pub request: Request,
    /// The last response seen.
    pub response: Response,
    pub session_id: u32,
    /// When the session was made, in seconds since the Unix epoch.
    pub time: Option<i64>,
    /// The step the caller must perform next.
    pub phase: TunnelPhase,
    /// The step that failed, if the session closed on a failure.
    pub failed_at: Option<TunnelPhase>,
    /// The host and port of the tunnel's target.
    pub target: Option<(String, String)>,
    /// The text the client sent through the tunnel.
    pub request_data: String,
    /// The text the origin sent back through the tunnel.
    pub response_data: String,
}

impl Session {
    /// A session waiting for its first request, stamped with the current time.
    pub fn new(session_id: u32) -> (r: Option<Self>)
        ensures
            r matches Some(s) && s.session_id == session_id && s.time is Some && s.phase
                == TunnelPhase::AwaitRequest && s.failed_at is None && s.target is None
                && s.request@ == default_request() && s.response@ == default_response()
                && s.request_data@.len() == 0 && s.response_data@.len() == 0,
    {
        Some(
            Session {
                request: Request::default(),
                response: Response::default(),
                session_id,
                time: Some(unix_now()),
                phase: TunnelPhase::AwaitRequest,
                failed_at: None,
                target: None,
                request_data: String::new(),
                response_data: String::new(),
            },
        )
    }

    pub fn set_request(&mut self, req: Request)
        ensures
            final(self).request == req,
            final(self).response == old(self).response,
            final(self).phase == old(self).phase,
    {
        self.request = req;
    }

    pub fn set_response(&mut self, resp: Response)
        ensures
            final(self).response == resp,
            final(self).request == old(self).request,
            final(self).phase == old(self).phase,
    {
        self.response = resp;
    }

    /// The text the client sent through the tunnel.
    pub fn get_request_data(&self) -> (r: String)
        ensures
            r@ == self.request_data@,
    {
        self.request_data.clone()
    }

    /// The text the origin sent back through the tunnel.
    pub fn get_response_data(&self) -> (r: String)
        ensures
            r@ == self.response_data@,
    {
        self.response_data.clone()
    }

    /// Takes the client's first bytes, everything received so far: until they
    /// hold an empty line the answer is `Incomplete`; then they must be UTF-8
    /// text holding a request. A `CONNECT` to `host:port` starts the tunnel at
    /// `SendEstablished`; any other method is recorded and the session closes
    /// (only tunnels are relayed).
    pub fn session_connect(&mut self, received: &[u8]) -> (r: Result<(), SessionError>)
        ensures
            final(self).session_id == old(self).session_id,
            final(self).time == old(self).time,
            final(self).response == old(self).response,
            received@.len() == 0 ==> r == Err::<(), SessionError>(SessionError::NoData)
                && *final(self) == *old(self),
            received@.len() > 0 && !has_blank_line(received@) ==> r == Err::<(), SessionError>(
                SessionError::Incomplete,
            ) && *final(self) == *old(self),
            received@.len() > 0 && has_blank_line(received@) && !valid_utf8(received@) ==> r == Err::<(), SessionError>(
                SessionError::NotText,
            ) && *final(self) == *old(self),
            received@.len() > 0 && has_blank_line(received@) && valid_utf8(received@) ==> match request_of(
                decode_utf8(received@),
            ) {
                None => r == Err::<(), SessionError>(SessionError::BadRequest) && *final(self)
                    == *old(self),
                Some(v) => final(self).request@ == v && if v.method != Method::CONNECT {
                    r is Ok && final(self).phase == TunnelPhase::Closed && final(self).target
                        is None
                } else {
                    match connect_target_of(v.url) {
                        None => r == Err::<(), SessionError>(SessionError::BadTarget)
                            && final(self).phase == TunnelPhase::Closed && final(self).failed_at
                            == Some(TunnelPhase::AwaitRequest) && final(self).target is None,
                        Some((h, p)) => {
                            &&& r is Ok
                            &&& final(self).phase == TunnelPhase::SendEstablished
                            &&& final(self).target matches Some((th, tp)) && th@ == h && tp@ == p
                        },
                    }
                },
            },
    {
        if received.len() == 0 {
            return Err(SessionError::NoData);
        }
        if !find_blank_line(received) {
            return Err(SessionError::Incomplete);
        }
        let text = match decode_strict(received) {
            Some(t) => t,
            None => {
                return Err(SessionError::NotText);
            },
        };
        let req = match Request::from_string(text.as_str()) {
            Some(q) => q,
            None => {
                return Err(SessionError::BadRequest);
            },
        };
        let is_connect = req.method == Method::CONNECT;
        let target = if is_connect {
            parse_connect_target(req.url.as_str())
        } else {
            None
        };
        self.request = req;
        if !is_connect {
            self.target = None;
            self.phase = TunnelPhase::Closed;
            return Ok(());
        }
        match target {
            Some(t) => {
                self.target = Some(t);
                self.phase = TunnelPhase::SendEstablished;
                Ok(())
            },
            None => {
                self.target = None;
                self.phase = TunnelPhase::Closed;
                self.failed_at = Some(TunnelPhase::AwaitRequest);
                Err(SessionError::BadTarget)
            },
        }
    }

    /// Takes the outcome of the step the caller performed and decides the next
    /// (see `tunnel_next`): the origin handshake comes before the client
    /// handshake, and any failure closes the session. A finished relay
    /// records the captured text and the request and response read from it.
    pub fn handle_https(&mut self, event: TunnelEvent) -> (r: TunnelPhase)
        ensures
            final(self).phase == tunnel_next(old(self).phase, event),
            r == final(self).phase,
            final(self).session_id == old(self).session_id,
            final(self).time == old(self).time,
            final(self).target == old(self).target,
            final(self).failed_at == if event is Failed && is_step(old(self).phase) {
                Some(old(self).phase)
            } else {
                old(self).failed_at
            },
            match event {
                TunnelEvent::Relayed(a, b) if old(self).phase == TunnelPhase::Relay => {
                    &&& final(self).request_data@ == a@
                    &&& final(self).response_data@ == b@
                    &&& match request_of(a@) {
                        Some(v) => final(self).request@ == v,
                        None => final(self).request == old(self).request,
                    }
                    &&& match response_of(b@) {
                        Ok(v) => final(self).response@ == v,
                        Err(_) => final(self).response == old(self).response,
                    }
                },
                _ => {
                    &&& final(self).request == old(self).request
                    &&& final(self).response == old(self).response
                    &&& final(self).request_data == old(self).request_data
                    &&& final(self).response_data == old(self).response_data
                },
            },
    {
        let phase = self.phase;
        if phase == TunnelPhase::AwaitRequest {
            return phase;
        }
        if phase == TunnelPhase::Closed {
            return phase;
        }
        let next = match event {
            TunnelEvent::Failed => {
                self.failed_at = Some(phase);
                TunnelPhase::Closed
            },
            TunnelEvent::Relayed(a, b) => {
                if phase == TunnelPhase::Relay {
                    if let Some(q) = Request::from_string(a.as_str()) {
                        self.request = q;
                    }
                    if let Ok(resp) = Response::from_string(b.as_str()) {
                        self.response = resp;
                    }
                    self.request_data = a;
                    self.response_data = b;
                }
                advance(phase)
            },
            TunnelEvent::Succeeded => advance(phase),
        };
        self.phase = next;
        next
    }
}

} // verus!
