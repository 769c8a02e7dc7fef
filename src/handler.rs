//! What a connection comes to, decided from what it sent. The caller owns
//! the socket: it reads once, asks `handle_connection` for the action, and
//! carries it out (wait, write the response, hand the audit record on).
use std::sync::Arc;
use vstd::prelude::*;

use crate::config::Config;
use crate::request::{parsed_request_of, result_view, ParseError, ParsedRequest, RequestSpec};
use crate::response::Status;
use crate::timeout::{
    clamp_timeout, digits_value, effective_timeout, parse_timeout_path, path_shape,
    requested_timeout,
};
use crate::validator::{allowed_method, RequestValidator};

verus! {

/// What is written to the audit store for a served request.
#[derive(Clone, Debug, PartialEq, Eq)]
pub struct AuditRecord {
    pub ip_address: String,
    /// The delay actually waited, after clamping.
    pub timeout_used: u8,
}

/// The work left for the caller once the request has been read.
#[derive(Clone, Debug, PartialEq, Eq)]
pub enum Action {
    /// Nothing was received: close without a response or a record.
    Ignore,
    /// Send this status at once and close.
    Reply(Status),
    /// Wait `delay_secs` seconds, send `204 No Content`, then write `audit`
    /// if there is one. The store's answer changes nothing for the client.
    Serve { delay_secs: u8, audit: Option<AuditRecord> },
}

pub ghost enum ActionSpec {
    Ignore,
    Reply(Status),
    Serve { delay_secs: u8, audit: Option<(Seq<char>, u8)> },
}

impl View for Action {
    type V = ActionSpec;

    open spec fn view(&self) -> ActionSpec {
        match self {
            Action::Ignore => ActionSpec::Ignore,
            Action::Reply(s) => ActionSpec::Reply(*s),
            Action::Serve { delay_secs, audit } => ActionSpec::Serve {
                delay_secs: *delay_secs,
                audit: match audit {
                    Some(rec) => Some((rec.ip_address@, rec.timeout_used)),
                    None => None,
                },
            },
        }
    }
}

/// The address a request is recorded under: the one a proxy forwarded, or
/// else the peer's.
pub open spec fn client_ip(peer_ip: Seq<char>, r: RequestSpec) -> Seq<char> {
    match r.real_ip {
        Some(ip) => ip,
        None => peer_ip,
    }
}

/// The action for a parsed request: `400` for a method off the allow-list
/// or a path not of the shape `/<digits>`; else wait the clamped delay,
/// answer `204`, and record the request when auditing is on.
pub open spec fn planned_action(cfg: Config, peer_ip: Seq<char>, r: RequestSpec) -> ActionSpec {
    if !allowed_method(r.method) || !path_shape(r.path) {
        ActionSpec::Reply(Status::BadRequest)
    } else {
        let t = clamp_timeout(requested_timeout(r.path), cfg.max_timeout);
        ActionSpec::Serve {
            delay_secs: t,
            audit: if cfg.audit_enabled() {
                Some((client_ip(peer_ip, r), t))
            } else {
                None
            },
        }
    }
}

/// Nothing was sent: the buffer is empty or starts with a zero byte.
pub open spec fn nothing_received(b: Seq<u8>) -> bool {
    b.len() == 0 || b[0] == 0
}

/// The action for a connection, given the outcome of its single read
/// (`None` when the read failed).
pub open spec fn connection_action(cfg: Config, peer_ip: Seq<char>, received: Option<Seq<u8>>) -> ActionSpec {
    match received {
        None => ActionSpec::Reply(Status::InternalServerError),
        Some(b) => if nothing_received(b) {
            ActionSpec::Ignore
        } else {
            match parsed_request_of(b) {
                Ok(r) => planned_action(cfg, peer_ip, r),
                Err(_) => ActionSpec::Reply(Status::BadRequest),
            }
        },
    }
}

pub open spec fn bytes_view(received: Option<&[u8]>) -> Option<Seq<u8>> {
    match received {
        Some(b) => Some(b@),
        None => None,
    }
}

/// The state of one accepted connection: the shared configuration and the
/// peer's address as text.
pub struct ConnectionHandler {
    pub config: Arc<Config>,
    pub peer_ip: String,
}

impl ConnectionHandler {
    pub fn new(config: Arc<Config>, peer_ip: String) -> (h: ConnectionHandler)
        ensures
            h.config == config,
            h.peer_ip@ == peer_ip@,
    {
        ConnectionHandler { config, peer_ip }
    }

    /// Parses the received bytes into a request.
    pub fn parse_request(buffer: &[u8]) -> (r: Result<ParsedRequest, ParseError>)
        ensures
            result_view(r) == parsed_request_of(buffer@),
    {
        ParsedRequest::parse(buffer)
    }

    /// Decides what to do with a parsed request.
    pub fn plan(&self, request: &ParsedRequest) -> (a: Action)
        ensures
            a@ == planned_action(*self.config, self.peer_ip@, request@),
    {
        if RequestValidator::validate(request).is_err() {
            return Action::Reply(Status::BadRequest);
        }
        let requested = match parse_timeout_path(request.path.as_str()) {
            Some(t) => t,
            None => {
                return Action::Reply(Status::BadRequest);
            },
        };
        let timeout = effective_timeout(requested, self.config.max_timeout);
        let audit = if self.config.can_log() {
            let ip_address = match &request.real_ip {
                Some(ip) => ip.clone(),
                None => self.peer_ip.clone(),
            };
            Some(AuditRecord { ip_address, timeout_used: timeout })
        } else {
            None
        };
        Action::Serve { delay_secs: timeout, audit }
    }

    /// Decides what a connection comes to from the outcome of its read:
    /// `500` when the read failed, nothing when nothing was sent, `400` when
    /// the bytes are not a request, and otherwise as `plan`.
    pub fn handle_connection(&self, received: Option<&[u8]>) -> (a: Action)
        ensures
            a@ == connection_action(*self.config, self.peer_ip@, bytes_view(received)),
    {
        match received {
            None => Action::Reply(Status::InternalServerError),
            Some(buffer) => {
                if buffer.len() == 0 || buffer[0] == 0 {
                    return Action::Ignore;
                }
                match Self::parse_request(buffer) {
                    Ok(request) => self.plan(&request),
                    Err(_) => Action::Reply(Status::BadRequest),
                }
            },
        }
    }
}

/// The delay waited is the requested one clamped to the ceiling, so it never
/// exceeds the ceiling; an audit record carries that same clamped delay.
pub proof fn lemma_delay_is_clamped(cfg: Config, peer_ip: Seq<char>, r: RequestSpec)
    ensures
        planned_action(cfg, peer_ip, r) matches ActionSpec::Serve { delay_secs, audit } ==> {
            &&& delay_secs == clamp_timeout(requested_timeout(r.path), cfg.max_timeout)
            &&& delay_secs <= cfg.max_timeout
            &&& delay_secs <= requested_timeout(r.path)
            &&& (audit matches Some(rec) ==> rec.1 == delay_secs)
        },
{
}

/// A request whose path is not `/` followed by digits gets `400` at once,
/// with no delay, whatever it sent otherwise.
pub proof fn lemma_bad_path_rejected(cfg: Config, peer_ip: Seq<char>, b: Seq<u8>, r: RequestSpec)
    requires
        !nothing_received(b),
        parsed_request_of(b) == Ok::<RequestSpec, ParseError>(r),
        !path_shape(r.path),
    ensures
        connection_action(cfg, peer_ip, Some(b)) == ActionSpec::Reply(Status::BadRequest),
{
}

/// A request whose method is off the allow-list gets `400` at once, whether
/// or not its path is valid.
pub proof fn lemma_bad_method_rejected(cfg: Config, peer_ip: Seq<char>, b: Seq<u8>, r: RequestSpec)
    requires
        !nothing_received(b),
        parsed_request_of(b) == Ok::<RequestSpec, ParseError>(r),
        !allowed_method(r.method),
    ensures
        connection_action(cfg, peer_ip, Some(b)) == ActionSpec::Reply(Status::BadRequest),
{
}

/// Digits whose value does not fit in eight bits ask for no delay: the
/// request is served at once rather than refused.
pub proof fn lemma_oversized_timeout_is_zero(cfg: Config, peer_ip: Seq<char>, r: RequestSpec)
    requires
        allowed_method(r.method),
        path_shape(r.path),
        digits_value(r.path.subrange(1, r.path.len() as int)) > 255,
    ensures
        planned_action(cfg, peer_ip, r) matches ActionSpec::Serve { delay_secs, .. } && delay_secs
            == 0,
{
}

/// A connection that sent nothing gets no response and leaves no record.
pub proof fn lemma_empty_connection_ignored(cfg: Config, peer_ip: Seq<char>, b: Seq<u8>)
    requires
        nothing_received(b),
    ensures
        connection_action(cfg, peer_ip, Some(b)) == ActionSpec::Ignore,
{
}

} // verus!
