//! The admission state machine: every decision made between "a TCP
//! connection just arrived" and "bytes are flowing between client and
//! backend".
//!
//! The machine is purely a decision procedure. Each transition method takes
//! the result of the last piece of outside work (classification, context
//! publication, backend resolution, connect, handoff write, timeout clear)
//! and answers with the next [`Action`] for the caller to perform. The
//! caller owns the sockets and the collaborators; the machine owns the
//! protocol of decisions, and its contracts pin every transition.

use vstd::prelude::*;

use crate::addr::{sock_addr_text, spec_sock_addr_text, SockAddr};
use crate::alert::{alert_for_failure, spec_alert_for_failure, AlertDescription, RoutingFailure};
use crate::routing::{routing_key, spec_routing_key};

verus! {

/// Seconds allowed for the TCP connect to a resolved backend. A connect
/// attempt must fail as a `ConnectFailure` once this is exceeded rather
/// than hang the connection's task.
pub const CONNECT_TIMEOUT_SECS: u64 = 3;

/// Why speculative parsing of the captured prefix failed. The two
/// conditions resolve to the same alert today but stay distinguishable, so
/// a future policy may wait for more bytes without a redesign.
#[derive(Clone, Copy, Debug, PartialEq, Eq, Structural)]
pub enum ParseError {
    /// Too few bytes were available to decide either way.
    InsufficientData,
    /// The bytes cannot be a TLS ClientHello.
    Malformed,
}

/// What the handshake classifier saw in the captured prefix.
#[derive(Clone, Debug, PartialEq, Eq)]
pub enum ClassifiedHello {
    /// A TLS ClientHello, with its SNI hostname if one was present and
    /// whether it is an ALPN challenge.
    RecognizedTls { hostname: Option<String>, is_challenge: bool },
    /// Not TLS, but plausibly an HTTP request.
    LooksLikeHttp,
    /// Neither, with the classifier's description of the failure.
    Unrecognized { kind: ParseError, detail: String },
}

/// Which proxy-protocol header version a backend expects, if any.
#[derive(Clone, Copy, Debug, PartialEq, Eq, Structural)]
pub enum ProxyProtocolVersion {
    V1,
    V2,
}

/// A resolved backend: a resolvable network address and the proxy-protocol
/// version to emit before the replay, if the backend expects one.
#[derive(Clone, Debug, PartialEq, Eq)]
pub struct BackendDescriptor {
    pub address: String,
    pub proxy_protocol: Option<ProxyProtocolVersion>,
}

/// The classified error a failed admission reports to its caller.
#[derive(Clone, Debug, PartialEq, Eq)]
pub enum AdmissionError {
    /// The captured prefix could not be parsed as TLS.
    ParseFailure { kind: ParseError, detail: String },
    /// The routing key could not be published to connection context.
    ContextFailure { detail: String },
    /// The backend resolver refused the routing key.
    RoutingFailed { failure: RoutingFailure, hostname: String, peer: SockAddr },
    /// The backend could not be reached within the connect timeout.
    ConnectFailure { address: String, detail: String },
    /// The handoff write failed, or a socket timeout could not be cleared.
    HandoffFailure { detail: String },
}

/// The message an admission error reports to the caller: each failure
/// names what it needs to be acted on — the hostname a route was missing
/// for, the peer an ACL denied, the backend address a connect never
/// reached.
pub open spec fn spec_error_message(e: AdmissionError) -> Seq<char> {
    match e {
        AdmissionError::ParseFailure { kind: _, detail } => "Could not parse TLS message: "@
            + detail@,
        AdmissionError::ContextFailure { detail } =>
            "Could not set hostname in connection context: "@ + detail@,
        AdmissionError::RoutingFailed { failure, hostname, peer } => match failure {
            RoutingFailure::HostnameNotFound => "No route found for '"@ + hostname@ + "'"@,
            RoutingFailure::NoBackend => "No backend defined for '"@ + hostname@ + "'"@,
            RoutingFailure::AccessDenied => "Request from "@ + spec_sock_addr_text(peer)
                + " for '"@ + hostname@ + "' was denied by ACLs"@,
            RoutingFailure::Other(cause) => cause@,
        },
        AdmissionError::ConnectFailure { address, detail } => "Could not connect to backend '"@
            + address@ + "': "@ + detail@,
        AdmissionError::HandoffFailure { detail } => "Could not hand off connection to backend: "@
            + detail@,
    }
}

impl AdmissionError {
    /// The error's message, per `spec_error_message`.
    pub fn message(&self) -> (m: String)
        ensures
            m@ == spec_error_message(*self),
    {
        let mut out = String::new();
        match self {
            AdmissionError::ParseFailure { kind: _, detail } => {
                proof {
                    reveal_strlit("Could not parse TLS message: ");
                }
                out.append("Could not parse TLS message: ");
                out.append(detail.as_str());
            },
            AdmissionError::ContextFailure { detail } => {
                proof {
                    reveal_strlit("Could not set hostname in connection context: ");
                }
                out.append("Could not set hostname in connection context: ");
                out.append(detail.as_str());
            },
            AdmissionError::RoutingFailed { failure, hostname, peer } => {
                match failure {
                    RoutingFailure::HostnameNotFound => {
                        proof {
                            reveal_strlit("No route found for '");
                            reveal_strlit("'");
                        }
                        out.append("No route found for '");
                        out.append(hostname.as_str());
                        out.append("'");
                    },
                    RoutingFailure::NoBackend => {
                        proof {
                            reveal_strlit("No backend defined for '");
                            reveal_strlit("'");
                        }
                        out.append("No backend defined for '");
                        out.append(hostname.as_str());
                        out.append("'");
                    },
                    RoutingFailure::AccessDenied => {
                        proof {
                            reveal_strlit("Request from ");
                            reveal_strlit(" for '");
                            reveal_strlit("' was denied by ACLs");
                        }
                        let peer_text = sock_addr_text(peer);
                        out.append("Request from ");
                        out.append(peer_text.as_str());
                        out.append(" for '");
                        out.append(hostname.as_str());
                        out.append("' was denied by ACLs");
                    },
                    RoutingFailure::Other(cause) => {
                        out.append(cause.as_str());
                    },
                }
            },
            AdmissionError::ConnectFailure { address, detail } => {
                proof {
                    reveal_strlit("Could not connect to backend '");
                    reveal_strlit("': ");
                }
                out.append("Could not connect to backend '");
                out.append(address.as_str());
                out.append("': ");
                out.append(detail.as_str());
            },
            AdmissionError::HandoffFailure { detail } => {
                proof {
                    reveal_strlit("Could not hand off connection to backend: ");
                }
                out.append("Could not hand off connection to backend: ");
                out.append(detail.as_str());
            },
        }
        proof {
            assert(out@ =~= spec_error_message(*self));
        }
        out
    }
}

/// How a connection's admission ended. Every connection ends in exactly one
/// of these.
#[derive(Clone, Debug, PartialEq, Eq)]
pub enum AdmissionOutcome {
    /// Handoff completed; the forwarder owns both sockets.
    ForwardingStarted,
    /// The HTTP fallback answered the client.
    RedirectedAsHttp,
    /// An alert was selected and the connection was dropped.
    RejectedWithAlert(AlertDescription),
    /// The connection was dropped without an alert, with the cause.
    Aborted(String),
}

/// Where the machine stands between two pieces of outside work.
#[derive(Clone, Copy, Debug, PartialEq, Eq, Structural)]
pub enum Phase {
    /// Waiting for the classifier's verdict on the captured prefix.
    Sniffing,
    /// Waiting for the HTTP fallback to answer the client.
    Redirecting,
    /// Waiting for the routing key to reach connection context.
    Publishing,
    /// Waiting for the backend resolver.
    Resolving,
    /// Waiting for the TCP connect to the backend.
    Connecting,
    /// Waiting for the handoff write to the backend.
    HandingOff,
    /// Waiting for both sockets' timeouts to be cleared.
    ClearingTimeouts,
    /// Terminal; the outcome is recorded.
    Done,
}

/// What the caller must do next. Data the action does not carry (the
/// captured bytes, the peer address, the sockets) is the caller's own.
#[derive(Clone, Debug, PartialEq, Eq)]
pub enum Action {
    /// Publish the routing key to connection-scoped context.
    PublishHostname { hostname: String },
    /// Hand the captured bytes and the peer address to the HTTP fallback.
    RedirectHttp,
    /// Ask the backend resolver for (hostname, peer, challenge flag).
    Resolve { hostname: String, is_challenge: bool },
    /// Open a TCP connection to the backend, bounded by the timeout.
    Connect { address: String, timeout_secs: u64 },
    /// Write the optional proxy-protocol header and the captured prefix to
    /// the backend in one buffered pass, then drop the buffering.
    EmitHandoff { proxy_protocol: Option<ProxyProtocolVersion> },
    /// Clear read and write timeouts on both sockets.
    ClearTimeouts,
    /// Hand both raw sockets to the forwarder.
    StartForwarding,
    /// Send the alert to the client, best effort, then close, reporting the
    /// error. A failure to send the alert never masks the error.
    SendAlertAndClose { alert: AlertDescription, error: AdmissionError },
}

/// An event, stripped to its kind: which piece of outside work finished,
/// and how. The payload-free view the control laws quantify over.
pub enum EventKind {
    ClassifiedTls,
    ClassifiedHttp,
    ClassifiedBad,
    RedirectOk,
    RedirectErr,
    PublishOk,
    PublishErr,
    ResolveOk,
    ResolveErr,
    ConnectOk,
    ConnectErr,
    WriteOk,
    WriteErr,
    ClearOk,
    ClearErr,
}

/// An action, stripped to its kind.
pub enum ActionKind {
    Publish,
    Redirect,
    Resolve,
    Connect,
    EmitHandoff,
    ClearTimeouts,
    StartForwarding,
    SendAlert,
    /// The transition asks nothing of the caller (terminal bookkeeping, or
    /// an event that does not belong to the phase).
    Nothing,
}

/// The kind of a classifier verdict.
pub open spec fn classified_kind(c: ClassifiedHello) -> EventKind {
    match c {
        ClassifiedHello::RecognizedTls { .. } => EventKind::ClassifiedTls,
        ClassifiedHello::LooksLikeHttp => EventKind::ClassifiedHttp,
        ClassifiedHello::Unrecognized { .. } => EventKind::ClassifiedBad,
    }
}

/// The kind of an action.
pub open spec fn action_kind(a: Action) -> ActionKind {
    match a {
        Action::PublishHostname { .. } => ActionKind::Publish,
        Action::RedirectHttp => ActionKind::Redirect,
        Action::Resolve { .. } => ActionKind::Resolve,
        Action::Connect { .. } => ActionKind::Connect,
        Action::EmitHandoff { .. } => ActionKind::EmitHandoff,
        Action::ClearTimeouts => ActionKind::ClearTimeouts,
        Action::StartForwarding => ActionKind::StartForwarding,
        Action::SendAlertAndClose { .. } => ActionKind::SendAlert,
    }
}

/// The control skeleton of the machine: the phase each event kind leads to
/// from each phase. An event that does not belong to the phase changes
/// nothing.
pub open spec fn next_phase(p: Phase, ev: EventKind) -> Phase {
    match (p, ev) {
        (Phase::Sniffing, EventKind::ClassifiedTls) => Phase::Publishing,
        (Phase::Sniffing, EventKind::ClassifiedHttp) => Phase::Redirecting,
        (Phase::Sniffing, EventKind::ClassifiedBad) => Phase::Done,
        (Phase::Redirecting, EventKind::RedirectOk) => Phase::Done,
        (Phase::Redirecting, EventKind::RedirectErr) => Phase::Done,
        (Phase::Publishing, EventKind::PublishOk) => Phase::Resolving,
        (Phase::Publishing, EventKind::PublishErr) => Phase::Done,
        (Phase::Resolving, EventKind::ResolveOk) => Phase::Connecting,
        (Phase::Resolving, EventKind::ResolveErr) => Phase::Done,
        (Phase::Connecting, EventKind::ConnectOk) => Phase::HandingOff,
        (Phase::Connecting, EventKind::ConnectErr) => Phase::Done,
        (Phase::HandingOff, EventKind::WriteOk) => Phase::ClearingTimeouts,
        (Phase::HandingOff, EventKind::WriteErr) => Phase::Done,
        (Phase::ClearingTimeouts, EventKind::ClearOk) => Phase::Done,
        (Phase::ClearingTimeouts, EventKind::ClearErr) => Phase::Done,
        _ => p,
    }
}

/// The action each event kind provokes from each phase. An event that does
/// not belong to the phase asks nothing.
pub open spec fn action_of(p: Phase, ev: EventKind) -> ActionKind {
    match (p, ev) {
        (Phase::Sniffing, EventKind::ClassifiedTls) => ActionKind::Publish,
        (Phase::Sniffing, EventKind::ClassifiedHttp) => ActionKind::Redirect,
        (Phase::Sniffing, EventKind::ClassifiedBad) => ActionKind::SendAlert,
        (Phase::Publishing, EventKind::PublishOk) => ActionKind::Resolve,
        (Phase::Publishing, EventKind::PublishErr) => ActionKind::SendAlert,
        (Phase::Resolving, EventKind::ResolveOk) => ActionKind::Connect,
        (Phase::Resolving, EventKind::ResolveErr) => ActionKind::SendAlert,
        (Phase::Connecting, EventKind::ConnectOk) => ActionKind::EmitHandoff,
        (Phase::Connecting, EventKind::ConnectErr) => ActionKind::SendAlert,
        (Phase::HandingOff, EventKind::WriteOk) => ActionKind::ClearTimeouts,
        (Phase::HandingOff, EventKind::WriteErr) => ActionKind::SendAlert,
        (Phase::ClearingTimeouts, EventKind::ClearOk) => ActionKind::StartForwarding,
        (Phase::ClearingTimeouts, EventKind::ClearErr) => ActionKind::SendAlert,
        _ => ActionKind::Nothing,
    }
}

/// The admission state machine for one connection.
pub struct Admission {
    /// Where the machine stands.
    pub phase: Phase,
    /// The client's address, as the resolver and error messages see it.
    pub peer: SockAddr,
    /// The listener's address, the fallback source of the routing key.
    pub local: SockAddr,
    /// The routing key, once derived: SNI hostname or local IP text.
    pub hostname: Option<String>,
    /// Whether the ClientHello was an ALPN challenge.
    pub is_challenge: bool,
    /// The resolved backend, once known.
    pub backend: Option<BackendDescriptor>,
    /// The terminal outcome, exactly when the machine is done.
    pub outcome: Option<AdmissionOutcome>,
}

impl Admission {
    /// What every phase guarantees about the data fields.
    pub open spec fn wf(&self) -> bool {
        &&& (self.phase == Phase::Publishing || self.phase == Phase::Resolving
            ==> self.hostname is Some)
        &&& (self.phase == Phase::Connecting || self.phase == Phase::HandingOff
            || self.phase == Phase::ClearingTimeouts ==> self.hostname is Some
            && self.backend is Some)
        &&& (self.outcome is Some <==> self.phase == Phase::Done)
    }

    /// A fresh machine for a connection between `peer` and `local`,
    /// waiting for the classifier.
    pub fn new(peer: SockAddr, local: SockAddr) -> (m: Admission)
        ensures
            m.wf(),
            m.phase == Phase::Sniffing,
            m.peer == peer,
            m.local == local,
            m.hostname is None,
            m.backend is None,
            m.outcome is None,
            !m.is_challenge,
    {
        Admission {
            phase: Phase::Sniffing,
            peer,
            local,
            hostname: None,
            is_challenge: false,
            backend: None,
            outcome: None,
        }
    }

    /// The classifier's verdict arrived. A recognized ClientHello fixes the
    /// routing key — the SNI hostname if present and non-empty, else the
    /// local IP text — and asks for its publication; an HTTP-looking prefix
    /// goes to the fallback, with no alert ever sent on that path; anything
    /// else is rejected with `InternalError`.
    pub fn on_classified(&mut self, c: ClassifiedHello) -> (a: Action)
        requires
            old(self).wf(),
            old(self).phase == Phase::Sniffing,
        ensures
            final(self).wf(),
            final(self).peer == old(self).peer,
            final(self).local == old(self).local,
            final(self).phase == next_phase(Phase::Sniffing, classified_kind(c)),
            action_kind(a) == action_of(Phase::Sniffing, classified_kind(c)),
            (c matches ClassifiedHello::RecognizedTls { hostname, is_challenge } ==> {
                &&& final(self).hostname matches Some(k) && k@ == spec_routing_key(
                    hostname,
                    old(self).local,
                )
                &&& final(self).is_challenge == is_challenge
                &&& a matches Action::PublishHostname { hostname: p } && p@ == spec_routing_key(
                    hostname,
                    old(self).local,
                )
            }),
            (c matches ClassifiedHello::LooksLikeHttp ==> a == Action::RedirectHttp
                && final(self).hostname == old(self).hostname && final(self).backend == old(
                self,
            ).backend),
            (c matches ClassifiedHello::Unrecognized { kind, detail } ==> {
                &&& final(self).outcome == Some(
                    AdmissionOutcome::RejectedWithAlert(AlertDescription::InternalError),
                )
                &&& a matches Action::SendAlertAndClose { alert, error }
                    && alert == AlertDescription::InternalError
                    && (error matches AdmissionError::ParseFailure { kind: k, detail: d }
                        && k == kind && d@ == detail@)
            }),
    {
        match c {
            ClassifiedHello::RecognizedTls { hostname, is_challenge } => {
                let key = routing_key(&hostname, &self.local);
                self.hostname = Some(key.clone());
                self.is_challenge = is_challenge;
                self.phase = Phase::Publishing;
                Action::PublishHostname { hostname: key }
            },
            ClassifiedHello::LooksLikeHttp => {
                self.phase = Phase::Redirecting;
                Action::RedirectHttp
            },
            ClassifiedHello::Unrecognized { kind, detail } => {
                self.phase = Phase::Done;
                self.outcome = Some(
                    AdmissionOutcome::RejectedWithAlert(AlertDescription::InternalError),
                );
                Action::SendAlertAndClose {
                    alert: AlertDescription::InternalError,
                    error: AdmissionError::ParseFailure { kind, detail },
                }
            },
        }
    }

    /// The HTTP fallback finished; its result is the outcome, unchanged.
    pub fn on_redirected(&mut self, r: Result<(), String>)
        requires
            old(self).wf(),
            old(self).phase == Phase::Redirecting,
        ensures
            final(self).wf(),
            final(self).phase == Phase::Done,
            (r matches Ok(()) ==> final(self).outcome == Some(
                AdmissionOutcome::RedirectedAsHttp,
            )),
            (r matches Err(d) ==> final(self).outcome matches Some(
                AdmissionOutcome::Aborted(cause),
            ) && cause@ == d@),
    {
        self.phase = Phase::Done;
        self.outcome = Some(
            match r {
                Ok(()) => AdmissionOutcome::RedirectedAsHttp,
                Err(d) => AdmissionOutcome::Aborted(d),
            },
        );
    }

    /// Connection context reported on the routing key's publication. On
    /// success the backend resolver is asked next; a publication failure is
    /// an internal error and rejects the connection.
    pub fn on_published(&mut self, r: Result<(), String>) -> (a: Action)
        requires
            old(self).wf(),
            old(self).phase == Phase::Publishing,
        ensures
            final(self).wf(),
            final(self).peer == old(self).peer,
            final(self).local == old(self).local,
            final(self).hostname == old(self).hostname,
            final(self).is_challenge == old(self).is_challenge,
            final(self).phase == next_phase(
                Phase::Publishing,
                if r is Ok {
                    EventKind::PublishOk
                } else {
                    EventKind::PublishErr
                },
            ),
            action_kind(a) == action_of(
                Phase::Publishing,
                if r is Ok {
                    EventKind::PublishOk
                } else {
                    EventKind::PublishErr
                },
            ),
            (r matches Ok(()) ==> a matches Action::Resolve { hostname, is_challenge }
                && hostname@ == old(self).hostname->0@ && is_challenge == old(
                self,
            ).is_challenge),
            (r matches Err(d) ==> {
                &&& final(self).outcome == Some(
                    AdmissionOutcome::RejectedWithAlert(AlertDescription::InternalError),
                )
                &&& a matches Action::SendAlertAndClose { alert, error }
                    && alert == AlertDescription::InternalError
                    && (error matches AdmissionError::ContextFailure { detail } && detail@ == d@)
            }),
    {
        match r {
            Ok(()) => {
                let hostname = match &self.hostname {
                    Some(h) => h.clone(),
                    None => {
                        proof {
                            assert(false);
                        }
                        String::new()
                    },
                };
                self.phase = Phase::Resolving;
                Action::Resolve { hostname, is_challenge: self.is_challenge }
            },
            Err(d) => {
                self.phase = Phase::Done;
                self.outcome = Some(
                    AdmissionOutcome::RejectedWithAlert(AlertDescription::InternalError),
                );
                Action::SendAlertAndClose {
                    alert: AlertDescription::InternalError,
                    error: AdmissionError::ContextFailure { detail: d },
                }
            },
        }
    }

    /// The backend resolver answered. A backend starts the bounded-timeout
    /// connect; a failure is rejected with the alert the mapping
    /// prescribes, reporting the hostname and the failure kind.
    pub fn on_resolved(&mut self, r: Result<BackendDescriptor, RoutingFailure>) -> (a: Action)
        requires
            old(self).wf(),
            old(self).phase == Phase::Resolving,
        ensures
            final(self).wf(),
            final(self).peer == old(self).peer,
            final(self).local == old(self).local,
            final(self).hostname == old(self).hostname,
            final(self).is_challenge == old(self).is_challenge,
            final(self).phase == next_phase(
                Phase::Resolving,
                if r is Ok {
                    EventKind::ResolveOk
                } else {
                    EventKind::ResolveErr
                },
            ),
            action_kind(a) == action_of(
                Phase::Resolving,
                if r is Ok {
                    EventKind::ResolveOk
                } else {
                    EventKind::ResolveErr
                },
            ),
            (r matches Ok(b) ==> {
                &&& final(self).backend == Some(b)
                &&& a matches Action::Connect { address, timeout_secs } && address@ == b.address@
                    && timeout_secs == CONNECT_TIMEOUT_SECS
            }),
            (r matches Err(f) ==> {
                &&& final(self).outcome == Some(
                    AdmissionOutcome::RejectedWithAlert(spec_alert_for_failure(f)),
                )
                &&& a matches Action::SendAlertAndClose { alert, error }
                    && alert == spec_alert_for_failure(f)
                    && (error matches AdmissionError::RoutingFailed { failure, hostname, peer }
                        && failure == f && hostname@ == old(self).hostname->0@
                        && peer == old(self).peer)
            }),
    {
        match r {
            Ok(b) => {
                let address = b.address.clone();
                self.backend = Some(b);
                self.phase = Phase::Connecting;
                Action::Connect { address, timeout_secs: CONNECT_TIMEOUT_SECS }
            },
            Err(f) => {
                let alert = alert_for_failure(&f);
                let hostname = match &self.hostname {
                    Some(h) => h.clone(),
                    None => {
                        proof {
                            assert(false);
                        }
                        String::new()
                    },
                };
                self.phase = Phase::Done;
                self.outcome = Some(AdmissionOutcome::RejectedWithAlert(alert));
                Action::SendAlertAndClose {
                    alert,
                    error: AdmissionError::RoutingFailed { failure: f, hostname, peer: self.peer },
                }
            },
        }
    }

    /// The connect attempt finished. Success moves to the handoff write;
    /// timeout or refusal is an internal error naming the backend address.
    pub fn on_connected(&mut self, r: Result<(), String>) -> (a: Action)
        requires
            old(self).wf(),
            old(self).phase == Phase::Connecting,
        ensures
            final(self).wf(),
            final(self).peer == old(self).peer,
            final(self).local == old(self).local,
            final(self).hostname == old(self).hostname,
            final(self).backend == old(self).backend,
            final(self).phase == next_phase(
                Phase::Connecting,
                if r is Ok {
                    EventKind::ConnectOk
                } else {
                    EventKind::ConnectErr
                },
            ),
            action_kind(a) == action_of(
                Phase::Connecting,
                if r is Ok {
                    EventKind::ConnectOk
                } else {
                    EventKind::ConnectErr
                },
            ),
            (r matches Ok(()) ==> a == (Action::EmitHandoff {
                proxy_protocol: old(self).backend->0.proxy_protocol,
            })),
            (r matches Err(d) ==> {
                &&& final(self).outcome == Some(
                    AdmissionOutcome::RejectedWithAlert(AlertDescription::InternalError),
                )
                &&& a matches Action::SendAlertAndClose { alert, error }
                    && alert == AlertDescription::InternalError
                    && (error matches AdmissionError::ConnectFailure { address, detail }
                        && address@ == old(self).backend->0.address@ && detail@ == d@)
            }),
    {
        let backend_address = match &self.backend {
            Some(b) => b.address.clone(),
            None => {
                proof {
                    assert(false);
                }
                String::new()
            },
        };
        match r {
            Ok(()) => {
                let proxy_protocol = match &self.backend {
                    Some(b) => b.proxy_protocol,
                    None => {
                        proof {
                            assert(false);
                        }
                        None
                    },
                };
                self.phase = Phase::HandingOff;
                Action::EmitHandoff { proxy_protocol }
            },
            Err(d) => {
                self.phase = Phase::Done;
                self.outcome = Some(
                    AdmissionOutcome::RejectedWithAlert(AlertDescription::InternalError),
                );
                Action::SendAlertAndClose {
                    alert: AlertDescription::InternalError,
                    error: AdmissionError::ConnectFailure { address: backend_address, detail: d },
                }
            },
        }
    }

    /// The handoff write (optional header, then the captured prefix, then
    /// the flush) finished. Success asks for the timeouts to be cleared; a
    /// write failure is an internal error.
    pub fn on_handoff_written(&mut self, r: Result<(), String>) -> (a: Action)
        requires
            old(self).wf(),
            old(self).phase == Phase::HandingOff,
        ensures
            final(self).wf(),
            final(self).peer == old(self).peer,
            final(self).local == old(self).local,
            final(self).hostname == old(self).hostname,
            final(self).backend == old(self).backend,
            final(self).phase == next_phase(
                Phase::HandingOff,
                if r is Ok {
                    EventKind::WriteOk
                } else {
                    EventKind::WriteErr
                },
            ),
            action_kind(a) == action_of(
                Phase::HandingOff,
                if r is Ok {
                    EventKind::WriteOk
                } else {
                    EventKind::WriteErr
                },
            ),
            (r matches Ok(()) ==> a == Action::ClearTimeouts),
            (r matches Err(d) ==> {
                &&& final(self).outcome == Some(
                    AdmissionOutcome::RejectedWithAlert(AlertDescription::InternalError),
                )
                &&& a matches Action::SendAlertAndClose { alert, error }
                    && alert == AlertDescription::InternalError
                    && (error matches AdmissionError::HandoffFailure { detail } && detail@ == d@)
            }),
    {
        match r {
            Ok(()) => {
                self.phase = Phase::ClearingTimeouts;
                Action::ClearTimeouts
            },
            Err(d) => {
                self.phase = Phase::Done;
                self.outcome = Some(
                    AdmissionOutcome::RejectedWithAlert(AlertDescription::InternalError),
                );
                Action::SendAlertAndClose {
                    alert: AlertDescription::InternalError,
                    error: AdmissionError::HandoffFailure { detail: d },
                }
            },
        }
    }

    /// Both sockets reported on the timeout clear. Only after a successful
    /// clear does forwarding start; a failure here is fatal and alerted,
    /// since a surviving timeout would silently truncate long sessions.
    pub fn on_timeouts_cleared(&mut self, r: Result<(), String>) -> (a: Action)
        requires
            old(self).wf(),
            old(self).phase == Phase::ClearingTimeouts,
        ensures
            final(self).wf(),
            final(self).peer == old(self).peer,
            final(self).local == old(self).local,
            final(self).hostname == old(self).hostname,
            final(self).backend == old(self).backend,
            final(self).phase == Phase::Done,
            action_kind(a) == action_of(
                Phase::ClearingTimeouts,
                if r is Ok {
                    EventKind::ClearOk
                } else {
                    EventKind::ClearErr
                },
            ),
            (r matches Ok(()) ==> {
                &&& final(self).outcome == Some(AdmissionOutcome::ForwardingStarted)
                &&& a == Action::StartForwarding
            }),
            (r matches Err(d) ==> {
                &&& final(self).outcome == Some(
                    AdmissionOutcome::RejectedWithAlert(AlertDescription::InternalError),
                )
                &&& a matches Action::SendAlertAndClose { alert, error }
                    && alert == AlertDescription::InternalError
                    && (error matches AdmissionError::HandoffFailure { detail } && detail@ == d@)
            }),
    {
        match r {
            Ok(()) => {
                self.phase = Phase::Done;
                self.outcome = Some(AdmissionOutcome::ForwardingStarted);
                Action::StartForwarding
            },
            Err(d) => {
                self.phase = Phase::Done;
                self.outcome = Some(
                    AdmissionOutcome::RejectedWithAlert(AlertDescription::InternalError),
                );
                Action::SendAlertAndClose {
                    alert: AlertDescription::InternalError,
                    error: AdmissionError::HandoffFailure { detail: d },
                }
            },
        }
    }
}

/// Law: the HTTP fallback path never alerts and never resolves. Once the
/// machine stands in `Redirecting` (or is done), every event leads back
/// into that set, and no transition ever asks for a TLS alert to be sent
/// or for the backend resolver to be called.
pub proof fn lemma_http_path_is_alert_free(p: Phase, ev: EventKind)
    requires
        p == Phase::Redirecting || p == Phase::Done,
    ensures
        next_phase(p, ev) == Phase::Redirecting || next_phase(p, ev) == Phase::Done,
        action_of(p, ev) != ActionKind::SendAlert,
        action_of(p, ev) != ActionKind::Resolve,
{
}

/// Law: a done machine stays done and asks for nothing more; every
/// connection ends in exactly one outcome.
pub proof fn lemma_done_is_terminal(ev: EventKind)
    ensures
        next_phase(Phase::Done, ev) == Phase::Done,
        action_of(Phase::Done, ev) == ActionKind::Nothing,
{
}

/// Law: the routing key is published at most once per connection, and the
/// backend resolver is asked at most once. Publication is asked for only
/// when classification recognizes TLS, resolution only when publication
/// succeeded, and the sniffing phase is never re-entered once left.
pub proof fn lemma_key_published_once(p: Phase, ev: EventKind)
    ensures
        action_of(p, ev) == ActionKind::Publish <==> (p == Phase::Sniffing && ev
            == EventKind::ClassifiedTls),
        action_of(p, ev) == ActionKind::Resolve <==> (p == Phase::Publishing && ev
            == EventKind::PublishOk),
        p != Phase::Sniffing ==> next_phase(p, ev) != Phase::Sniffing,
{
}

/// Law: forwarding starts exactly when the timeout clear succeeded. No
/// other phase and no other event ever hands the sockets to the forwarder,
/// so a connection that forwards has both sockets' timeouts cleared.
pub proof fn lemma_forwarding_needs_cleared_timeouts(p: Phase, ev: EventKind)
    ensures
        action_of(p, ev) == ActionKind::StartForwarding <==> (p == Phase::ClearingTimeouts
            && ev == EventKind::ClearOk),
{
}

} // verus!
