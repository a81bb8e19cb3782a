//! The connection manager: the factory and validator a generic pool drives.
//!
//! The manager owns one immutable connection descriptor.  It is stateless
//! beyond that: each `connect` attempt parses the descriptor, has the
//! driver open a socket and perform the protocol login, and classifies any
//! fault; each validation probe is one no-op round-trip whose outcome is
//! classified here.  The manager never retries and never swallows a
//! failure.

use vstd::prelude::*;
use crate::descriptor::{ConnectionConfig, parse_descriptor, parse_descriptor_spec};
use crate::errors::{ConnectError, SessionFault, ValidationError, fault_message};

verus! {

/// The phase of `connect` in which a fault arose: while dialing the raw
/// transport, or during the protocol handshake and login.
#[derive(Debug, Clone, Copy, PartialEq, Eq)]
pub enum ConnectPhase {
    /// Opening the TCP stream and configuring it.
    Dial,
    /// The protocol handshake and login exchange on the open stream.
    Login,
}

/// How a fault during `connect` is classified.
///
/// Every fault while dialing is a transport failure.  During login, socket
/// and TLS faults are still transport failures, while a server rejection
/// or a desynchronised stream is a protocol failure.
pub open spec fn connect_error_spec(phase: ConnectPhase, f: SessionFault) -> ConnectError {
    match phase {
        ConnectPhase::Dial => ConnectError::TransportFailure(fault_message(f)),
        ConnectPhase::Login => match f {
            SessionFault::Io(m) => ConnectError::TransportFailure(m),
            SessionFault::Tls(m) => ConnectError::TransportFailure(m),
            SessionFault::Server(_, m) => ConnectError::ProtocolFailure(m),
            SessionFault::Protocol(m) => ConnectError::ProtocolFailure(m),
        },
    }
}

/// How the outcome of a validation round-trip is classified: success
/// confirms the connection live and protocol-synchronised, and any fault
/// condemns the connection.
pub open spec fn probe_outcome_spec(outcome: Result<(), SessionFault>) -> Result<
    (),
    ValidationError,
> {
    match outcome {
        Ok(u) => Ok(u),
        Err(f) => Err(ValidationError { detail: fault_message(f) }),
    }
}

/// Where one `connect` attempt stands.  Exactly one attempt, no retry:
/// the attempt either delivers a fully authenticated session or fails
/// with one classified error.
#[derive(Debug, Clone, PartialEq, Eq)]
pub enum ConnectState {
    /// The descriptor is being parsed; nothing has touched the network.
    ParsingDescriptor,
    /// The parse succeeded; the transport is being dialed.
    Dialing,
    /// The transport is open; the login exchange is running on it.
    LoggingIn,
    /// A fully authenticated session is ready to hand to the pool.
    SessionReady,
    /// The attempt failed with a classified error.
    ConnectFailed(ConnectError),
}

/// What the driver reports after each step of a `connect` attempt.
#[derive(Debug, Clone, PartialEq, Eq)]
pub enum ConnectEvent {
    /// The descriptor parsed into a configuration.
    DescriptorParsed,
    /// The descriptor was rejected; carries the parse error.
    DescriptorRejected(ConnectError),
    /// The transport connected and was configured.
    DialSucceeded,
    /// Dialing or configuring the transport faulted.
    DialFaulted(SessionFault),
    /// The login exchange produced an authenticated session.
    LoginSucceeded,
    /// The login exchange faulted.
    LoginFaulted(SessionFault),
}

/// The `connect` decision rule: the state each event leads to.  A fault
/// is classified by the phase it struck; an event that does not belong
/// to the current state changes nothing; a finished attempt stays
/// finished.
pub open spec fn connect_step_spec(st: ConnectState, ev: ConnectEvent) -> ConnectState {
    match (st, ev) {
        (ConnectState::ParsingDescriptor, ConnectEvent::DescriptorParsed) => ConnectState::Dialing,
        (ConnectState::ParsingDescriptor, ConnectEvent::DescriptorRejected(e)) =>
            ConnectState::ConnectFailed(e),
        (ConnectState::Dialing, ConnectEvent::DialSucceeded) => ConnectState::LoggingIn,
        (ConnectState::Dialing, ConnectEvent::DialFaulted(f)) => ConnectState::ConnectFailed(
            connect_error_spec(ConnectPhase::Dial, f),
        ),
        (ConnectState::LoggingIn, ConnectEvent::LoginSucceeded) => ConnectState::SessionReady,
        (ConnectState::LoggingIn, ConnectEvent::LoginFaulted(f)) => ConnectState::ConnectFailed(
            connect_error_spec(ConnectPhase::Login, f),
        ),
        (other, _) => other,
    }
}

/// For every syntactically valid descriptor and every server that
/// answers the dial, the login and the validation round-trip without
/// fault, `connect` followed immediately by `is_valid` succeeds: the
/// connect attempt reaches `SessionReady`, and the fault-free probe is
/// confirmed rather than condemned.
pub proof fn lemma_connect_then_validate_succeeds(
    descriptor: Seq<char>,
    probe: Result<(), SessionFault>,
)
    requires
        parse_descriptor_spec(descriptor) is Some,
        probe is Ok,
    ensures
        connect_step_spec(
            connect_step_spec(
                connect_step_spec(ConnectState::ParsingDescriptor, ConnectEvent::DescriptorParsed),
                ConnectEvent::DialSucceeded,
            ),
            ConnectEvent::LoginSucceeded,
        ) == ConnectState::SessionReady,
        probe_outcome_spec(probe) is Ok,
{
}

/// A descriptor outside the grammar fails before any network I/O: the
/// only event that moves a connect attempt from parsing to dialing is a
/// successful parse, so no socket is ever opened for a rejected
/// descriptor.
pub proof fn lemma_no_dial_without_a_parse(ev: ConnectEvent)
    requires
        connect_step_spec(ConnectState::ParsingDescriptor, ev) == ConnectState::Dialing,
    ensures
        ev == ConnectEvent::DescriptorParsed,
{
}

/// A failed connect attempt stays failed whatever happens next: one
/// call is one attempt, and retry policy belongs to the pool and the
/// caller, never to this layer.
pub proof fn lemma_connect_failure_is_terminal(st: ConnectState, ev: ConnectEvent)
    requires
        st is ConnectFailed,
    ensures
        connect_step_spec(st, ev) == st,
{
}

/// The connection factory and validator for one descriptor.
#[derive(Debug, Clone)]
pub struct TiberiusConnectionManager {
    url: String,
}

impl View for TiberiusConnectionManager {
    type V = Seq<char>;

    closed spec fn view(&self) -> Seq<char> {
        self.url@
    }
}

impl TiberiusConnectionManager {
    /// Create a new `TiberiusConnectionManager` around a descriptor.
    ///
    /// Construction itself never fails: the descriptor is only parsed when
    /// a connection is attempted.  The `Result` shape matches the factory
    /// interface the pool expects.
    pub fn new(url: String) -> (r: Result<TiberiusConnectionManager, ConnectError>)
        ensures
            r is Ok,
            r->Ok_0@ == url@,
    {
        Ok(TiberiusConnectionManager { url })
    }

    /// The descriptor this manager connects with.
    pub fn descriptor(&self) -> (r: &String)
        ensures
            r@ == self@,
    {
        &self.url
    }

    /// Derive the structured configuration from the stored descriptor:
    /// the first step of `connect`, and the only one that needs no
    /// network.  A descriptor outside the grammar is rejected here with
    /// `InvalidDescriptor`, so no socket is ever opened for it; the
    /// driver dials and logs in only with the configuration this
    /// returns.
    pub fn connect_config(&self) -> (r: Result<ConnectionConfig, ConnectError>)
        ensures
            match parse_descriptor_spec(self@) {
                Some(c) => r is Ok && r->Ok_0@ == c,
                None => r is Err && r->Err_0 is InvalidDescriptor,
            },
    {
        parse_descriptor(self.url.as_str())
    }

    /// The state in which every `connect` attempt begins.
    pub fn initial_connect_state(&self) -> (st: ConnectState)
        ensures
            st == ConnectState::ParsingDescriptor,
    {
        ConnectState::ParsingDescriptor
    }

    /// Advance a `connect` attempt by one reported event.
    pub fn connect_step(&self, st: ConnectState, ev: ConnectEvent) -> (r: ConnectState)
        ensures
            r == connect_step_spec(st, ev),
    {
        match (st, ev) {
            (ConnectState::ParsingDescriptor, ConnectEvent::DescriptorParsed) =>
                ConnectState::Dialing,
            (ConnectState::ParsingDescriptor, ConnectEvent::DescriptorRejected(e)) =>
                ConnectState::ConnectFailed(e),
            (ConnectState::Dialing, ConnectEvent::DialSucceeded) => ConnectState::LoggingIn,
            (ConnectState::Dialing, ConnectEvent::DialFaulted(f)) => ConnectState::ConnectFailed(
                self.classify_connect_fault(ConnectPhase::Dial, f),
            ),
            (ConnectState::LoggingIn, ConnectEvent::LoginSucceeded) => ConnectState::SessionReady,
            (ConnectState::LoggingIn, ConnectEvent::LoginFaulted(f)) =>
                ConnectState::ConnectFailed(self.classify_connect_fault(ConnectPhase::Login, f)),
            (other, _) => other,
        }
    }

    /// Classify a fault that interrupted `connect`.
    pub fn classify_connect_fault(&self, phase: ConnectPhase, f: SessionFault) -> (e:
        ConnectError)
        ensures
            e == connect_error_spec(phase, f),
    {
        match phase {
            ConnectPhase::Dial => match f {
                SessionFault::Io(m) => ConnectError::TransportFailure(m),
                SessionFault::Tls(m) => ConnectError::TransportFailure(m),
                SessionFault::Server(_, m) => ConnectError::TransportFailure(m),
                SessionFault::Protocol(m) => ConnectError::TransportFailure(m),
            },
            ConnectPhase::Login => match f {
                SessionFault::Io(m) => ConnectError::TransportFailure(m),
                SessionFault::Tls(m) => ConnectError::TransportFailure(m),
                SessionFault::Server(_, m) => ConnectError::ProtocolFailure(m),
                SessionFault::Protocol(m) => ConnectError::ProtocolFailure(m),
            },
        }
    }

    /// Classify the outcome of a validation round-trip (`is_valid`): a
    /// fault-free round-trip confirms the connection, and any fault
    /// condemns it.  One failed probe is sufficient; there is no retry.
    pub fn classify_probe(&self, outcome: Result<(), SessionFault>) -> (v: Result<
        (),
        ValidationError,
    >)
        ensures
            v == probe_outcome_spec(outcome),
            v is Ok <==> outcome is Ok,
    {
        match outcome {
            Ok(u) => Ok(u),
            Err(f) => {
                let detail = match f {
                    SessionFault::Io(m) => m,
                    SessionFault::Tls(m) => m,
                    SessionFault::Server(_, m) => m,
                    SessionFault::Protocol(m) => m,
                };
                Err(ValidationError { detail })
            },
        }
    }

    /// Whether the pool should treat a connection as broken without a
    /// round-trip.  Always `false`: brokenness is determined reactively by
    /// the validation probe and by errors during actual use, never flagged
    /// proactively by this hook.
    pub fn has_broken(&self) -> (b: bool)
        ensures
            !b,
    {
        false
    }
}

} // verus!
