//! Errors from spawning the child daemon and talking to it. Two errors are
//! equal when they are of the same kind: the I/O errors they carry do not
//! take part.
use vstd::prelude::*;
use vstd::std_specs::cmp::PartialEqSpecImpl;

verus! {

#[verifier::external_type_specification]
#[verifier::external_body]
pub struct ExIoError(std::io::Error);

/// Why running the daemon with escalated privileges failed.
#[derive(Debug)]
pub struct EscalationError {
    pub message: String,
}

/// Failure to spawn the daemon.
#[derive(Debug)]
pub enum SpawnDaemonError {
    /// Spawning it escalated failed.
    Escalation(EscalationError),
    /// Spawning it unescalated failed.
    Standard(std::io::Error),
}

/// Failure of the transport to the daemon.
#[derive(Debug)]
pub enum ClientTransportError {
    /// Managing the daemon failed.
    DaemonError(SpawnDaemonError),
    /// Receiving a message failed.
    Rx(std::io::Error),
    /// Sending a message failed.
    Tx(std::io::Error),
}

/// Whether two spawn errors are of the same kind.
pub open spec fn same_spawn_kind(a: SpawnDaemonError, b: SpawnDaemonError) -> bool {
    (a is Escalation && b is Escalation) || (a is Standard && b is Standard)
}

/// Whether two transport errors are of the same kind, daemon errors
/// compared by their own kind.
pub open spec fn same_transport_kind(a: ClientTransportError, b: ClientTransportError) -> bool {
    match (a, b) {
        (ClientTransportError::DaemonError(l), ClientTransportError::DaemonError(r)) =>
            same_spawn_kind(l, r),
        (ClientTransportError::Rx(_), ClientTransportError::Rx(_)) => true,
        (ClientTransportError::Tx(_), ClientTransportError::Tx(_)) => true,
        _ => false,
    }
}

impl PartialEq for SpawnDaemonError {
    fn eq(&self, other: &Self) -> (r: bool) {
        match (self, other) {
            (SpawnDaemonError::Escalation(_), SpawnDaemonError::Escalation(_)) => true,
            (SpawnDaemonError::Standard(_), SpawnDaemonError::Standard(_)) => true,
            _ => false,
        }
    }
}

impl PartialEqSpecImpl for SpawnDaemonError {
    open spec fn obeys_eq_spec() -> bool {
        true
    }

    open spec fn eq_spec(&self, other: &Self) -> bool {
        same_spawn_kind(*self, *other)
    }
}

impl PartialEq for ClientTransportError {
    fn eq(&self, other: &Self) -> (r: bool) {
        match (self, other) {
            (ClientTransportError::DaemonError(l), ClientTransportError::DaemonError(r)) => l == r,
            (ClientTransportError::Rx(_), ClientTransportError::Rx(_)) => true,
            (ClientTransportError::Tx(_), ClientTransportError::Tx(_)) => true,
            _ => false,
        }
    }
}

impl PartialEqSpecImpl for ClientTransportError {
    open spec fn obeys_eq_spec() -> bool {
        true
    }

    open spec fn eq_spec(&self, other: &Self) -> bool {
        same_transport_kind(*self, *other)
    }
}

/// Comparing spawn errors is reflexive and symmetric, and only tells kinds
/// apart.
pub proof fn lemma_spawn_eq_is_kind(a: SpawnDaemonError, b: SpawnDaemonError)
    ensures
        same_spawn_kind(a, a),
        same_spawn_kind(a, b) == same_spawn_kind(b, a),
        same_spawn_kind(a, b) <==> (a is Escalation) == (b is Escalation),
{
}

/// Comparing transport errors is reflexive and symmetric.
pub proof fn lemma_transport_eq_reflexive_symmetric(a: ClientTransportError, b: ClientTransportError)
    ensures
        same_transport_kind(a, a),
        same_transport_kind(a, b) == same_transport_kind(b, a),
{
}

} // verus!
