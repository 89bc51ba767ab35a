//! Routing failures and the fixed mapping from each failure to the TLS
//! alert description sent to the client before the connection is dropped.

use vstd::prelude::*;

verus! {

/// The TLS alert descriptions the admission layer ever selects. The wire
/// encoding belongs to the alert collaborator; the admission layer only
/// decides which description is sent, and when.
#[derive(Clone, Copy, Debug, PartialEq, Eq, Structural)]
pub enum AlertDescription {
    InternalError,
    UnrecognizedName,
    AccessDenied,
}

/// Why backend resolution failed for a routing key.
#[derive(Clone, Debug, PartialEq, Eq)]
pub enum RoutingFailure {
    /// No routing rule exists for the hostname.
    HostnameNotFound,
    /// A routing rule exists but no backend is configured for it.
    NoBackend,
    /// An ACL explicitly denies the peer/hostname combination.
    AccessDenied,
    /// Any other resolver failure, carrying its description.
    Other(String),
}

/// The alert selected for a routing failure. `HostnameNotFound` is the only
/// failure reported as `UnrecognizedName`; a missing backend is deliberately
/// reported as `AccessDenied` rather than something more specific, so that
/// configuration gaps are not leaked to the client; anything unclassified
/// fails closed as `InternalError`.
pub open spec fn spec_alert_for_failure(f: RoutingFailure) -> AlertDescription {
    match f {
        RoutingFailure::HostnameNotFound => AlertDescription::UnrecognizedName,
        RoutingFailure::NoBackend => AlertDescription::AccessDenied,
        RoutingFailure::AccessDenied => AlertDescription::AccessDenied,
        RoutingFailure::Other(_) => AlertDescription::InternalError,
    }
}

/// Select the alert for a routing failure, per `spec_alert_for_failure`.
pub fn alert_for_failure(f: &RoutingFailure) -> (a: AlertDescription)
    ensures
        a == spec_alert_for_failure(*f),
{
    match f {
        RoutingFailure::HostnameNotFound => AlertDescription::UnrecognizedName,
        RoutingFailure::NoBackend => AlertDescription::AccessDenied,
        RoutingFailure::AccessDenied => AlertDescription::AccessDenied,
        RoutingFailure::Other(_) => AlertDescription::InternalError,
    }
}

/// Law: every routing failure maps to its alert exactly as the admission
/// table prescribes, with every unclassified cause failing closed as
/// `InternalError`.
pub proof fn lemma_alert_mapping()
    ensures
        spec_alert_for_failure(RoutingFailure::HostnameNotFound)
            == AlertDescription::UnrecognizedName,
        spec_alert_for_failure(RoutingFailure::NoBackend) == AlertDescription::AccessDenied,
        spec_alert_for_failure(RoutingFailure::AccessDenied) == AlertDescription::AccessDenied,
        forall|cause: String|
            spec_alert_for_failure(RoutingFailure::Other(cause))
                == AlertDescription::InternalError,
{
}

} // verus!
