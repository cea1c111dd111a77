//! The version guard: pure gating of operations by a version's lifecycle
//! state. No remote call is attempted when the guard rejects.

use vstd::prelude::*;

use crate::data::VersionState;

verus! {

/// Decision of the guard for reading a version's payload.
#[derive(Clone, Copy, Debug, PartialEq, Eq, Structural)]
pub enum AccessDecision {
    /// The payload may be fetched.
    Allow,
    /// Rejected: the version is destroyed and its payload permanently gone.
    DeniedDestroyed,
    /// Rejected: the version is disabled and must be enabled first.
    DeniedDisabled,
}

/// The guard's decision for revealing or copying a payload: destroyed and
/// disabled versions are rejected, every other state may be read.
pub open spec fn access_decision(state: VersionState) -> AccessDecision {
    match state {
        VersionState::Destroyed => AccessDecision::DeniedDestroyed,
        VersionState::Disabled => AccessDecision::DeniedDisabled,
        _ => AccessDecision::Allow,
    }
}

/// Gate for revealing or copying a version's payload.
pub fn check_value_access(state: VersionState) -> (d: AccessDecision)
    ensures
        d == access_decision(state),
{
    match state {
        VersionState::Destroyed => AccessDecision::DeniedDestroyed,
        VersionState::Disabled => AccessDecision::DeniedDisabled,
        _ => AccessDecision::Allow,
    }
}

/// Gate for enabling: exactly the disabled versions may be enabled.
pub fn can_enable(state: VersionState) -> (r: bool)
    ensures
        r <==> state is Disabled,
{
    match state {
        VersionState::Disabled => true,
        _ => false,
    }
}

/// Gate for disabling: exactly the enabled versions may be disabled.
pub fn can_disable(state: VersionState) -> (r: bool)
    ensures
        r <==> state is Enabled,
{
    match state {
        VersionState::Enabled => true,
        _ => false,
    }
}

} // verus!
