//! Policy configuration: the failure mode consulted on the remote-cluster
//! path, and the settings record that carries it.

use vstd::prelude::*;

verus! {

/// What to do when a namespace belongs to a project of a remotely-managed
/// cluster, where label propagation is unsupported: reject the request, or
/// let it through untouched.
#[derive(Clone, Copy, Debug, PartialEq, Eq, Structural)]
pub enum FailureMode {
    Ignore,
    Fail,
}

impl Default for FailureMode {
    /// The default mode lets requests for remotely-managed projects through.
    fn default() -> (r: Self)
        ensures
            r == FailureMode::Ignore,
    {
        FailureMode::Ignore
    }
}

/// Per-request immutable configuration.
#[derive(Clone, Copy, Debug, PartialEq, Eq, Structural)]
pub struct Settings {
    pub downstream_cluster_failure_mode: FailureMode,
}

impl Default for Settings {
    fn default() -> (r: Self)
        ensures
            r == (Settings { downstream_cluster_failure_mode: FailureMode::Ignore }),
    {
        Settings { downstream_cluster_failure_mode: FailureMode::Ignore }
    }
}

impl Settings {
    /// Every settings value that deserializes is valid: both failure modes
    /// are legal, so validation never fails.
    pub fn validate(&self) -> (r: Result<(), String>)
        ensures
            r is Ok,
    {
        Ok(())
    }
}

} // verus!
