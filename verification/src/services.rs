//! Service configuration boundary.

use vstd::prelude::*;

verus! {

/// The state a service should be in.
#[derive(Debug, Clone)]
pub enum ServiceState {
    Enabled,
    Disabled,
    Running,
    Stopped,
}

/// A service and the state it should be in.
#[derive(Debug, Clone)]
pub struct ServicePolicy {
    pub name: String,
    pub state: ServiceState,
}

/// Something that applies and verifies service policies.
pub trait ServiceManager {
    fn apply(&self, policy: &ServicePolicy) -> Result<(), String>;

    fn verify(&self, policy: &ServicePolicy) -> Result<bool, String>;
}

} // verus!
