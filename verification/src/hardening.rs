//! Kernel and host hardening boundary.

use vstd::prelude::*;

verus! {

/// One kernel parameter and the value it should have.
#[derive(Debug, Clone)]
pub struct SysctlSetting {
    pub key: String,
    pub value: String,
}

/// The kernel parameters a hardened host should have.
#[derive(Debug, Clone)]
pub struct HardeningPolicy {
    pub sysctls: Vec<SysctlSetting>,
}

impl Default for HardeningPolicy {
    fn default() -> (r: HardeningPolicy)
        ensures
            r.sysctls@.len() == 0,
    {
        HardeningPolicy { sysctls: Vec::new() }
    }
}

/// Something that applies and verifies a hardening policy.
pub trait Hardener {
    fn apply(&self, policy: &HardeningPolicy) -> Result<(), String>;

    fn verify(&self, policy: &HardeningPolicy) -> Result<bool, String>;
}

} // verus!
