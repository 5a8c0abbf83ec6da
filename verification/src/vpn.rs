//! VPN and network-isolation boundary.

use vstd::prelude::*;
use crate::text::owned;

verus! {

/// How a Soterspace uses a VPN profile.
#[derive(Debug, Clone)]
pub struct VpnPolicy {
    pub profile: String,
    /// Whether traffic stops when the tunnel is down.
    pub fail_closed: bool,
}

impl VpnPolicy {
    /// The policy for a profile that fails closed.
    pub fn strict(profile: &str) -> (r: VpnPolicy)
        ensures
            r.profile@ == profile@,
            r.fail_closed,
    {
        VpnPolicy { profile: owned(profile), fail_closed: true }
    }
}

/// Something that brings VPN tunnels up and down.
pub trait VpnManager {
    fn connect(&self, policy: &VpnPolicy) -> Result<(), String>;

    fn disconnect(&self) -> Result<(), String>;

    fn healthy(&self) -> Result<bool, String>;
}

} // verus!
