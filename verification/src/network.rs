//! Network and firewall configuration boundary.

use vstd::prelude::*;

verus! {

/// The network configuration a host should have.
#[derive(Debug, Clone)]
pub struct NetworkPolicy {
    pub wifi_ssid: Option<String>,
    pub firewall_enabled: bool,
    pub default_deny: bool,
}

impl Default for NetworkPolicy {
    fn default() -> (r: NetworkPolicy)
        ensures
            r.wifi_ssid is None,
            !r.firewall_enabled,
            !r.default_deny,
    {
        NetworkPolicy { wifi_ssid: None, firewall_enabled: false, default_deny: false }
    }
}

/// Something that applies and verifies a network policy.
pub trait NetworkManager {
    fn apply(&self, policy: &NetworkPolicy) -> Result<(), String>;

    fn verify(&self, policy: &NetworkPolicy) -> Result<bool, String>;
}

} // verus!
