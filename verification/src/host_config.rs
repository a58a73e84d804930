//! Settings that a host hands to its services.

use vstd::prelude::*;
use std::time::Duration;

verus! {

/// Settings of the policy service.
#[derive(Clone, Debug)]
pub struct PolicyService {
    /// The topic to request policy decisions on.
    pub policy_topic: Option<String>,
    /// A topic to receive updated policy decisions on.
    pub policy_changes_topic: Option<String>,
    /// The timeout for policy requests.
    pub policy_timeout_ms: Option<Duration>,
}

impl Default for PolicyService {
    fn default() -> (service: PolicyService)
        ensures
            service.policy_topic is None,
            service.policy_changes_topic is None,
            service.policy_timeout_ms is None,
    {
        PolicyService { policy_topic: None, policy_changes_topic: None, policy_timeout_ms: None }
    }
}

} // verus!
