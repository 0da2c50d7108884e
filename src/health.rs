//! The body of the health-check response.
use vstd::prelude::*;

verus! {

/// What the health endpoint reports.
#[derive(Debug, PartialEq)]
pub struct HealthStatus {
    pub message: String,
}

impl HealthStatus {
    /// The status of a running service.
    pub fn healthy() -> (r: HealthStatus)
        ensures
            r.message@ == "healthy"@,
    {
        HealthStatus { message: String::from_str("healthy") }
    }
}

} // verus!
