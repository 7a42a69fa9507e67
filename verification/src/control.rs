//! The control service: cross-cutting operations.
//!
//! Its one operation is cancellation of an in-flight request. No request
//! tracker is wired up yet, so the service conservatively reports every
//! request as not cancelled; the external contract's shape already
//! accommodates a real tracker.

use vstd::prelude::*;
use vstd::string::StringExecFns;

use crate::protocol::{CancelRequest, CancelResponse};

verus! {

/// Serves cross-cutting control operations.
pub struct ControlService {}

impl ControlService {
    /// A new control service.
    pub fn new() -> (r: ControlService) {
        ControlService {  }
    }

    /// Attempt to cancel an in-flight request. With no request tracker
    /// wired up, every answer is "not cancelled, request not found or
    /// already completed" — for any request id, present or absent.
    pub fn cancel(&self, _request: &CancelRequest) -> (r: CancelResponse)
        ensures
            !r.cancelled,
            r.reason@ == "Request not found or already completed"@,
    {
        CancelResponse {
            cancelled: false,
            reason: String::from_str("Request not found or already completed"),
        }
    }
}

impl Default for ControlService {
    /// Same as `new`.
    fn default() -> (r: ControlService) {
        ControlService::new()
    }
}

} // verus!
