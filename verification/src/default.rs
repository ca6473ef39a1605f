//! The default control service: acknowledge every control event.

use vstd::prelude::*;
use crate::control::{ControlMessage, ControlResult};

verus! {

/// Default control service: answers every event with its default
/// acknowledgement and never fails.
#[derive(Clone, Copy, Debug)]
pub struct DefaultControlService;

impl DefaultControlService {
    /// Handles one control event by acknowledging it.
    pub fn call(&self, msg: ControlMessage) -> (r: ControlResult)
        ensures
            msg.is_default_ack(r),
    {
        msg.ack()
    }
}

} // verus!
