//! Which changes of the default audio device concern the capture.

use crate::change_count::{bump, bumped};
use vstd::prelude::*;

verus! {

pub const FLOW_RENDER: i32 = 0;

pub const ROLE_CONSOLE: i32 = 0;

pub const ROLE_MULTIMEDIA: i32 = 1;

/// A change of the default output, for sounds or for media.
pub open spec fn concerns_output(flow: i32, role: i32) -> bool {
    flow == FLOW_RENDER && (role == ROLE_CONSOLE || role == ROLE_MULTIMEDIA)
}

/// The change count to publish after a change of the default device, none where
/// the change does not concern the output.
pub fn on_default_device_changed(flow: i32, role: i32, current: u64) -> (r: Option<u64>)
    ensures
        r == (if concerns_output(flow, role) {
            Some(bumped(current))
        } else {
            None
        }),
{
    if flow == FLOW_RENDER && (role == ROLE_CONSOLE || role == ROLE_MULTIMEDIA) {
        Some(bump(current))
    } else {
        None
    }
}

} // verus!
