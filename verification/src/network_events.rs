//! Watching the network for changes: two notifications of the system, one on
//! interfaces and one on addresses, that share a context.

use crate::change_count::{bump, bumped};
use crate::device::Host;
use crate::text::{decimal, push_decimal};
use vstd::prelude::*;

verus! {

/// The code of a call that succeeded.
pub const NO_ERROR: u32 = 0;

/// Why the network cannot be watched, with the code of the call that failed.
#[derive(Clone, Copy, PartialEq, Eq, Structural)]
pub enum WatchError {
    Interfaces { code: u32 },
    Addresses { code: u32 },
}

/// The call that is due.
#[derive(Clone, Copy, PartialEq, Eq, Structural)]
pub enum WatchStage {
    RegisterInterfaces,
    RegisterAddresses,
    /// Both notifications are there; cancelling them begins when the watcher is
    /// given up.
    Watching,
    /// The first notification goes because the second could not be had, by `code`.
    CancelAlone { code: u32 },
    CancelInterfaces,
    CancelAddresses,
    FreeContext { error: Option<WatchError> },
    Finished { error: Option<WatchError> },
}

/// What the watcher holds.
#[derive(Clone, Copy, PartialEq, Eq, Structural)]
pub struct Held {
    pub interfaces: bool,
    pub addresses: bool,
    pub context: bool,
}

impl WatchError {
    pub open spec fn text(self) -> Seq<char> {
        match self {
            WatchError::Interfaces { code } => "NotifyIpInterfaceChange failed: WIN32_ERROR("@
                + decimal(code as nat) + ")"@,
            WatchError::Addresses { code } => "NotifyUnicastIpAddressChange failed: WIN32_ERROR("@
                + decimal(code as nat) + ")"@,
        }
    }

    pub fn message(&self) -> (r: String)
        ensures
            r@ == self.text(),
    {
        let mut out: String = String::new();
        match self {
            WatchError::Interfaces { code } => {
                out.append("NotifyIpInterfaceChange failed: WIN32_ERROR(");
                push_decimal(&mut out, *code as u64);
            },
            WatchError::Addresses { code } => {
                out.append("NotifyUnicastIpAddressChange failed: WIN32_ERROR(");
                push_decimal(&mut out, *code as u64);
            },
        }
        out.append(")");
        assert(out@ =~= self.text());
        out
    }
}

/// What is held before the call of `stage`.
pub open spec fn held(stage: WatchStage) -> Held {
    match stage {
        WatchStage::RegisterInterfaces => Held {
            interfaces: false,
            addresses: false,
            context: true,
        },
        WatchStage::RegisterAddresses | WatchStage::CancelAlone { .. } => Held {
            interfaces: true,
            addresses: false,
            context: true,
        },
        WatchStage::Watching | WatchStage::CancelInterfaces => Held {
            interfaces: true,
            addresses: true,
            context: true,
        },
        WatchStage::CancelAddresses => Held { interfaces: false, addresses: true, context: true },
        WatchStage::FreeContext { .. } => Held {
            interfaces: false,
            addresses: false,
            context: true,
        },
        WatchStage::Finished { .. } => Held {
            interfaces: false,
            addresses: false,
            context: false,
        },
    }
}

/// The stage after a call that returned `code`. A cancellation counts as done
/// whatever it returned.
pub open spec fn watch_next(stage: WatchStage, code: u32) -> WatchStage {
    match stage {
        WatchStage::RegisterInterfaces => if code == NO_ERROR {
            WatchStage::RegisterAddresses
        } else {
            WatchStage::FreeContext { error: Some(WatchError::Interfaces { code }) }
        },
        WatchStage::RegisterAddresses => if code == NO_ERROR {
            WatchStage::Watching
        } else {
            WatchStage::CancelAlone { code }
        },
        WatchStage::Watching => WatchStage::CancelInterfaces,
        WatchStage::CancelAlone { code } => WatchStage::FreeContext {
            error: Some(WatchError::Addresses { code }),
        },
        WatchStage::CancelInterfaces => WatchStage::CancelAddresses,
        WatchStage::CancelAddresses => WatchStage::FreeContext { error: None },
        WatchStage::FreeContext { error } => WatchStage::Finished { error },
        WatchStage::Finished { .. } => stage,
    }
}

/// The first stage. A host without such notifications has nothing to do.
pub fn first_watch(host: Host) -> (r: WatchStage)
    ensures
        r == match host {
            Host::Windows => WatchStage::RegisterInterfaces,
            Host::Other => WatchStage::Finished { error: None },
        },
{
    match host {
        Host::Windows => WatchStage::RegisterInterfaces,
        Host::Other => WatchStage::Finished { error: None },
    }
}

/// Takes the code of the call that was due to the next stage.
pub fn watch_network_changes(stage: WatchStage, code: u32) -> (r: WatchStage)
    ensures
        r == watch_next(stage, code),
{
    match stage {
        WatchStage::RegisterInterfaces => {
            if code == NO_ERROR {
                WatchStage::RegisterAddresses
            } else {
                WatchStage::FreeContext { error: Some(WatchError::Interfaces { code }) }
            }
        },
        WatchStage::RegisterAddresses => {
            if code == NO_ERROR {
                WatchStage::Watching
            } else {
                WatchStage::CancelAlone { code }
            }
        },
        WatchStage::Watching => WatchStage::CancelInterfaces,
        WatchStage::CancelAlone { code } => WatchStage::FreeContext {
            error: Some(WatchError::Addresses { code }),
        },
        WatchStage::CancelInterfaces => WatchStage::CancelAddresses,
        WatchStage::CancelAddresses => WatchStage::FreeContext { error: None },
        WatchStage::FreeContext { error } => WatchStage::Finished { error },
        WatchStage::Finished { .. } => stage,
    }
}

/// The change count to publish after a notification.
pub fn notify_network_change(current: u64) -> (r: u64)
    ensures
        r == bumped(current),
{
    bump(current)
}

/// The context outlives every notification that uses it: each stage holds it as
/// long as it holds a notification, it is freed by `FreeContext` alone, and
/// nothing is freed or cancelled that is not held.
pub proof fn context_outlives_notifications(stage: WatchStage, code: u32)
    ensures
        held(stage).interfaces || held(stage).addresses ==> held(stage).context,
        ({
            let before = held(stage);
            let after = held(watch_next(stage, code));
            match stage {
                WatchStage::RegisterInterfaces => !before.interfaces && after == (Held {
                    interfaces: code == NO_ERROR,
                    ..before
                }),
                WatchStage::RegisterAddresses => !before.addresses && after == (Held {
                    addresses: code == NO_ERROR,
                    ..before
                }),
                WatchStage::CancelAlone { .. }
                | WatchStage::CancelInterfaces => before.interfaces && after == (Held {
                    interfaces: false,
                    ..before
                }),
                WatchStage::CancelAddresses => before.addresses && after == (Held {
                    addresses: false,
                    ..before
                }),
                WatchStage::FreeContext { .. } => before.context && after == (Held {
                    context: false,
                    ..before
                }),
                WatchStage::Watching | WatchStage::Finished { .. } => after == before,
            }
        }),
{
}

/// A failed registration is reported as such once all is cleaned up.
pub proof fn failed_watch_is_reported(code: u32, ignored: u32)
    requires
        code != NO_ERROR,
    ensures
        watch_next(watch_next(WatchStage::RegisterInterfaces, code), ignored) == (
        WatchStage::Finished { error: Some(WatchError::Interfaces { code }) }),
        watch_next(
            watch_next(watch_next(WatchStage::RegisterAddresses, code), ignored),
            ignored,
        ) == (WatchStage::Finished { error: Some(WatchError::Addresses { code }) }),
{
}

} // verus!
