//! Raising the priority of a thread that handles audio.

use crate::device::Host;
use vstd::prelude::*;

verus! {

/// The call that is due.
#[derive(Clone, Copy, PartialEq, Eq, Structural)]
pub enum BoostStep {
    /// Have the multimedia scheduler treat the thread as professional audio.
    JoinProAudio,
    /// Make it critical among such threads.
    RaiseProAudio,
    /// Make it time critical among all threads.
    RaiseThread,
    Done,
}

/// The call after `step`. A thread that the multimedia scheduler does not take
/// is raised all the same.
pub open spec fn boost_next(step: BoostStep, succeeded: bool) -> BoostStep {
    match step {
        BoostStep::JoinProAudio => if succeeded {
            BoostStep::RaiseProAudio
        } else {
            BoostStep::RaiseThread
        },
        BoostStep::RaiseProAudio => BoostStep::RaiseThread,
        BoostStep::RaiseThread => BoostStep::Done,
        BoostStep::Done => BoostStep::Done,
    }
}

/// The first call. Only Windows has any.
pub fn first_boost(host: Host) -> (r: BoostStep)
    ensures
        r == match host {
            Host::Windows => BoostStep::JoinProAudio,
            Host::Other => BoostStep::Done,
        },
{
    match host {
        Host::Windows => BoostStep::JoinProAudio,
        Host::Other => BoostStep::Done,
    }
}

/// The call after one that succeeded or not.
pub fn boost_current_audio_thread(step: BoostStep, succeeded: bool) -> (r: BoostStep)
    ensures
        r == boost_next(step, succeeded),
{
    match step {
        BoostStep::JoinProAudio => {
            if succeeded {
                BoostStep::RaiseProAudio
            } else {
                BoostStep::RaiseThread
            }
        },
        BoostStep::RaiseProAudio => BoostStep::RaiseThread,
        BoostStep::RaiseThread => BoostStep::Done,
        BoostStep::Done => BoostStep::Done,
    }
}

/// Whatever succeeds, the thread itself is raised, last of all.
pub proof fn thread_is_always_raised(joined: bool, raised: bool, last: bool)
    ensures
        ({
            let second = boost_next(BoostStep::JoinProAudio, joined);
            let third = if joined {
                boost_next(second, raised)
            } else {
                second
            };
            &&& third is RaiseThread
            &&& boost_next(third, last) is Done
        }),
{
}

} // verus!
