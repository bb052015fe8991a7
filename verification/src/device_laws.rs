//! What the host is asked for over the whole of a request, whatever it answers.

use crate::device::{
    best_effort, carried_out, device_next, key_request, percent, volume_request, AudioState,
    DeviceError, DeviceEvent, DeviceRequest, DeviceStage, DeviceStep, Host, MediaKey,
};
use vstd::prelude::*;

verus! {

/// A call on the way to the volume, before anything is read or set.
pub open spec fn reaching_volume(stage: DeviceStage) -> bool {
    ||| stage is InitializeCom
    ||| stage is CreateEnumerator
    ||| stage is GetEndpoint
    ||| stage is ActivateVolume
}

/// After the outcomes `events` the call `stage` of the request is due.
pub open spec fn is_at(request: DeviceRequest, events: Seq<DeviceEvent>, stage: DeviceStage) -> bool {
    carried_out(request, events) == (DeviceStep::Continue { stage })
}

/// The call `stage` was due, and `events[i]` is its outcome.
pub open spec fn answered_at(
    request: DeviceRequest,
    events: Seq<DeviceEvent>,
    i: int,
    stage: DeviceStage,
) -> bool {
    0 <= i < events.len() && is_at(request, events.take(i), stage)
}

proof fn mute_stages(muted: bool, events: Seq<DeviceEvent>)
    ensures
        match carried_out(DeviceRequest::SetMute { muted }, events) {
            DeviceStep::Continue { stage } => reaching_volume(stage) || stage == (
            DeviceStage::SetMute { muted }),
            DeviceStep::State { .. } => false,
            DeviceStep::Done => exists|i: int|
                #![trigger events[i]]
                events[i] is Done && answered_at(
                    DeviceRequest::SetMute { muted },
                    events,
                    i,
                    DeviceStage::SetMute { muted },
                ),
            DeviceStep::Failed { .. } => true,
        },
    decreases events.len(),
{
    if events.len() > 0 {
        let request = DeviceRequest::SetMute { muted };
        let head = events.drop_last();
        let last = events.len() - 1;
        mute_stages(muted, head);
        assert(events.take(last) =~= head);
        if carried_out(request, head) is Done {
            let i = choose|i: int|
                #![trigger head[i]]
                head[i] is Done && answered_at(request, head, i, DeviceStage::SetMute { muted });
            assert(head.take(i) =~= events.take(i));
            assert(events[i] == head[i]);
        } else {
            assert(events[last] == events.last());
        }
    }
}

/// A mute that was carried out is the one that was asked for: the host answered the
/// call to set that same state with success. At no time, whatever it answered, was it
/// asked to set the other state, or anything else.
pub proof fn mute_is_what_was_asked(muted: bool, events: Seq<DeviceEvent>)
    ensures
        carried_out(DeviceRequest::SetMute { muted }, events) is Done ==> exists|i: int|
            #![trigger events[i]]
            events[i] is Done && answered_at(
                DeviceRequest::SetMute { muted },
                events,
                i,
                DeviceStage::SetMute { muted },
            ),
        forall|n: int, stage: DeviceStage|
            #![trigger is_at(DeviceRequest::SetMute { muted }, events.take(n), stage)]
            0 <= n <= events.len() && is_at(DeviceRequest::SetMute { muted }, events.take(n), stage)
                ==> reaching_volume(stage) || stage == (DeviceStage::SetMute { muted }),
        !(carried_out(DeviceRequest::SetMute { muted }, events) is State),
{
    mute_stages(muted, events);
    assert forall|n: int, stage: DeviceStage|
        #![trigger is_at(DeviceRequest::SetMute { muted }, events.take(n), stage)]
        0 <= n <= events.len() && is_at(
            DeviceRequest::SetMute { muted },
            events.take(n),
            stage,
        ) implies reaching_volume(stage) || stage == (DeviceStage::SetMute { muted }) by {
        mute_stages(muted, events.take(n));
    }
}

proof fn volume_stages(percent: u8, events: Seq<DeviceEvent>)
    ensures
        match carried_out(DeviceRequest::SetVolume { percent }, events) {
            DeviceStep::Continue { stage } => reaching_volume(stage) || stage == (
            DeviceStage::SetVolume { percent }),
            DeviceStep::State { .. } => false,
            DeviceStep::Done => exists|i: int|
                #![trigger events[i]]
                events[i] is Done && answered_at(
                    DeviceRequest::SetVolume { percent },
                    events,
                    i,
                    DeviceStage::SetVolume { percent },
                ),
            DeviceStep::Failed { .. } => true,
        },
    decreases events.len(),
{
    if events.len() > 0 {
        let request = DeviceRequest::SetVolume { percent };
        let head = events.drop_last();
        let last = events.len() - 1;
        volume_stages(percent, head);
        assert(events.take(last) =~= head);
        if carried_out(request, head) is Done {
            let i = choose|i: int|
                #![trigger head[i]]
                head[i] is Done && answered_at(
                    request,
                    head,
                    i,
                    DeviceStage::SetVolume { percent },
                );
            assert(head.take(i) =~= events.take(i));
            assert(events[i] == head[i]);
        } else {
            assert(events[last] == events.last());
        }
    }
}

/// A volume that was carried out is the one that was asked for, and at no time was the
/// host asked to set another one, or anything else.
pub proof fn volume_is_what_was_asked(percent: u8, events: Seq<DeviceEvent>)
    ensures
        carried_out(DeviceRequest::SetVolume { percent }, events) is Done ==> exists|i: int|
            #![trigger events[i]]
            events[i] is Done && answered_at(
                DeviceRequest::SetVolume { percent },
                events,
                i,
                DeviceStage::SetVolume { percent },
            ),
        forall|n: int, stage: DeviceStage|
            #![trigger is_at(DeviceRequest::SetVolume { percent }, events.take(n), stage)]
            0 <= n <= events.len() && is_at(
                DeviceRequest::SetVolume { percent },
                events.take(n),
                stage,
            ) ==> reaching_volume(stage) || stage == (DeviceStage::SetVolume { percent }),
        !(carried_out(DeviceRequest::SetVolume { percent }, events) is State),
{
    volume_stages(percent, events);
    assert forall|n: int, stage: DeviceStage|
        #![trigger is_at(DeviceRequest::SetVolume { percent }, events.take(n), stage)]
        0 <= n <= events.len() && is_at(
            DeviceRequest::SetVolume { percent },
            events.take(n),
            stage,
        ) implies reaching_volume(stage) || stage == (DeviceStage::SetVolume { percent }) by {
        volume_stages(percent, events.take(n));
    }
}

proof fn key_stages(key: MediaKey, events: Seq<DeviceEvent>)
    ensures
        match carried_out(DeviceRequest::PressKey { key }, events) {
            DeviceStep::Continue { stage } => stage == (DeviceStage::SendKey { key }),
            DeviceStep::State { .. } => false,
            DeviceStep::Done => exists|i: int|
                #![trigger events[i]]
                events[i] == (DeviceEvent::InputsSent { count: 2 }) && answered_at(
                    DeviceRequest::PressKey { key },
                    events,
                    i,
                    DeviceStage::SendKey { key },
                ),
            DeviceStep::Failed { error } => error is SendKey,
        },
    decreases events.len(),
{
    if events.len() > 0 {
        let request = DeviceRequest::PressKey { key };
        let head = events.drop_last();
        let last = events.len() - 1;
        key_stages(key, head);
        assert(events.take(last) =~= head);
        if carried_out(request, head) is Done {
            let i = choose|i: int|
                #![trigger head[i]]
                head[i] == (DeviceEvent::InputsSent { count: 2 }) && answered_at(
                    request,
                    head,
                    i,
                    DeviceStage::SendKey { key },
                );
            assert(head.take(i) =~= events.take(i));
            assert(events[i] == head[i]);
        } else {
            assert(events[last] == events.last());
        }
    }
}

/// A key that was pressed is the one that was asked for, down and up, and no other
/// call is ever made for it; where it is not pressed the failure is that of the key.
pub proof fn key_is_what_was_asked(key: MediaKey, events: Seq<DeviceEvent>)
    ensures
        carried_out(DeviceRequest::PressKey { key }, events) is Done ==> exists|i: int|
            #![trigger events[i]]
            events[i] == (DeviceEvent::InputsSent { count: 2 }) && answered_at(
                DeviceRequest::PressKey { key },
                events,
                i,
                DeviceStage::SendKey { key },
            ),
        forall|n: int, stage: DeviceStage|
            #![trigger is_at(DeviceRequest::PressKey { key }, events.take(n), stage)]
            0 <= n <= events.len() && is_at(DeviceRequest::PressKey { key }, events.take(n), stage)
                ==> stage == (DeviceStage::SendKey { key }),
        carried_out(DeviceRequest::PressKey { key }, events) matches DeviceStep::Failed { error }
            ==> error is SendKey,
        !(carried_out(DeviceRequest::PressKey { key }, events) is State),
{
    key_stages(key, events);
    assert forall|n: int, stage: DeviceStage|
        #![trigger is_at(DeviceRequest::PressKey { key }, events.take(n), stage)]
        0 <= n <= events.len() && is_at(
            DeviceRequest::PressKey { key },
            events.take(n),
            stage,
        ) implies stage == (DeviceStage::SendKey { key }) by {
        key_stages(key, events.take(n));
    }
}

/// `events[i]` is the reading of the volume that gave `volume`.
pub open spec fn volume_told_at(events: Seq<DeviceEvent>, i: int, volume: u8) -> bool {
    &&& answered_at(DeviceRequest::ReadState, events, i, DeviceStage::GetVolume)
    &&& events[i] matches DeviceEvent::Volume { reading } && volume == (if reading < 100 {
        reading as int
    } else {
        100
    })
}

/// `events[i]` is the reading of the mute that gave `muted`.
pub open spec fn mute_told_at(events: Seq<DeviceEvent>, i: int, volume: u8, muted: bool) -> bool {
    &&& answered_at(DeviceRequest::ReadState, events, i, DeviceStage::GetMute { volume })
    &&& events[i] == (DeviceEvent::Mute { muted })
}

proof fn told_before(head: Seq<DeviceEvent>, events: Seq<DeviceEvent>, i: int)
    requires
        events.len() > 0,
        head == events.drop_last(),
        0 <= i < head.len(),
    ensures
        head.take(i) == events.take(i),
        head[i] == events[i],
{
    assert(head.take(i) =~= events.take(i));
}

proof fn read_stages(events: Seq<DeviceEvent>)
    ensures
        match carried_out(DeviceRequest::ReadState, events) {
            DeviceStep::Continue { stage } => {
                ||| reaching_volume(stage)
                ||| stage is GetVolume
                ||| stage matches DeviceStage::GetMute { volume } && exists|i: int|
                    #[trigger] volume_told_at(events, i, volume)
            },
            DeviceStep::State { state } => {
                &&& exists|i: int| #[trigger] volume_told_at(events, i, state.volume)
                &&& exists|i: int| #[trigger] mute_told_at(events, i, state.volume, state.muted)
            },
            DeviceStep::Done => false,
            DeviceStep::Failed { .. } => true,
        },
    decreases events.len(),
{
    if events.len() > 0 {
        let request = DeviceRequest::ReadState;
        let head = events.drop_last();
        let last = events.len() - 1;
        read_stages(head);
        assert(events.take(last) =~= head);
        assert(events[last] == events.last());
        if let DeviceStep::State { state } = carried_out(request, events) {
            let volume = state.volume;
            if carried_out(request, head) is State {
                let i = choose|i: int| #[trigger] volume_told_at(head, i, volume);
                told_before(head, events, i);
                assert(volume_told_at(events, i, volume));
                let j = choose|j: int| #[trigger] mute_told_at(head, j, volume, state.muted);
                told_before(head, events, j);
                assert(mute_told_at(events, j, volume, state.muted));
            } else {
                assert(is_at(request, head, DeviceStage::GetMute { volume }));
                let i = choose|i: int| #[trigger] volume_told_at(head, i, volume);
                told_before(head, events, i);
                assert(volume_told_at(events, i, volume));
                assert(mute_told_at(events, last, volume, state.muted));
            }
        }
        if let DeviceStep::Continue { stage: DeviceStage::GetMute { volume } } = carried_out(
            request,
            events,
        ) {
            if is_at(request, head, DeviceStage::GetMute { volume }) {
                let i = choose|i: int| #[trigger] volume_told_at(head, i, volume);
                told_before(head, events, i);
                assert(volume_told_at(events, i, volume));
            } else {
                assert(volume_told_at(events, last, volume));
            }
        }
    }
}

/// A state that was read is what the host told, its volume up to one hundred percent
/// and its mute as it is. A reading sets nothing, and never ends without a state.
pub proof fn state_is_what_was_told(events: Seq<DeviceEvent>)
    ensures
        carried_out(DeviceRequest::ReadState, events) matches DeviceStep::State { state } ==> {
            &&& exists|i: int| #[trigger] volume_told_at(events, i, state.volume)
            &&& exists|i: int| #[trigger] mute_told_at(events, i, state.volume, state.muted)
        },
        forall|n: int, stage: DeviceStage|
            #![trigger is_at(DeviceRequest::ReadState, events.take(n), stage)]
            0 <= n <= events.len() && is_at(DeviceRequest::ReadState, events.take(n), stage)
                ==> reaching_volume(stage) || stage is GetVolume || stage is GetMute,
        !(carried_out(DeviceRequest::ReadState, events) is Done),
{
    read_stages(events);
    assert forall|n: int, stage: DeviceStage|
        #![trigger is_at(DeviceRequest::ReadState, events.take(n), stage)]
        0 <= n <= events.len() && is_at(
            DeviceRequest::ReadState,
            events.take(n),
            stage,
        ) implies reaching_volume(stage) || stage is GetVolume || stage is GetMute by {
        read_stages(events.take(n));
    }
}

/// Every request but a key goes the same four calls to the volume, in this order,
/// and then to its own; a host that answers each with success carries it out.
pub proof fn volume_is_reached_in_order(
    request: DeviceRequest,
    setting: u8,
    muted: bool,
    reading: u8,
)
    ensures
        !(request is PressKey) ==> {
            &&& is_at(request, Seq::empty(), DeviceStage::InitializeCom)
            &&& device_next(request, DeviceStage::InitializeCom, DeviceEvent::Done) == (
            DeviceStep::Continue { stage: DeviceStage::CreateEnumerator })
            &&& device_next(request, DeviceStage::CreateEnumerator, DeviceEvent::Done) == (
            DeviceStep::Continue { stage: DeviceStage::GetEndpoint })
            &&& device_next(request, DeviceStage::GetEndpoint, DeviceEvent::Done) == (
            DeviceStep::Continue { stage: DeviceStage::ActivateVolume })
        },
        device_next(DeviceRequest::ReadState, DeviceStage::ActivateVolume, DeviceEvent::Done) == (
        DeviceStep::Continue { stage: DeviceStage::GetVolume }),
        device_next(
            DeviceRequest::SetVolume { percent: setting },
            DeviceStage::ActivateVolume,
            DeviceEvent::Done,
        ) == (DeviceStep::Continue { stage: DeviceStage::SetVolume { percent: setting } }),
        device_next(
            DeviceRequest::SetMute { muted },
            DeviceStage::ActivateVolume,
            DeviceEvent::Done,
        ) == (DeviceStep::Continue { stage: DeviceStage::SetMute { muted } }),
        device_next(
            DeviceRequest::SetVolume { percent: setting },
            DeviceStage::SetVolume { percent: setting },
            DeviceEvent::Done,
        ) is Done,
        device_next(
            DeviceRequest::SetMute { muted },
            DeviceStage::SetMute { muted },
            DeviceEvent::Done,
        ) is Done,
        reading <= 100 ==> device_next(
            DeviceRequest::ReadState,
            DeviceStage::GetVolume,
            DeviceEvent::Volume { reading },
        ) == (DeviceStep::Continue { stage: DeviceStage::GetMute { volume: reading } }),
        device_next(
            DeviceRequest::ReadState,
            DeviceStage::GetMute { volume: reading },
            DeviceEvent::Mute { muted },
        ) == (DeviceStep::State { state: AudioState { volume: reading, muted } }),
{
}

/// A key is pressed at once; only both of its inputs press it.
pub proof fn key_is_pressed_at_once(key: MediaKey, count: u32)
    ensures
        is_at(DeviceRequest::PressKey { key }, Seq::empty(), DeviceStage::SendKey { key }),
        device_next(
            DeviceRequest::PressKey { key },
            DeviceStage::SendKey { key },
            DeviceEvent::InputsSent { count },
        ) == (if count == 2 {
            DeviceStep::Done
        } else {
            DeviceStep::Failed { error: DeviceError::SendKey }
        }),
{
}

/// A call that fails ends the request with the error of that call.
pub proof fn failure_is_that_of_its_call(
    request: DeviceRequest,
    volume: u8,
    muted: bool,
    key: MediaKey,
)
    ensures
        device_next(request, DeviceStage::InitializeCom, DeviceEvent::Failed) == (
        DeviceStep::Failed { error: DeviceError::InitializeCom }),
        device_next(request, DeviceStage::CreateEnumerator, DeviceEvent::Failed) == (
        DeviceStep::Failed { error: DeviceError::CreateEnumerator }),
        device_next(request, DeviceStage::GetEndpoint, DeviceEvent::Failed) == (
        DeviceStep::Failed { error: DeviceError::DefaultEndpoint }),
        device_next(request, DeviceStage::ActivateVolume, DeviceEvent::Failed) == (
        DeviceStep::Failed { error: DeviceError::ActivateVolume }),
        device_next(request, DeviceStage::GetVolume, DeviceEvent::Failed) == (DeviceStep::Failed {
            error: DeviceError::GetVolume,
        }),
        device_next(request, DeviceStage::GetMute { volume }, DeviceEvent::Failed) == (
        DeviceStep::Failed { error: DeviceError::GetMute }),
        device_next(request, DeviceStage::SetVolume { percent: volume }, DeviceEvent::Failed) == (
        DeviceStep::Failed { error: DeviceError::SetVolume }),
        device_next(request, DeviceStage::SetMute { muted }, DeviceEvent::Failed) == (
        DeviceStep::Failed { error: DeviceError::SetMute }),
        device_next(request, DeviceStage::SendKey { key }, DeviceEvent::Failed) == (
        DeviceStep::Failed { error: DeviceError::SendKey }),
{
}

/// An outcome that the call cannot have changes nothing.
pub proof fn call_waits_for_its_outcome(
    request: DeviceRequest,
    stage: DeviceStage,
    event: DeviceEvent,
)
    requires
        match event {
            DeviceEvent::Done => stage is GetVolume || stage is GetMute || stage is SendKey,
            DeviceEvent::Failed => false,
            DeviceEvent::Volume { .. } => !(stage is GetVolume),
            DeviceEvent::Mute { .. } => !(stage is GetMute),
            DeviceEvent::InputsSent { .. } => !(stage is SendKey),
        },
    ensures
        device_next(request, stage, event) == (DeviceStep::Continue { stage }),
{
}

/// Windows takes every request as it is; elsewhere none is made. A volume is taken up
/// to one hundred percent, and never moved otherwise.
pub proof fn request_needs_windows(request: DeviceRequest, key: MediaKey, volume: u8)
    ensures
        volume_request(Host::Windows, request) == Ok::<DeviceRequest, DeviceError>(request),
        volume_request(Host::Other, request) == Err::<DeviceRequest, DeviceError>(
            DeviceError::VolumeUnsupported,
        ),
        key_request(Host::Windows, key) == Ok::<DeviceRequest, DeviceError>(
            DeviceRequest::PressKey { key },
        ),
        key_request(Host::Other, key) == Err::<DeviceRequest, DeviceError>(
            DeviceError::KeysUnsupported,
        ),
        volume <= 100 ==> percent(volume) == volume,
        volume > 100 ==> percent(volume) == 100,
{
}

/// A state that was read is never made up; where none was, silence stands in for it.
pub proof fn best_effort_keeps_a_reading(state: AudioState, error: DeviceError)
    ensures
        best_effort(Ok(state)) == state,
        best_effort(Err(error)).volume == 0,
        !best_effort(Err(error)).muted,
{
}

} // verus!
