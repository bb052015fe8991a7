//! Volume and media keys of the host: which request each command makes, and
//! how it can fail.

use vstd::prelude::*;

verus! {

/// The kind of system this runs on. Only Windows offers the audio services.
#[derive(Clone, Copy, PartialEq, Eq, Structural)]
pub enum Host {
    Windows,
    Other,
}

/// Master volume in percent, and whether it is muted.
#[derive(Clone, Copy, PartialEq, Eq, Structural)]
pub struct AudioState {
    pub volume: u8,
    pub muted: bool,
}

#[derive(Clone, Copy, PartialEq, Eq, Structural)]
pub enum MediaKey {
    NextTrack,
    PreviousTrack,
    PlayPause,
}

/// What the host is asked to do.
#[derive(Clone, Copy, PartialEq, Eq, Structural)]
pub enum DeviceRequest {
    ReadState,
    SetVolume { percent: u8 },
    SetMute { muted: bool },
    PressKey { key: MediaKey },
}

/// Why the host did not do it, by the step that failed.
#[derive(Clone, Copy, PartialEq, Eq, Structural)]
pub enum DeviceError {
    VolumeUnsupported,
    KeysUnsupported,
    InitializeCom,
    CreateEnumerator,
    DefaultEndpoint,
    ActivateVolume,
    GetVolume,
    GetMute,
    SetVolume,
    SetMute,
    SendKey,
}

impl DeviceError {
    /// The text that a client is given.
    pub open spec fn text(self) -> Seq<char> {
        match self {
            DeviceError::VolumeUnsupported =>
                "computer volume control is only supported on Windows"@,
            DeviceError::KeysUnsupported => "media keys are only supported on Windows"@,
            DeviceError::InitializeCom => "failed to initialize COM"@,
            DeviceError::CreateEnumerator => "failed to create MMDeviceEnumerator"@,
            DeviceError::DefaultEndpoint => "failed to get default audio endpoint"@,
            DeviceError::ActivateVolume => "failed to activate endpoint volume"@,
            DeviceError::GetVolume => "failed to get master volume"@,
            DeviceError::GetMute => "failed to get mute state"@,
            DeviceError::SetVolume => "failed to set master volume"@,
            DeviceError::SetMute => "failed to set mute state"@,
            DeviceError::SendKey => "failed to send media key"@,
        }
    }

    pub fn message(&self) -> (r: &'static str)
        ensures
            r@ == self.text(),
    {
        match self {
            DeviceError::VolumeUnsupported =>
                "computer volume control is only supported on Windows",
            DeviceError::KeysUnsupported => "media keys are only supported on Windows",
            DeviceError::InitializeCom => "failed to initialize COM",
            DeviceError::CreateEnumerator => "failed to create MMDeviceEnumerator",
            DeviceError::DefaultEndpoint => "failed to get default audio endpoint",
            DeviceError::ActivateVolume => "failed to activate endpoint volume",
            DeviceError::GetVolume => "failed to get master volume",
            DeviceError::GetMute => "failed to get mute state",
            DeviceError::SetVolume => "failed to set master volume",
            DeviceError::SetMute => "failed to set mute state",
            DeviceError::SendKey => "failed to send media key",
        }
    }
}

/// A volume request on this host.
pub open spec fn volume_request(host: Host, request: DeviceRequest) -> Result<
    DeviceRequest,
    DeviceError,
> {
    match host {
        Host::Windows => Ok(request),
        Host::Other => Err(DeviceError::VolumeUnsupported),
    }
}

/// A media key on this host.
pub open spec fn key_request(host: Host, key: MediaKey) -> Result<DeviceRequest, DeviceError> {
    match host {
        Host::Windows => Ok(DeviceRequest::PressKey { key }),
        Host::Other => Err(DeviceError::KeysUnsupported),
    }
}

/// A volume in percent is at most one hundred.
pub open spec fn percent(volume: u8) -> u8 {
    if volume <= 100 {
        volume
    } else {
        100
    }
}

fn at_most_hundred(volume: u8) -> (r: u8)
    ensures
        r == percent(volume),
{
    if volume <= 100 {
        volume
    } else {
        100
    }
}

/// Asks for volume and mute.
pub fn get_state(host: Host) -> (r: Result<DeviceRequest, DeviceError>)
    ensures
        r == volume_request(host, DeviceRequest::ReadState),
{
    match host {
        Host::Windows => Ok(DeviceRequest::ReadState),
        Host::Other => Err(DeviceError::VolumeUnsupported),
    }
}

/// Asks for a volume; more than one hundred percent counts as one hundred.
pub fn set_volume(host: Host, volume: u8) -> (r: Result<DeviceRequest, DeviceError>)
    ensures
        r == volume_request(host, DeviceRequest::SetVolume { percent: percent(volume) }),
{
    let percent: u8 = at_most_hundred(volume);
    match host {
        Host::Windows => Ok(DeviceRequest::SetVolume { percent }),
        Host::Other => Err(DeviceError::VolumeUnsupported),
    }
}

/// Mutes or unmutes.
pub fn set_mute(host: Host, muted: bool) -> (r: Result<DeviceRequest, DeviceError>)
    ensures
        r == volume_request(host, DeviceRequest::SetMute { muted }),
{
    match host {
        Host::Windows => Ok(DeviceRequest::SetMute { muted }),
        Host::Other => Err(DeviceError::VolumeUnsupported),
    }
}

/// Skips to the next track.
pub fn media_next(host: Host) -> (r: Result<DeviceRequest, DeviceError>)
    ensures
        r == key_request(host, MediaKey::NextTrack),
{
    send_media_key(host, MediaKey::NextTrack)
}

/// Goes back to the previous track.
pub fn media_previous(host: Host) -> (r: Result<DeviceRequest, DeviceError>)
    ensures
        r == key_request(host, MediaKey::PreviousTrack),
{
    send_media_key(host, MediaKey::PreviousTrack)
}

/// Plays or pauses.
pub fn media_play_pause(host: Host) -> (r: Result<DeviceRequest, DeviceError>)
    ensures
        r == key_request(host, MediaKey::PlayPause),
{
    send_media_key(host, MediaKey::PlayPause)
}

fn send_media_key(host: Host, key: MediaKey) -> (r: Result<DeviceRequest, DeviceError>)
    ensures
        r == key_request(host, key),
{
    match host {
        Host::Windows => Ok(DeviceRequest::PressKey { key }),
        Host::Other => Err(DeviceError::KeysUnsupported),
    }
}

/// Inputs that one press of a key takes: down and up.
pub const KEY_PRESS_INPUTS: u32 = 2;

/// A key counts as pressed only where the host took both inputs.
pub fn media_key_sent(sent: u32) -> (r: Result<(), DeviceError>)
    ensures
        r == (if sent == KEY_PRESS_INPUTS {
            Ok(())
        } else {
            Err(DeviceError::SendKey)
        }),
{
    if sent == KEY_PRESS_INPUTS {
        Ok(())
    } else {
        Err(DeviceError::SendKey)
    }
}

/// The call that is due while the host carries a request out.
#[derive(Clone, Copy, PartialEq, Eq, Structural)]
pub enum DeviceStage {
    InitializeCom,
    CreateEnumerator,
    GetEndpoint,
    ActivateVolume,
    GetVolume,
    GetMute { volume: u8 },
    SetVolume { percent: u8 },
    SetMute { muted: bool },
    SendKey { key: MediaKey },
}

/// The outcome of a call.
#[derive(Clone, Copy, PartialEq, Eq, Structural)]
pub enum DeviceEvent {
    Done,
    Failed,
    /// The master volume in percent, as the host tells it.
    Volume { reading: u8 },
    Mute { muted: bool },
    /// How many inputs the host took.
    InputsSent { count: u32 },
}

/// Where an outcome leads.
#[derive(Clone, Copy, PartialEq, Eq, Structural)]
pub enum DeviceStep {
    Continue { stage: DeviceStage },
    Done,
    State { state: AudioState },
    Failed { error: DeviceError },
}

/// The call that a request is about.
pub open spec fn request_call(request: DeviceRequest) -> DeviceStage {
    match request {
        DeviceRequest::ReadState => DeviceStage::GetVolume,
        DeviceRequest::SetVolume { percent } => DeviceStage::SetVolume { percent },
        DeviceRequest::SetMute { muted } => DeviceStage::SetMute { muted },
        DeviceRequest::PressKey { key } => DeviceStage::SendKey { key },
    }
}

/// The first call of a request: the volume has to be reached first, a key is
/// pressed at once.
pub open spec fn first_stage(request: DeviceRequest) -> DeviceStage {
    match request {
        DeviceRequest::PressKey { .. } => request_call(request),
        _ => DeviceStage::InitializeCom,
    }
}

/// Why a call that failed leaves the request undone.
pub open spec fn stage_error(stage: DeviceStage) -> DeviceError {
    match stage {
        DeviceStage::InitializeCom => DeviceError::InitializeCom,
        DeviceStage::CreateEnumerator => DeviceError::CreateEnumerator,
        DeviceStage::GetEndpoint => DeviceError::DefaultEndpoint,
        DeviceStage::ActivateVolume => DeviceError::ActivateVolume,
        DeviceStage::GetVolume => DeviceError::GetVolume,
        DeviceStage::GetMute { .. } => DeviceError::GetMute,
        DeviceStage::SetVolume { .. } => DeviceError::SetVolume,
        DeviceStage::SetMute { .. } => DeviceError::SetMute,
        DeviceStage::SendKey { .. } => DeviceError::SendKey,
    }
}

/// The step after an outcome. One that does not belong to the call changes nothing.
pub open spec fn device_next(
    request: DeviceRequest,
    stage: DeviceStage,
    event: DeviceEvent,
) -> DeviceStep {
    match (stage, event) {
        (_, DeviceEvent::Failed) => DeviceStep::Failed { error: stage_error(stage) },
        (DeviceStage::InitializeCom, DeviceEvent::Done) => DeviceStep::Continue {
            stage: DeviceStage::CreateEnumerator,
        },
        (DeviceStage::CreateEnumerator, DeviceEvent::Done) => DeviceStep::Continue {
            stage: DeviceStage::GetEndpoint,
        },
        (DeviceStage::GetEndpoint, DeviceEvent::Done) => DeviceStep::Continue {
            stage: DeviceStage::ActivateVolume,
        },
        (DeviceStage::ActivateVolume, DeviceEvent::Done) => DeviceStep::Continue {
            stage: request_call(request),
        },
        (DeviceStage::GetVolume, DeviceEvent::Volume { reading }) => DeviceStep::Continue {
            stage: DeviceStage::GetMute { volume: percent(reading) },
        },
        (DeviceStage::GetMute { volume }, DeviceEvent::Mute { muted }) => DeviceStep::State {
            state: AudioState { volume, muted },
        },
        (
            DeviceStage::SetVolume { .. } | DeviceStage::SetMute { .. },
            DeviceEvent::Done,
        ) => DeviceStep::Done,
        (DeviceStage::SendKey { .. }, DeviceEvent::InputsSent { count }) => if count
            == KEY_PRESS_INPUTS {
            DeviceStep::Done
        } else {
            DeviceStep::Failed { error: DeviceError::SendKey }
        },
        _ => DeviceStep::Continue { stage },
    }
}

/// Begins to carry a request out.
pub fn begin_request(request: DeviceRequest) -> (r: DeviceStage)
    ensures
        r == first_stage(request),
{
    match request {
        DeviceRequest::PressKey { key } => DeviceStage::SendKey { key },
        _ => DeviceStage::InitializeCom,
    }
}

fn call_of(request: DeviceRequest) -> (r: DeviceStage)
    ensures
        r == request_call(request),
{
    match request {
        DeviceRequest::ReadState => DeviceStage::GetVolume,
        DeviceRequest::SetVolume { percent } => DeviceStage::SetVolume { percent },
        DeviceRequest::SetMute { muted } => DeviceStage::SetMute { muted },
        DeviceRequest::PressKey { key } => DeviceStage::SendKey { key },
    }
}

fn error_of(stage: DeviceStage) -> (r: DeviceError)
    ensures
        r == stage_error(stage),
{
    match stage {
        DeviceStage::InitializeCom => DeviceError::InitializeCom,
        DeviceStage::CreateEnumerator => DeviceError::CreateEnumerator,
        DeviceStage::GetEndpoint => DeviceError::DefaultEndpoint,
        DeviceStage::ActivateVolume => DeviceError::ActivateVolume,
        DeviceStage::GetVolume => DeviceError::GetVolume,
        DeviceStage::GetMute { .. } => DeviceError::GetMute,
        DeviceStage::SetVolume { .. } => DeviceError::SetVolume,
        DeviceStage::SetMute { .. } => DeviceError::SetMute,
        DeviceStage::SendKey { .. } => DeviceError::SendKey,
    }
}

/// Carries a request out by one call.
pub fn with_endpoint_volume(request: DeviceRequest, stage: DeviceStage, event: DeviceEvent) -> (r:
    DeviceStep)
    ensures
        r == device_next(request, stage, event),
{
    let next: DeviceStage = match (stage, event) {
        (_, DeviceEvent::Failed) => {
            return DeviceStep::Failed { error: error_of(stage) };
        },
        (DeviceStage::InitializeCom, DeviceEvent::Done) => DeviceStage::CreateEnumerator,
        (DeviceStage::CreateEnumerator, DeviceEvent::Done) => DeviceStage::GetEndpoint,
        (DeviceStage::GetEndpoint, DeviceEvent::Done) => DeviceStage::ActivateVolume,
        (DeviceStage::ActivateVolume, DeviceEvent::Done) => call_of(request),
        (DeviceStage::GetVolume, DeviceEvent::Volume { reading }) => DeviceStage::GetMute {
            volume: at_most_hundred(reading),
        },
        (DeviceStage::GetMute { volume }, DeviceEvent::Mute { muted }) => {
            return DeviceStep::State { state: AudioState { volume, muted } };
        },
        (DeviceStage::SetVolume { .. } | DeviceStage::SetMute { .. }, DeviceEvent::Done) => {
            return DeviceStep::Done;
        },
        (DeviceStage::SendKey { .. }, DeviceEvent::InputsSent { count }) => {
            return match media_key_sent(count) {
                Ok(()) => DeviceStep::Done,
                Err(error) => DeviceStep::Failed { error },
            };
        },
        _ => stage,
    };
    DeviceStep::Continue { stage: next }
}

/// The stages that a request can reach: the way to the volume, and the calls of
/// the request itself.
pub open spec fn on_the_way(request: DeviceRequest, stage: DeviceStage) -> bool {
    match stage {
        DeviceStage::InitializeCom
        | DeviceStage::CreateEnumerator
        | DeviceStage::GetEndpoint
        | DeviceStage::ActivateVolume => !(request is PressKey),
        DeviceStage::GetMute { volume } => request is ReadState && volume <= 100,
        _ => stage == request_call(request),
    }
}

/// The host does what it was asked and nothing else: every stage of a request is
/// on its way, only a reading ends with a state, whose volume is at most one
/// hundred percent, and everything else that ends well ends with the call that was
/// asked for.
pub proof fn request_is_kept(request: DeviceRequest, stage: DeviceStage, event: DeviceEvent)
    requires
        on_the_way(request, stage),
    ensures
        on_the_way(request, first_stage(request)),
        match device_next(request, stage, event) {
            DeviceStep::Continue { stage: next } => on_the_way(request, next),
            DeviceStep::Done => !(request is ReadState) && stage == request_call(request),
            DeviceStep::State { state } => request is ReadState && state.volume <= 100,
            DeviceStep::Failed { error } => error == stage_error(stage),
        },
{
}

/// Where a request stands after a row of outcomes, from its first call on.
pub open spec fn carried_out(request: DeviceRequest, events: Seq<DeviceEvent>) -> DeviceStep
    decreases events.len(),
{
    if events.len() == 0 {
        DeviceStep::Continue { stage: first_stage(request) }
    } else {
        match carried_out(request, events.drop_last()) {
            DeviceStep::Continue { stage } => device_next(request, stage, events.last()),
            ended => ended,
        }
    }
}

/// Whatever the host tells, a volume that is read is at most one hundred percent,
/// and only a request to read ends with one.
pub proof fn volume_is_a_percentage(request: DeviceRequest, events: Seq<DeviceEvent>)
    ensures
        match carried_out(request, events) {
            DeviceStep::Continue { stage } => on_the_way(request, stage),
            DeviceStep::State { state } => request is ReadState && state.volume <= 100,
            _ => true,
        },
    decreases events.len(),
{
    if events.len() > 0 {
        volume_is_a_percentage(request, events.drop_last());
    }
}

/// The host tells no other volume than `told`.
pub open spec fn tells_volume(events: Seq<DeviceEvent>, told: u8) -> bool {
    forall|i: int|
        0 <= i < events.len() ==> (#[trigger] events[i] matches DeviceEvent::Volume { reading }
            ==> reading == told)
}

/// A volume that was set is read back: where the request to set `volume` was carried
/// out, what the host was given is the volume up to one hundred percent, and where
/// it then tells what it was given, that is the volume of the state.
pub proof fn set_volume_is_read_back(
    volume: u8,
    setting: Seq<DeviceEvent>,
    reading: Seq<DeviceEvent>,
)
    requires
        carried_out(DeviceRequest::SetVolume { percent: percent(volume) }, setting) is Done,
        tells_volume(reading, percent(volume)),
    ensures
        exists|i: int|
            #![trigger setting[i]]
            0 <= i < setting.len() && setting[i] is Done && carried_out(
                DeviceRequest::SetVolume { percent: percent(volume) },
                setting.take(i),
            ) == (DeviceStep::Continue {
                stage: DeviceStage::SetVolume { percent: percent(volume) },
            }),
        carried_out(DeviceRequest::ReadState, reading) matches DeviceStep::State { state }
            ==> state.volume == percent(volume),
{
    volume_was_given(percent(volume), setting);
    volume_was_told(percent(volume), reading);
}

proof fn volume_was_given(given: u8, events: Seq<DeviceEvent>)
    requires
        carried_out(DeviceRequest::SetVolume { percent: given }, events) is Done,
    ensures
        events.len() > 0,
        exists|i: int|
            #![trigger events[i]]
            0 <= i < events.len() && events[i] is Done && carried_out(
                DeviceRequest::SetVolume { percent: given },
                events.take(i),
            ) == (DeviceStep::Continue { stage: DeviceStage::SetVolume { percent: given } }),
    decreases events.len(),
{
    let request = DeviceRequest::SetVolume { percent: given };
    if events.len() > 0 {
        let head = events.drop_last();
        let last = events.len() - 1;
        volume_is_a_percentage(request, head);
        assert(events.take(last) =~= head);
        if carried_out(request, head) is Done {
            volume_was_given(given, head);
            let i = choose|i: int|
                #![trigger head[i]]
                0 <= i < head.len() && head[i] is Done && carried_out(request, head.take(i)) == (
                DeviceStep::Continue { stage: DeviceStage::SetVolume { percent: given } });
            assert(head.take(i) =~= events.take(i));
            assert(events[i] == head[i]);
        } else {
            assert(events[last] is Done);
        }
    }
}

proof fn volume_was_told(told: u8, events: Seq<DeviceEvent>)
    requires
        tells_volume(events, told),
        told <= 100,
    ensures
        match carried_out(DeviceRequest::ReadState, events) {
            DeviceStep::Continue { stage: DeviceStage::GetMute { volume } } => volume == told,
            DeviceStep::State { state } => state.volume == told,
            _ => true,
        },
    decreases events.len(),
{
    if events.len() > 0 {
        let head = events.drop_last();
        assert(forall|i: int| 0 <= i < head.len() ==> head[i] == events[i]);
        volume_was_told(told, head);
        assert(events.last() == events[events.len() - 1]);
    }
}

/// The state that stands in where none can be read.
pub open spec fn best_effort(reading: Result<AudioState, DeviceError>) -> AudioState {
    match reading {
        Ok(state) => state,
        Err(_) => AudioState { volume: 0, muted: false },
    }
}

/// The state that was read, or silence without mute where none could be.
pub fn best_effort_audio_state(reading: Result<AudioState, DeviceError>) -> (r: AudioState)
    ensures
        r == best_effort(reading),
{
    match reading {
        Ok(state) => state,
        Err(_) => AudioState { volume: 0, muted: false },
    }
}

} // verus!
