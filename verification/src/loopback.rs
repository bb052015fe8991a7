//! Loopback capture of the default render endpoint, one call of the audio
//! service at a time. A stage names the call that is due; the outcome of the
//! call leads to the next stage.

use crate::device::Host;
use crate::wave_format::{sample_format, WasapiSampleFormat, WaveFormat};
use vstd::prelude::*;

verus! {

/// Units of 100 ns in a second.
pub const REFTIMES_PER_SEC: i64 = 10_000_000;

/// The flag of a packet whose data is to be taken as silence.
pub const BUFFER_FLAG_SILENT: u32 = 2;

/// What a wait returns that could not be made.
pub const WAIT_FAILED: u32 = 0xFFFF_FFFF;

/// What is known of a stream once its endpoint has been asked.
#[derive(Clone, Copy, PartialEq, Eq, Structural)]
pub struct StreamSetup {
    pub format: WaveFormat,
    pub sample_format: WasapiSampleFormat,
    pub period_frames: u32,
}

/// Calls up to the mix format.
#[derive(Clone, Copy, PartialEq, Eq, Structural)]
pub enum OpenStep {
    InitializeCom,
    CreateEnumerator,
    GetEndpoint,
    ActivateCapture,
    ActivateRender,
    GetMixFormat,
}

/// Calls up to the start of the stream.
#[derive(Clone, Copy, PartialEq, Eq, Structural)]
pub enum PrepareStep {
    InitializeCapture,
    /// The older way to initialize, with a buffer of this duration.
    FallBackCapture { duration: i64 },
    InitializeRender,
    FallBackRender { duration: i64 },
    CreateCaptureEvent,
    CreateRenderEvent,
    SetCaptureEvent,
    SetRenderEvent,
    GetCaptureService,
    GetRenderService,
    GetRenderBufferSize,
    PrimeSilence { frames: u32 },
    StartCapture,
    StartRender,
    /// Whoever asked for the stream is told that it runs.
    ReportStarted,
}

/// Calls while the stream runs.
#[derive(Clone, Copy, PartialEq, Eq, Structural)]
pub enum RunStep {
    CheckStop,
    WaitForEvent,
    GetPacketSize,
    GetPacket { frames: u32 },
    /// The processor is given `frames` silent frames.
    DeliverSilence { frames: u32 },
    /// The processor is given the bytes of the packet.
    DeliverBytes { frames: u32, byte_len: u64 },
    ReleasePacket { frames: u32 },
    GetBufferSize,
    GetPadding { buffer_frames: u32 },
    WriteSilence { frames: u32 },
}

/// The call that is due.
#[derive(Clone, Copy, PartialEq, Eq, Structural)]
pub enum LoopbackStage {
    Open(OpenStep),
    GetEnginePeriod { format: WaveFormat, sample_format: WasapiSampleFormat },
    Prepare(StreamSetup, PrepareStep),
    Run(StreamSetup, RunStep),
}

/// The outcome of a call.
pub enum LoopbackEvent {
    Done,
    Failed { message: String },
    /// The mix format, none where the service handed out a null pointer.
    MixFormat { format: Option<WaveFormat> },
    EnginePeriod { fundamental_frames: u32, min_frames: u32 },
    /// A packet size, a buffer size or a padding.
    Frames { frames: u32 },
    Packet { frames: u32, flags: u32, has_data: bool },
    Stop { requested: bool },
    Signaled { wait_result: u32 },
}

/// Where an outcome leads.
pub enum LoopbackStep {
    Continue { stage: LoopbackStage },
    /// The stream was asked to stop.
    Stopped,
    /// The stream ended by itself. While it was being set up, whoever asked for
    /// it is told.
    Failed { setting_up: bool, message: String },
}

/// A step, with the characters of its message.
pub enum LoopbackStepView {
    Continue { stage: LoopbackStage },
    Stopped,
    Failed { setting_up: bool, message: Seq<char> },
}

impl View for LoopbackStep {
    type V = LoopbackStepView;

    open spec fn view(&self) -> LoopbackStepView {
        match self {
            LoopbackStep::Continue { stage } => LoopbackStepView::Continue { stage: *stage },
            LoopbackStep::Stopped => LoopbackStepView::Stopped,
            LoopbackStep::Failed { setting_up, message } => LoopbackStepView::Failed {
                setting_up: *setting_up,
                message: message@,
            },
        }
    }
}

/// The duration of `frames` in units of 100 ns, at least one of them; a
/// hundredth of a second where the rate is not known.
pub open spec fn duration_of(frames: u32, sample_rate: u32) -> int {
    if sample_rate == 0 {
        REFTIMES_PER_SEC / 100
    } else {
        let whole = frames * REFTIMES_PER_SEC / (sample_rate as int);
        if whole < 1 {
            1
        } else {
            whole
        }
    }
}

/// The period a stream asks for: the shortest that the engine offers, and no
/// shorter than one step of its granularity.
pub open spec fn stream_period(fundamental_frames: u32, min_frames: u32) -> u32 {
    let longer = if min_frames >= fundamental_frames {
        min_frames
    } else {
        fundamental_frames
    };
    if longer >= 1 {
        longer
    } else {
        1
    }
}

/// What a call was for, as its failure is told.
pub open spec fn failure_context(stage: LoopbackStage) -> Seq<char> {
    match stage {
        LoopbackStage::Open(step) => match step {
            OpenStep::InitializeCom => "failed to initialize COM: "@,
            OpenStep::CreateEnumerator => "failed to create MMDeviceEnumerator: "@,
            OpenStep::GetEndpoint => "failed to get default render endpoint: "@,
            OpenStep::ActivateCapture => "failed to activate capture IAudioClient3: "@,
            OpenStep::ActivateRender => "failed to activate render IAudioClient3: "@,
            OpenStep::GetMixFormat => "failed to get WASAPI mix format: "@,
        },
        LoopbackStage::GetEnginePeriod { .. } => ""@,
        LoopbackStage::Prepare(_, step) => match step {
            PrepareStep::InitializeCapture
            | PrepareStep::FallBackCapture { .. } => "failed to initialize WASAPI loopback capture: "@,
            PrepareStep::InitializeRender
            | PrepareStep::FallBackRender { .. } => "failed to initialize WASAPI silence clock: "@,
            PrepareStep::CreateCaptureEvent => "failed to create capture event: "@,
            PrepareStep::CreateRenderEvent => "failed to create render event: "@,
            PrepareStep::SetCaptureEvent => "failed to set WASAPI capture event: "@,
            PrepareStep::SetRenderEvent => "failed to set WASAPI render event: "@,
            PrepareStep::GetCaptureService => "failed to get IAudioCaptureClient: "@,
            PrepareStep::GetRenderService => "failed to get IAudioRenderClient: "@,
            PrepareStep::StartCapture => "failed to start WASAPI loopback capture: "@,
            PrepareStep::StartRender => "failed to start WASAPI silence clock: "@,
            _ => ""@,
        },
        LoopbackStage::Run(_, step) => match step {
            RunStep::ReleasePacket { .. } => "failed to release WASAPI capture buffer: "@,
            _ => ""@,
        },
    }
}

/// The call comes before the stream was reported to run.
pub open spec fn setting_up(stage: LoopbackStage) -> bool {
    !(stage is Run)
}

pub open spec fn failed(stage: LoopbackStage, message: Seq<char>) -> LoopbackStepView {
    LoopbackStepView::Failed { setting_up: setting_up(stage), message }
}

pub open spec fn opening(step: OpenStep) -> LoopbackStepView {
    LoopbackStepView::Continue { stage: LoopbackStage::Open(step) }
}

pub open spec fn preparing(setup: StreamSetup, step: PrepareStep) -> LoopbackStepView {
    LoopbackStepView::Continue { stage: LoopbackStage::Prepare(setup, step) }
}

pub open spec fn running(setup: StreamSetup, step: RunStep) -> LoopbackStepView {
    LoopbackStepView::Continue { stage: LoopbackStage::Run(setup, step) }
}

/// A packet is silent where its flag says so, and empty where it has no data.
pub open spec fn packet_taken(
    setup: StreamSetup,
    frames: u32,
    flags: u32,
    has_data: bool,
) -> RunStep {
    let byte_len = frames * setup.format.block_align;
    if (flags / BUFFER_FLAG_SILENT) % 2 == 1 {
        RunStep::DeliverSilence { frames }
    } else if has_data && byte_len > 0 {
        RunStep::DeliverBytes { frames, byte_len: byte_len as u64 }
    } else {
        RunStep::ReleasePacket { frames }
    }
}

/// The frames of the render buffer that are free.
pub open spec fn free_frames(buffer_frames: u32, padding: u32) -> u32 {
    if padding >= buffer_frames {
        0
    } else {
        (buffer_frames - padding) as u32
    }
}

pub open spec fn open_next(step: OpenStep, event: LoopbackEvent) -> LoopbackStepView {
    let stage = LoopbackStage::Open(step);
    match (step, event) {
        (_, LoopbackEvent::Failed { message }) => failed(stage, failure_context(stage) + message@),
        (OpenStep::InitializeCom, LoopbackEvent::Done) => opening(OpenStep::CreateEnumerator),
        (OpenStep::CreateEnumerator, LoopbackEvent::Done) => opening(OpenStep::GetEndpoint),
        (OpenStep::GetEndpoint, LoopbackEvent::Done) => opening(OpenStep::ActivateCapture),
        (OpenStep::ActivateCapture, LoopbackEvent::Done) => opening(OpenStep::ActivateRender),
        (OpenStep::ActivateRender, LoopbackEvent::Done) => opening(OpenStep::GetMixFormat),
        (OpenStep::GetMixFormat, LoopbackEvent::MixFormat { format: None }) => failed(
            stage,
            "WASAPI returned null mix format"@,
        ),
        (OpenStep::GetMixFormat, LoopbackEvent::MixFormat { format: Some(format) }) => match sample_format(
            Host::Windows,
            format,
        ) {
            Ok(sample_format) => LoopbackStepView::Continue {
                stage: LoopbackStage::GetEnginePeriod { format, sample_format },
            },
            Err(error) => failed(stage, error.text()),
        },
        _ => opening(step),
    }
}

pub open spec fn prepare_next(
    setup: StreamSetup,
    step: PrepareStep,
    event: LoopbackEvent,
) -> LoopbackStepView {
    let stage = LoopbackStage::Prepare(setup, step);
    let duration = duration_of(setup.period_frames, setup.format.sample_rate) as i64;
    match (step, event) {
        (PrepareStep::InitializeCapture, LoopbackEvent::Failed { .. }) => preparing(
            setup,
            PrepareStep::FallBackCapture { duration },
        ),
        (PrepareStep::InitializeRender, LoopbackEvent::Failed { .. }) => preparing(
            setup,
            PrepareStep::FallBackRender { duration },
        ),
        (PrepareStep::ReportStarted, LoopbackEvent::Failed { .. }) => preparing(setup, step),
        (_, LoopbackEvent::Failed { message }) => failed(stage, failure_context(stage) + message@),
        (
            PrepareStep::InitializeCapture | PrepareStep::FallBackCapture { .. },
            LoopbackEvent::Done,
        ) => preparing(setup, PrepareStep::InitializeRender),
        (
            PrepareStep::InitializeRender | PrepareStep::FallBackRender { .. },
            LoopbackEvent::Done,
        ) => preparing(setup, PrepareStep::CreateCaptureEvent),
        (PrepareStep::CreateCaptureEvent, LoopbackEvent::Done) => preparing(
            setup,
            PrepareStep::CreateRenderEvent,
        ),
        (PrepareStep::CreateRenderEvent, LoopbackEvent::Done) => preparing(
            setup,
            PrepareStep::SetCaptureEvent,
        ),
        (PrepareStep::SetCaptureEvent, LoopbackEvent::Done) => preparing(
            setup,
            PrepareStep::SetRenderEvent,
        ),
        (PrepareStep::SetRenderEvent, LoopbackEvent::Done) => preparing(
            setup,
            PrepareStep::GetCaptureService,
        ),
        (PrepareStep::GetCaptureService, LoopbackEvent::Done) => preparing(
            setup,
            PrepareStep::GetRenderService,
        ),
        (PrepareStep::GetRenderService, LoopbackEvent::Done) => preparing(
            setup,
            PrepareStep::GetRenderBufferSize,
        ),
        (PrepareStep::GetRenderBufferSize, LoopbackEvent::Frames { frames }) => preparing(
            setup,
            if frames == 0 {
                PrepareStep::StartCapture
            } else {
                PrepareStep::PrimeSilence { frames }
            },
        ),
        (PrepareStep::PrimeSilence { .. }, LoopbackEvent::Done) => preparing(
            setup,
            PrepareStep::StartCapture,
        ),
        (PrepareStep::StartCapture, LoopbackEvent::Done) => preparing(
            setup,
            PrepareStep::StartRender,
        ),
        (PrepareStep::StartRender, LoopbackEvent::Done) => preparing(
            setup,
            PrepareStep::ReportStarted,
        ),
        (PrepareStep::ReportStarted, LoopbackEvent::Done) => running(setup, RunStep::CheckStop),
        _ => preparing(setup, step),
    }
}

pub open spec fn run_next(
    setup: StreamSetup,
    step: RunStep,
    event: LoopbackEvent,
) -> LoopbackStepView {
    let stage = LoopbackStage::Run(setup, step);
    match (step, event) {
        (RunStep::CheckStop, LoopbackEvent::Stop { requested }) => if requested {
            LoopbackStepView::Stopped
        } else {
            running(setup, RunStep::WaitForEvent)
        },
        (RunStep::WaitForEvent, LoopbackEvent::Signaled { wait_result }) => if wait_result
            == WAIT_FAILED {
            failed(stage, "failed to wait for WASAPI event"@)
        } else if wait_result == 0 {
            running(setup, RunStep::GetPacketSize)
        } else {
            running(setup, RunStep::GetBufferSize)
        },
        (RunStep::GetPacketSize, LoopbackEvent::Frames { frames }) => running(
            setup,
            if frames == 0 {
                RunStep::CheckStop
            } else {
                RunStep::GetPacket { frames }
            },
        ),
        (RunStep::GetPacket { .. }, LoopbackEvent::Packet { frames, flags, has_data }) => running(
            setup,
            packet_taken(setup, frames, flags, has_data),
        ),
        (
            RunStep::DeliverSilence { frames } | RunStep::DeliverBytes { frames, .. },
            LoopbackEvent::Done,
        ) => running(setup, RunStep::ReleasePacket { frames }),
        (RunStep::ReleasePacket { .. }, LoopbackEvent::Done) => running(
            setup,
            RunStep::GetPacketSize,
        ),
        (RunStep::GetBufferSize, LoopbackEvent::Frames { frames }) => running(
            setup,
            RunStep::GetPadding { buffer_frames: frames },
        ),
        (RunStep::GetPadding { buffer_frames }, LoopbackEvent::Frames { frames }) => running(
            setup,
            if free_frames(buffer_frames, frames) == 0 {
                RunStep::CheckStop
            } else {
                RunStep::WriteSilence { frames: free_frames(buffer_frames, frames) }
            },
        ),
        (RunStep::WriteSilence { .. }, LoopbackEvent::Done) => running(setup, RunStep::CheckStop),
        (
            RunStep::GetPacketSize
            | RunStep::GetPacket { .. }
            | RunStep::ReleasePacket { .. }
            | RunStep::GetBufferSize
            | RunStep::GetPadding { .. }
            | RunStep::WriteSilence { .. },
            LoopbackEvent::Failed { message },
        ) => failed(stage, failure_context(stage) + message@),
        _ => running(setup, step),
    }
}

/// The step after an outcome. One that does not belong to the call changes nothing.
pub open spec fn loopback_next(stage: LoopbackStage, event: LoopbackEvent) -> LoopbackStepView {
    match stage {
        LoopbackStage::Open(step) => open_next(step, event),
        LoopbackStage::GetEnginePeriod { format, sample_format } => match event {
            LoopbackEvent::EnginePeriod { fundamental_frames, min_frames } => preparing(
                StreamSetup {
                    format,
                    sample_format,
                    period_frames: stream_period(fundamental_frames, min_frames),
                },
                PrepareStep::InitializeCapture,
            ),
            LoopbackEvent::Failed { message } => failed(stage, message@),
            _ => LoopbackStepView::Continue { stage },
        },
        LoopbackStage::Prepare(setup, step) => prepare_next(setup, step, event),
        LoopbackStage::Run(setup, step) => run_next(setup, step, event),
    }
}

/// The duration that asks for a buffer of `frames`.
pub fn frames_to_hns(frames: u32, sample_rate: u32) -> (r: i64)
    ensures
        r == duration_of(frames, sample_rate),
{
    if sample_rate == 0 {
        return REFTIMES_PER_SEC / 100;
    }
    let total: i64 = frames as i64 * REFTIMES_PER_SEC;
    assert(0 <= total / (sample_rate as i64) <= total) by (nonlinear_arith)
        requires
            total >= 0,
            sample_rate > 0,
    ;
    let whole: i64 = total / sample_rate as i64;
    if whole < 1 {
        1
    } else {
        whole
    }
}

/// The period to ask for, out of what the engine offers.
pub fn shared_engine_period_frames(fundamental_frames: u32, min_frames: u32) -> (r: u32)
    ensures
        r == stream_period(fundamental_frames, min_frames),
{
    let longer: u32 = if min_frames >= fundamental_frames {
        min_frames
    } else {
        fundamental_frames
    };
    if longer >= 1 {
        longer
    } else {
        1
    }
}

fn is_silent(flags: u32) -> (r: bool)
    ensures
        r == ((flags / BUFFER_FLAG_SILENT) % 2 == 1),
{
    assert((flags & 2 != 0) == ((flags / 2) % 2 == 1)) by (bit_vector);
    flags & BUFFER_FLAG_SILENT != 0
}

fn context(stage: LoopbackStage) -> (r: &'static str)
    ensures
        r@ == failure_context(stage),
{
    match stage {
        LoopbackStage::Open(step) => match step {
            OpenStep::InitializeCom => "failed to initialize COM: ",
            OpenStep::CreateEnumerator => "failed to create MMDeviceEnumerator: ",
            OpenStep::GetEndpoint => "failed to get default render endpoint: ",
            OpenStep::ActivateCapture => "failed to activate capture IAudioClient3: ",
            OpenStep::ActivateRender => "failed to activate render IAudioClient3: ",
            OpenStep::GetMixFormat => "failed to get WASAPI mix format: ",
        },
        LoopbackStage::GetEnginePeriod { .. } => "",
        LoopbackStage::Prepare(_, step) => match step {
            PrepareStep::InitializeCapture
            | PrepareStep::FallBackCapture { .. } => "failed to initialize WASAPI loopback capture: ",
            PrepareStep::InitializeRender
            | PrepareStep::FallBackRender { .. } => "failed to initialize WASAPI silence clock: ",
            PrepareStep::CreateCaptureEvent => "failed to create capture event: ",
            PrepareStep::CreateRenderEvent => "failed to create render event: ",
            PrepareStep::SetCaptureEvent => "failed to set WASAPI capture event: ",
            PrepareStep::SetRenderEvent => "failed to set WASAPI render event: ",
            PrepareStep::GetCaptureService => "failed to get IAudioCaptureClient: ",
            PrepareStep::GetRenderService => "failed to get IAudioRenderClient: ",
            PrepareStep::StartCapture => "failed to start WASAPI loopback capture: ",
            PrepareStep::StartRender => "failed to start WASAPI silence clock: ",
            _ => "",
        },
        LoopbackStage::Run(_, step) => match step {
            RunStep::ReleasePacket { .. } => "failed to release WASAPI capture buffer: ",
            _ => "",
        },
    }
}

fn fail(stage: LoopbackStage, message: String) -> (r: LoopbackStep)
    ensures
        r@ == failed(stage, message@),
{
    let setting_up: bool = match stage {
        LoopbackStage::Run(..) => false,
        _ => true,
    };
    LoopbackStep::Failed { setting_up, message }
}

fn fail_call(stage: LoopbackStage, cause: String) -> (r: LoopbackStep)
    ensures
        r@ == failed(stage, failure_context(stage) + cause@),
{
    let mut message: String = String::new();
    message.append(context(stage));
    message.append(cause.as_str());
    assert(message@ =~= failure_context(stage) + cause@);
    fail(stage, message)
}

fn open(step: OpenStep) -> (r: LoopbackStep)
    ensures
        r@ == opening(step),
{
    LoopbackStep::Continue { stage: LoopbackStage::Open(step) }
}

fn prepare(setup: StreamSetup, step: PrepareStep) -> (r: LoopbackStep)
    ensures
        r@ == preparing(setup, step),
{
    LoopbackStep::Continue { stage: LoopbackStage::Prepare(setup, step) }
}

fn run(setup: StreamSetup, step: RunStep) -> (r: LoopbackStep)
    ensures
        r@ == running(setup, step),
{
    LoopbackStep::Continue { stage: LoopbackStage::Run(setup, step) }
}

fn after_open(step: OpenStep, event: LoopbackEvent) -> (r: LoopbackStep)
    ensures
        r@ == open_next(step, event),
{
    let stage = LoopbackStage::Open(step);
    match (step, event) {
        (_, LoopbackEvent::Failed { message }) => fail_call(stage, message),
        (OpenStep::InitializeCom, LoopbackEvent::Done) => open(OpenStep::CreateEnumerator),
        (OpenStep::CreateEnumerator, LoopbackEvent::Done) => open(OpenStep::GetEndpoint),
        (OpenStep::GetEndpoint, LoopbackEvent::Done) => open(OpenStep::ActivateCapture),
        (OpenStep::ActivateCapture, LoopbackEvent::Done) => open(OpenStep::ActivateRender),
        (OpenStep::ActivateRender, LoopbackEvent::Done) => open(OpenStep::GetMixFormat),
        (OpenStep::GetMixFormat, LoopbackEvent::MixFormat { format: None }) => fail(
            stage,
            "WASAPI returned null mix format".to_owned(),
        ),
        (OpenStep::GetMixFormat, LoopbackEvent::MixFormat { format: Some(format) }) => {
            match WasapiSampleFormat::from_wave_format(Host::Windows, &format) {
                Ok(sample_format) => LoopbackStep::Continue {
                    stage: LoopbackStage::GetEnginePeriod { format, sample_format },
                },
                Err(error) => fail(stage, error.message()),
            }
        },
        _ => open(step),
    }
}

fn after_prepare(setup: StreamSetup, step: PrepareStep, event: LoopbackEvent) -> (r: LoopbackStep)
    ensures
        r@ == prepare_next(setup, step, event),
{
    let stage = LoopbackStage::Prepare(setup, step);
    let duration: i64 = frames_to_hns(setup.period_frames, setup.format.sample_rate);
    match (step, event) {
        (PrepareStep::InitializeCapture, LoopbackEvent::Failed { .. }) => prepare(
            setup,
            PrepareStep::FallBackCapture { duration },
        ),
        (PrepareStep::InitializeRender, LoopbackEvent::Failed { .. }) => prepare(
            setup,
            PrepareStep::FallBackRender { duration },
        ),
        (PrepareStep::ReportStarted, LoopbackEvent::Failed { .. }) => prepare(setup, step),
        (_, LoopbackEvent::Failed { message }) => fail_call(stage, message),
        (
            PrepareStep::InitializeCapture | PrepareStep::FallBackCapture { .. },
            LoopbackEvent::Done,
        ) => prepare(setup, PrepareStep::InitializeRender),
        (
            PrepareStep::InitializeRender | PrepareStep::FallBackRender { .. },
            LoopbackEvent::Done,
        ) => prepare(setup, PrepareStep::CreateCaptureEvent),
        (PrepareStep::CreateCaptureEvent, LoopbackEvent::Done) => prepare(
            setup,
            PrepareStep::CreateRenderEvent,
        ),
        (PrepareStep::CreateRenderEvent, LoopbackEvent::Done) => prepare(
            setup,
            PrepareStep::SetCaptureEvent,
        ),
        (PrepareStep::SetCaptureEvent, LoopbackEvent::Done) => prepare(
            setup,
            PrepareStep::SetRenderEvent,
        ),
        (PrepareStep::SetRenderEvent, LoopbackEvent::Done) => prepare(
            setup,
            PrepareStep::GetCaptureService,
        ),
        (PrepareStep::GetCaptureService, LoopbackEvent::Done) => prepare(
            setup,
            PrepareStep::GetRenderService,
        ),
        (PrepareStep::GetRenderService, LoopbackEvent::Done) => prepare(
            setup,
            PrepareStep::GetRenderBufferSize,
        ),
        (PrepareStep::GetRenderBufferSize, LoopbackEvent::Frames { frames }) => {
            if frames == 0 {
                prepare(setup, PrepareStep::StartCapture)
            } else {
                prepare(setup, PrepareStep::PrimeSilence { frames })
            }
        },
        (PrepareStep::PrimeSilence { .. }, LoopbackEvent::Done) => prepare(
            setup,
            PrepareStep::StartCapture,
        ),
        (PrepareStep::StartCapture, LoopbackEvent::Done) => prepare(setup, PrepareStep::StartRender),
        (PrepareStep::StartRender, LoopbackEvent::Done) => prepare(
            setup,
            PrepareStep::ReportStarted,
        ),
        (PrepareStep::ReportStarted, LoopbackEvent::Done) => run(setup, RunStep::CheckStop),
        _ => prepare(setup, step),
    }
}

/// Whether the data of a packet goes to the processor, and as what.
pub fn process_capture_packets(setup: StreamSetup, frames: u32, flags: u32, has_data: bool) -> (r:
    RunStep)
    ensures
        r == packet_taken(setup, frames, flags, has_data),
{
    assert(0 <= frames * setup.format.block_align <= 0xFFFF_FFFF * 0xFFFF) by (nonlinear_arith)
        requires
            0 <= frames <= 0xFFFF_FFFF,
            0 <= setup.format.block_align <= 0xFFFF,
    ;
    let byte_len: u64 = frames as u64 * setup.format.block_align as u64;
    if is_silent(flags) {
        RunStep::DeliverSilence { frames }
    } else if has_data && byte_len > 0 {
        RunStep::DeliverBytes { frames, byte_len }
    } else {
        RunStep::ReleasePacket { frames }
    }
}

/// The frames of silence that the render buffer takes.
pub fn write_silence_if_needed(buffer_frames: u32, padding: u32) -> (r: RunStep)
    ensures
        r == (if free_frames(buffer_frames, padding) == 0 {
            RunStep::CheckStop
        } else {
            RunStep::WriteSilence { frames: free_frames(buffer_frames, padding) }
        }),
{
    let available: u32 = buffer_frames.saturating_sub(padding);
    if available == 0 {
        RunStep::CheckStop
    } else {
        RunStep::WriteSilence { frames: available }
    }
}

fn after_run(setup: StreamSetup, step: RunStep, event: LoopbackEvent) -> (r: LoopbackStep)
    ensures
        r@ == run_next(setup, step, event),
{
    let stage = LoopbackStage::Run(setup, step);
    match (step, event) {
        (RunStep::CheckStop, LoopbackEvent::Stop { requested }) => {
            if requested {
                LoopbackStep::Stopped
            } else {
                run(setup, RunStep::WaitForEvent)
            }
        },
        (RunStep::WaitForEvent, LoopbackEvent::Signaled { wait_result }) => {
            if wait_result == WAIT_FAILED {
                fail(stage, "failed to wait for WASAPI event".to_owned())
            } else if wait_result == 0 {
                run(setup, RunStep::GetPacketSize)
            } else {
                run(setup, RunStep::GetBufferSize)
            }
        },
        (RunStep::GetPacketSize, LoopbackEvent::Frames { frames }) => {
            if frames == 0 {
                run(setup, RunStep::CheckStop)
            } else {
                run(setup, RunStep::GetPacket { frames })
            }
        },
        (RunStep::GetPacket { .. }, LoopbackEvent::Packet { frames, flags, has_data }) => run(
            setup,
            process_capture_packets(setup, frames, flags, has_data),
        ),
        (RunStep::DeliverSilence { frames }, LoopbackEvent::Done) => run(
            setup,
            RunStep::ReleasePacket { frames },
        ),
        (RunStep::DeliverBytes { frames, .. }, LoopbackEvent::Done) => run(
            setup,
            RunStep::ReleasePacket { frames },
        ),
        (RunStep::ReleasePacket { .. }, LoopbackEvent::Done) => run(setup, RunStep::GetPacketSize),
        (RunStep::GetBufferSize, LoopbackEvent::Frames { frames }) => run(
            setup,
            RunStep::GetPadding { buffer_frames: frames },
        ),
        (RunStep::GetPadding { buffer_frames }, LoopbackEvent::Frames { frames }) => run(
            setup,
            write_silence_if_needed(buffer_frames, frames),
        ),
        (RunStep::WriteSilence { .. }, LoopbackEvent::Done) => run(setup, RunStep::CheckStop),
        (
            RunStep::GetPacketSize
            | RunStep::GetPacket { .. }
            | RunStep::ReleasePacket { .. }
            | RunStep::GetBufferSize
            | RunStep::GetPadding { .. }
            | RunStep::WriteSilence { .. },
            LoopbackEvent::Failed { message },
        ) => fail_call(stage, message),
        _ => run(setup, step),
    }
}

/// The first stage of a stream, or why there is none: loopback capture needs Windows.
pub open spec fn stream_start(host: Host) -> Result<LoopbackStage, Seq<char>> {
    match host {
        Host::Windows => Ok(LoopbackStage::Open(OpenStep::InitializeCom)),
        Host::Other => Err("native WASAPI loopback capture is only supported on Windows"@),
    }
}

/// Begins a stream on this host.
pub fn spawn_speaker_loopback_stream(host: Host) -> (r: Result<LoopbackStage, String>)
    ensures
        match stream_start(host) {
            Ok(stage) => r == Ok::<LoopbackStage, String>(stage),
            Err(text) => r matches Err(message) && message@ == text,
        },
{
    match host {
        Host::Windows => Ok(LoopbackStage::Open(OpenStep::InitializeCom)),
        Host::Other => Err(
            "native WASAPI loopback capture is only supported on Windows".to_owned(),
        ),
    }
}

/// Takes the outcome of the call that was due to the next one.
pub fn run_wasapi_loopback(stage: LoopbackStage, event: LoopbackEvent) -> (r: LoopbackStep)
    ensures
        r@ == loopback_next(stage, event),
{
    match stage {
        LoopbackStage::Open(step) => after_open(step, event),
        LoopbackStage::GetEnginePeriod { format, sample_format } => match event {
            LoopbackEvent::EnginePeriod { fundamental_frames, min_frames } => {
                let period_frames: u32 = shared_engine_period_frames(
                    fundamental_frames,
                    min_frames,
                );
                prepare(
                    StreamSetup { format, sample_format, period_frames },
                    PrepareStep::InitializeCapture,
                )
            },
            LoopbackEvent::Failed { message } => fail(stage, message),
            _ => LoopbackStep::Continue { stage },
        },
        LoopbackStage::Prepare(setup, step) => after_prepare(setup, step, event),
        LoopbackStage::Run(setup, step) => after_run(setup, step, event),
    }
}

/// Calls that are at most due before a stream runs.
pub open spec fn calls_left(stage: LoopbackStage) -> nat {
    match stage {
        LoopbackStage::Open(step) => match step {
            OpenStep::InitializeCom => 22,
            OpenStep::CreateEnumerator => 21,
            OpenStep::GetEndpoint => 20,
            OpenStep::ActivateCapture => 19,
            OpenStep::ActivateRender => 18,
            OpenStep::GetMixFormat => 17,
        },
        LoopbackStage::GetEnginePeriod { .. } => 16,
        LoopbackStage::Prepare(_, step) => match step {
            PrepareStep::InitializeCapture => 15,
            PrepareStep::FallBackCapture { .. } => 14,
            PrepareStep::InitializeRender => 13,
            PrepareStep::FallBackRender { .. } => 12,
            PrepareStep::CreateCaptureEvent => 11,
            PrepareStep::CreateRenderEvent => 10,
            PrepareStep::SetCaptureEvent => 9,
            PrepareStep::SetRenderEvent => 8,
            PrepareStep::GetCaptureService => 7,
            PrepareStep::GetRenderService => 6,
            PrepareStep::GetRenderBufferSize => 5,
            PrepareStep::PrimeSilence { .. } => 4,
            PrepareStep::StartCapture => 3,
            PrepareStep::StartRender => 2,
            PrepareStep::ReportStarted => 1,
        },
        LoopbackStage::Run(..) => 0,
    }
}

/// Setting up a stream comes to an end: while no outcome is repeated for
/// nothing, each brings it nearer to running, or ends it with a message for
/// whoever asked for it.
pub proof fn setup_comes_to_an_end(stage: LoopbackStage, event: LoopbackEvent)
    requires
        setting_up(stage),
    ensures
        match loopback_next(stage, event) {
            LoopbackStepView::Continue { stage: next } => next == stage || calls_left(next)
                < calls_left(stage),
            LoopbackStepView::Stopped => false,
            LoopbackStepView::Failed { setting_up, .. } => setting_up,
        },
{
}

/// A stream runs only after it was reported to run, and it is reported only after
/// both of its clients were started, the one for capture first.
pub proof fn running_follows_the_report(stage: LoopbackStage, event: LoopbackEvent)
    requires
        setting_up(stage),
    ensures
        ({
            let next = loopback_next(stage, event);
            next == (LoopbackStepView::Continue { stage }) || match next {
                LoopbackStepView::Continue { stage: LoopbackStage::Run(setup, _) } => stage
                    == (LoopbackStage::Prepare(setup, PrepareStep::ReportStarted)),
                LoopbackStepView::Continue {
                    stage: LoopbackStage::Prepare(setup, PrepareStep::ReportStarted),
                } => event is Done && stage == (LoopbackStage::Prepare(setup, PrepareStep::StartRender)),
                LoopbackStepView::Continue {
                    stage: LoopbackStage::Prepare(setup, PrepareStep::StartRender),
                } => event is Done && stage == (LoopbackStage::Prepare(setup, PrepareStep::StartCapture)),
                _ => true,
            }
        }),
{
}

/// A running stream keeps what was set up, and stops without a failure exactly
/// when it finds itself asked to.
pub proof fn stop_is_honoured(setup: StreamSetup, step: RunStep, event: LoopbackEvent)
    ensures
        ({
            let next = loopback_next(LoopbackStage::Run(setup, step), event);
            &&& next is Stopped <==> step is CheckStop && event == (LoopbackEvent::Stop {
                requested: true,
            })
            &&& next matches LoopbackStepView::Continue { stage } ==> stage matches LoopbackStage::Run(
                kept,
                _,
            ) && kept == setup
            &&& next matches LoopbackStepView::Failed { setting_up, .. } ==> !setting_up
        }),
{
}

/// Every packet is given back, all of its frames, before the next one is asked
/// for: between getting it and giving it back nothing can fail.
pub proof fn packet_is_given_back(
    setup: StreamSetup,
    asked: u32,
    frames: u32,
    flags: u32,
    has_data: bool,
)
    ensures
        ({
            let got = loopback_next(
                LoopbackStage::Run(setup, RunStep::GetPacket { frames: asked }),
                LoopbackEvent::Packet { frames, flags, has_data },
            );
            let giving_back = running(setup, RunStep::ReleasePacket { frames });
            ||| got == giving_back
            ||| got matches LoopbackStepView::Continue { stage } && (forall|event: LoopbackEvent|
                #[trigger] loopback_next(stage, event) == (if event is Done {
                    giving_back
                } else {
                    got
                }))
        }),
{
}

/// The render buffer is never given more than it has room for.
pub proof fn silence_fits(buffer_frames: u32, padding: u32)
    requires
        padding <= buffer_frames,
    ensures
        padding + free_frames(buffer_frames, padding) == buffer_frames,
{
}

} // verus!
