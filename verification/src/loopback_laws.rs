//! What holds of a loopback stream as a whole: the order of its calls, what
//! becomes of its packets, and how its failures are told.

use crate::loopback::{
    duration_of, free_frames, loopback_next, stream_period, LoopbackEvent, LoopbackStage,
    LoopbackStepView, OpenStep, PrepareStep, RunStep, StreamSetup,
};
use crate::wave_format::{WasapiSampleFormat, WaveFormat};
use vstd::prelude::*;

verus! {

/// The call `stage` is due next.
pub open spec fn leads_to(from: LoopbackStage, event: LoopbackEvent, stage: LoopbackStage) -> bool {
    loopback_next(from, event) == (LoopbackStepView::Continue { stage })
}

/// What a packet holds reaches the processor. One whose second lowest flag is set is
/// silence for all of its frames, whatever its other flags are and whether or not
/// it has data. Any other that has data is delivered with all of its bytes, and
/// one without data, without frames or without bytes in a frame is given back at once.
pub proof fn packets_are_delivered(
    setup: StreamSetup,
    asked: u32,
    frames: u32,
    flags: u32,
    has_data: bool,
)
    ensures
        flags & 2 != 0 ==> leads_to(
            LoopbackStage::Run(setup, RunStep::GetPacket { frames: asked }),
            LoopbackEvent::Packet { frames, flags, has_data },
            LoopbackStage::Run(setup, RunStep::DeliverSilence { frames }),
        ),
        flags & 2 == 0 && has_data && frames > 0 && setup.format.block_align > 0 ==> exists|
            byte_len: u64,
        |
            byte_len == frames * setup.format.block_align && #[trigger] leads_to(
                LoopbackStage::Run(setup, RunStep::GetPacket { frames: asked }),
                LoopbackEvent::Packet { frames, flags, has_data },
                LoopbackStage::Run(setup, RunStep::DeliverBytes { frames, byte_len }),
            ),
        flags & 2 == 0 && (!has_data || frames == 0 || setup.format.block_align == 0) ==> leads_to(
            LoopbackStage::Run(setup, RunStep::GetPacket { frames: asked }),
            LoopbackEvent::Packet { frames, flags, has_data },
            LoopbackStage::Run(setup, RunStep::ReleasePacket { frames }),
        ),
{
    assert((flags & 2 != 0) == ((flags / 2) % 2 == 1)) by (bit_vector);
    let product = frames * setup.format.block_align;
    assert(0 <= product <= 0xFFFF_FFFF * 0xFFFF) by (nonlinear_arith)
        requires
            0 <= frames <= 0xFFFF_FFFF,
            0 <= setup.format.block_align <= 0xFFFF,
            product == frames * setup.format.block_align,
    ;
    if frames > 0 && setup.format.block_align > 0 {
        assert(product > 0) by (nonlinear_arith)
            requires
                frames > 0,
                setup.format.block_align > 0,
                product == frames * setup.format.block_align,
        ;
        let byte_len = product as u64;
        if flags & 2 == 0 && has_data {
            assert(leads_to(
                LoopbackStage::Run(setup, RunStep::GetPacket { frames: asked }),
                LoopbackEvent::Packet { frames, flags, has_data },
                LoopbackStage::Run(setup, RunStep::DeliverBytes { frames, byte_len }),
            ));
        }
    } else {
        assert(product == 0) by (nonlinear_arith)
            requires
                frames == 0 || setup.format.block_align == 0,
                product == frames * setup.format.block_align,
        ;
    }
}

/// After a delivery its packet is given back, then the next packet is looked for,
/// and the wait begins again only once there is none.
pub proof fn packets_are_drained(setup: StreamSetup, frames: u32, byte_len: u64, more: u32)
    requires
        more > 0,
    ensures
        leads_to(
            LoopbackStage::Run(setup, RunStep::DeliverSilence { frames }),
            LoopbackEvent::Done,
            LoopbackStage::Run(setup, RunStep::ReleasePacket { frames }),
        ),
        leads_to(
            LoopbackStage::Run(setup, RunStep::DeliverBytes { frames, byte_len }),
            LoopbackEvent::Done,
            LoopbackStage::Run(setup, RunStep::ReleasePacket { frames }),
        ),
        leads_to(
            LoopbackStage::Run(setup, RunStep::ReleasePacket { frames }),
            LoopbackEvent::Done,
            LoopbackStage::Run(setup, RunStep::GetPacketSize),
        ),
        leads_to(
            LoopbackStage::Run(setup, RunStep::GetPacketSize),
            LoopbackEvent::Frames { frames: more },
            LoopbackStage::Run(setup, RunStep::GetPacket { frames: more }),
        ),
        leads_to(
            LoopbackStage::Run(setup, RunStep::GetPacketSize),
            LoopbackEvent::Frames { frames: 0 },
            LoopbackStage::Run(setup, RunStep::CheckStop),
        ),
{
}

/// A stream that was not asked to stop waits; the first of its two events is that of
/// the capture client, any other result but the failure that of the silence clock.
pub proof fn events_are_told_apart(setup: StreamSetup, wait_result: u32)
    ensures
        leads_to(
            LoopbackStage::Run(setup, RunStep::CheckStop),
            LoopbackEvent::Stop { requested: false },
            LoopbackStage::Run(setup, RunStep::WaitForEvent),
        ),
        loopback_next(
            LoopbackStage::Run(setup, RunStep::CheckStop),
            LoopbackEvent::Stop { requested: true },
        ) is Stopped,
        wait_result == 0 ==> leads_to(
            LoopbackStage::Run(setup, RunStep::WaitForEvent),
            LoopbackEvent::Signaled { wait_result },
            LoopbackStage::Run(setup, RunStep::GetPacketSize),
        ),
        0 < wait_result < 0xFFFF_FFFF ==> leads_to(
            LoopbackStage::Run(setup, RunStep::WaitForEvent),
            LoopbackEvent::Signaled { wait_result },
            LoopbackStage::Run(setup, RunStep::GetBufferSize),
        ),
        wait_result == 0xFFFF_FFFF ==> loopback_next(
            LoopbackStage::Run(setup, RunStep::WaitForEvent),
            LoopbackEvent::Signaled { wait_result },
        ) == (LoopbackStepView::Failed {
            setting_up: false,
            message: "failed to wait for WASAPI event"@,
        }),
{
}

/// The silence clock is filled up: what the buffer has beyond its padding is
/// written, and a buffer that is full is left alone.
pub proof fn clock_is_filled_up(setup: StreamSetup, buffer_frames: u32, padding: u32, frames: u32)
    ensures
        leads_to(
            LoopbackStage::Run(setup, RunStep::GetBufferSize),
            LoopbackEvent::Frames { frames: buffer_frames },
            LoopbackStage::Run(setup, RunStep::GetPadding { buffer_frames }),
        ),
        padding + frames == buffer_frames && frames > 0 ==> leads_to(
            LoopbackStage::Run(setup, RunStep::GetPadding { buffer_frames }),
            LoopbackEvent::Frames { frames: padding },
            LoopbackStage::Run(setup, RunStep::WriteSilence { frames }),
        ),
        padding >= buffer_frames ==> leads_to(
            LoopbackStage::Run(setup, RunStep::GetPadding { buffer_frames }),
            LoopbackEvent::Frames { frames: padding },
            LoopbackStage::Run(setup, RunStep::CheckStop),
        ),
        leads_to(
            LoopbackStage::Run(setup, RunStep::WriteSilence { frames }),
            LoopbackEvent::Done,
            LoopbackStage::Run(setup, RunStep::CheckStop),
        ),
        padding >= buffer_frames ==> free_frames(buffer_frames, padding) == 0,
{
}

/// The endpoint is opened for capture and for the silence clock before its mix format
/// is asked for.
pub proof fn endpoint_is_opened_in_order()
    ensures
        leads_to(
            LoopbackStage::Open(OpenStep::InitializeCom),
            LoopbackEvent::Done,
            LoopbackStage::Open(OpenStep::CreateEnumerator),
        ),
        leads_to(
            LoopbackStage::Open(OpenStep::CreateEnumerator),
            LoopbackEvent::Done,
            LoopbackStage::Open(OpenStep::GetEndpoint),
        ),
        leads_to(
            LoopbackStage::Open(OpenStep::GetEndpoint),
            LoopbackEvent::Done,
            LoopbackStage::Open(OpenStep::ActivateCapture),
        ),
        leads_to(
            LoopbackStage::Open(OpenStep::ActivateCapture),
            LoopbackEvent::Done,
            LoopbackStage::Open(OpenStep::ActivateRender),
        ),
        leads_to(
            LoopbackStage::Open(OpenStep::ActivateRender),
            LoopbackEvent::Done,
            LoopbackStage::Open(OpenStep::GetMixFormat),
        ),
{
}

/// The stream has the period that the engine named: the longer of its shortest
/// period and its granularity, and at least one frame. Its format is the one that
/// was read.
pub proof fn period_is_what_the_engine_offers(
    format: WaveFormat,
    sample_format: WasapiSampleFormat,
    fundamental_frames: u32,
    min_frames: u32,
)
    ensures
        stream_period(fundamental_frames, min_frames) >= 1,
        stream_period(fundamental_frames, min_frames) >= min_frames,
        stream_period(fundamental_frames, min_frames) >= fundamental_frames,
        stream_period(fundamental_frames, min_frames) > 1 ==> stream_period(
            fundamental_frames,
            min_frames,
        ) == min_frames || stream_period(fundamental_frames, min_frames) == fundamental_frames,
        exists|period_frames: u32|
            period_frames == stream_period(fundamental_frames, min_frames) && #[trigger] leads_to(
                LoopbackStage::GetEnginePeriod { format, sample_format },
                LoopbackEvent::EnginePeriod { fundamental_frames, min_frames },
                LoopbackStage::Prepare(
                    StreamSetup { format, sample_format, period_frames },
                    PrepareStep::InitializeCapture,
                ),
            ),
{
    let period_frames = stream_period(fundamental_frames, min_frames);
    assert(leads_to(
        LoopbackStage::GetEnginePeriod { format, sample_format },
        LoopbackEvent::EnginePeriod { fundamental_frames, min_frames },
        LoopbackStage::Prepare(
            StreamSetup { format, sample_format, period_frames },
            PrepareStep::InitializeCapture,
        ),
    ));
}

/// A duration is the whole number of units of 100 ns that the frames fill, and at
/// least one; without a rate it is 10 ms.
pub proof fn duration_is_that_of_the_frames(frames: u32, sample_rate: u32)
    ensures
        sample_rate == 0 ==> duration_of(frames, sample_rate) == 100_000,
        duration_of(frames, sample_rate) >= 1,
        sample_rate > 0 ==> frames * 10_000_000 < (duration_of(frames, sample_rate) + 1)
            * sample_rate,
        sample_rate > 0 && duration_of(frames, sample_rate) > 1 ==> duration_of(frames, sample_rate)
            * sample_rate <= frames * 10_000_000,
{
    if sample_rate > 0 {
        let total: int = frames * 10_000_000;
        let rate: int = sample_rate as int;
        let whole: int = total / rate;
        assert(whole * rate <= total < (whole + 1) * rate) by (nonlinear_arith)
            requires
                rate > 0,
                whole == total / rate,
        ;
        if whole < 1 {
            assert((whole + 1) * rate <= 2 * rate) by (nonlinear_arith)
                requires
                    whole < 1,
                    rate > 0,
            ;
        }
    }
}

/// A client that refuses the period of the engine is initialized the older way, with a
/// buffer of one period; then the other client and the events follow, each once.
pub proof fn clients_are_prepared_in_order(setup: StreamSetup, message: String, duration: i64)
    ensures
        duration == duration_of(setup.period_frames, setup.format.sample_rate) ==> leads_to(
            LoopbackStage::Prepare(setup, PrepareStep::InitializeCapture),
            LoopbackEvent::Failed { message },
            LoopbackStage::Prepare(setup, PrepareStep::FallBackCapture { duration }),
        ),
        duration == duration_of(setup.period_frames, setup.format.sample_rate) ==> leads_to(
            LoopbackStage::Prepare(setup, PrepareStep::InitializeRender),
            LoopbackEvent::Failed { message },
            LoopbackStage::Prepare(setup, PrepareStep::FallBackRender { duration }),
        ),
        leads_to(
            LoopbackStage::Prepare(setup, PrepareStep::InitializeCapture),
            LoopbackEvent::Done,
            LoopbackStage::Prepare(setup, PrepareStep::InitializeRender),
        ),
        leads_to(
            LoopbackStage::Prepare(setup, PrepareStep::FallBackCapture { duration }),
            LoopbackEvent::Done,
            LoopbackStage::Prepare(setup, PrepareStep::InitializeRender),
        ),
        leads_to(
            LoopbackStage::Prepare(setup, PrepareStep::InitializeRender),
            LoopbackEvent::Done,
            LoopbackStage::Prepare(setup, PrepareStep::CreateCaptureEvent),
        ),
        leads_to(
            LoopbackStage::Prepare(setup, PrepareStep::FallBackRender { duration }),
            LoopbackEvent::Done,
            LoopbackStage::Prepare(setup, PrepareStep::CreateCaptureEvent),
        ),
        leads_to(
            LoopbackStage::Prepare(setup, PrepareStep::CreateCaptureEvent),
            LoopbackEvent::Done,
            LoopbackStage::Prepare(setup, PrepareStep::CreateRenderEvent),
        ),
        leads_to(
            LoopbackStage::Prepare(setup, PrepareStep::CreateRenderEvent),
            LoopbackEvent::Done,
            LoopbackStage::Prepare(setup, PrepareStep::SetCaptureEvent),
        ),
        leads_to(
            LoopbackStage::Prepare(setup, PrepareStep::SetCaptureEvent),
            LoopbackEvent::Done,
            LoopbackStage::Prepare(setup, PrepareStep::SetRenderEvent),
        ),
        leads_to(
            LoopbackStage::Prepare(setup, PrepareStep::SetRenderEvent),
            LoopbackEvent::Done,
            LoopbackStage::Prepare(setup, PrepareStep::GetCaptureService),
        ),
        leads_to(
            LoopbackStage::Prepare(setup, PrepareStep::GetCaptureService),
            LoopbackEvent::Done,
            LoopbackStage::Prepare(setup, PrepareStep::GetRenderService),
        ),
        leads_to(
            LoopbackStage::Prepare(setup, PrepareStep::GetRenderService),
            LoopbackEvent::Done,
            LoopbackStage::Prepare(setup, PrepareStep::GetRenderBufferSize),
        ),
{
}

/// The whole render buffer is primed with silence before either client starts; the
/// stream is reported once both run, and then attends to a stop first of all.
pub proof fn stream_is_started_in_order(setup: StreamSetup, frames: u32)
    ensures
        frames > 0 ==> leads_to(
            LoopbackStage::Prepare(setup, PrepareStep::GetRenderBufferSize),
            LoopbackEvent::Frames { frames },
            LoopbackStage::Prepare(setup, PrepareStep::PrimeSilence { frames }),
        ),
        frames == 0 ==> leads_to(
            LoopbackStage::Prepare(setup, PrepareStep::GetRenderBufferSize),
            LoopbackEvent::Frames { frames },
            LoopbackStage::Prepare(setup, PrepareStep::StartCapture),
        ),
        leads_to(
            LoopbackStage::Prepare(setup, PrepareStep::PrimeSilence { frames }),
            LoopbackEvent::Done,
            LoopbackStage::Prepare(setup, PrepareStep::StartCapture),
        ),
        leads_to(
            LoopbackStage::Prepare(setup, PrepareStep::StartCapture),
            LoopbackEvent::Done,
            LoopbackStage::Prepare(setup, PrepareStep::StartRender),
        ),
        leads_to(
            LoopbackStage::Prepare(setup, PrepareStep::StartRender),
            LoopbackEvent::Done,
            LoopbackStage::Prepare(setup, PrepareStep::ReportStarted),
        ),
        leads_to(
            LoopbackStage::Prepare(setup, PrepareStep::ReportStarted),
            LoopbackEvent::Done,
            LoopbackStage::Run(setup, RunStep::CheckStop),
        ),
{
}

/// A failure of the call at `stage` ends the stream with `told` before the cause.
pub open spec fn fails_with(stage: LoopbackStage, message: String, told: Seq<char>) -> bool {
    loopback_next(stage, LoopbackEvent::Failed { message }) == (LoopbackStepView::Failed {
        setting_up: !(stage is Run),
        message: told + message@,
    })
}

/// A call that fails before the mix format is known is told by what it was for.
pub proof fn failed_opening_is_told(
    message: String,
    format: WaveFormat,
    sample_format: WasapiSampleFormat,
)
    ensures
        fails_with(
            LoopbackStage::Open(OpenStep::InitializeCom),
            message,
            "failed to initialize COM: "@,
        ),
        fails_with(
            LoopbackStage::Open(OpenStep::CreateEnumerator),
            message,
            "failed to create MMDeviceEnumerator: "@,
        ),
        fails_with(
            LoopbackStage::Open(OpenStep::GetEndpoint),
            message,
            "failed to get default render endpoint: "@,
        ),
        fails_with(
            LoopbackStage::Open(OpenStep::ActivateCapture),
            message,
            "failed to activate capture IAudioClient3: "@,
        ),
        fails_with(
            LoopbackStage::Open(OpenStep::ActivateRender),
            message,
            "failed to activate render IAudioClient3: "@,
        ),
        fails_with(
            LoopbackStage::Open(OpenStep::GetMixFormat),
            message,
            "failed to get WASAPI mix format: "@,
        ),
        fails_with(
            LoopbackStage::GetEnginePeriod { format, sample_format },
            message,
            Seq::empty(),
        ),
{
    assert(Seq::<char>::empty() + message@ =~= message@);
}

/// A call that fails while the clients are prepared is told by what it was for.
pub proof fn failed_preparation_is_told(
    setup: StreamSetup,
    message: String,
    duration: i64,
    frames: u32,
)
    ensures
        fails_with(
            LoopbackStage::Prepare(setup, PrepareStep::FallBackCapture { duration }),
            message,
            "failed to initialize WASAPI loopback capture: "@,
        ),
        fails_with(
            LoopbackStage::Prepare(setup, PrepareStep::FallBackRender { duration }),
            message,
            "failed to initialize WASAPI silence clock: "@,
        ),
        fails_with(
            LoopbackStage::Prepare(setup, PrepareStep::CreateCaptureEvent),
            message,
            "failed to create capture event: "@,
        ),
        fails_with(
            LoopbackStage::Prepare(setup, PrepareStep::CreateRenderEvent),
            message,
            "failed to create render event: "@,
        ),
        fails_with(
            LoopbackStage::Prepare(setup, PrepareStep::SetCaptureEvent),
            message,
            "failed to set WASAPI capture event: "@,
        ),
        fails_with(
            LoopbackStage::Prepare(setup, PrepareStep::SetRenderEvent),
            message,
            "failed to set WASAPI render event: "@,
        ),
        fails_with(
            LoopbackStage::Prepare(setup, PrepareStep::GetCaptureService),
            message,
            "failed to get IAudioCaptureClient: "@,
        ),
        fails_with(
            LoopbackStage::Prepare(setup, PrepareStep::GetRenderService),
            message,
            "failed to get IAudioRenderClient: "@,
        ),
        fails_with(
            LoopbackStage::Prepare(setup, PrepareStep::GetRenderBufferSize),
            message,
            Seq::empty(),
        ),
        fails_with(
            LoopbackStage::Prepare(setup, PrepareStep::PrimeSilence { frames }),
            message,
            Seq::empty(),
        ),
        fails_with(
            LoopbackStage::Prepare(setup, PrepareStep::StartCapture),
            message,
            "failed to start WASAPI loopback capture: "@,
        ),
        fails_with(
            LoopbackStage::Prepare(setup, PrepareStep::StartRender),
            message,
            "failed to start WASAPI silence clock: "@,
        ),
{
    reveal_strlit("");
    assert(""@ =~= Seq::<char>::empty());
}

/// A call that fails while the stream runs ends it with its own words, save that a
/// packet which could not be given back is told as such.
pub proof fn failed_run_is_told(setup: StreamSetup, message: String, frames: u32)
    ensures
        fails_with(LoopbackStage::Run(setup, RunStep::GetPacketSize), message, Seq::empty()),
        fails_with(LoopbackStage::Run(setup, RunStep::GetPacket { frames }), message, Seq::empty()),
        fails_with(
            LoopbackStage::Run(setup, RunStep::ReleasePacket { frames }),
            message,
            "failed to release WASAPI capture buffer: "@,
        ),
        fails_with(LoopbackStage::Run(setup, RunStep::GetBufferSize), message, Seq::empty()),
        fails_with(
            LoopbackStage::Run(setup, RunStep::GetPadding { buffer_frames: frames }),
            message,
            Seq::empty(),
        ),
        fails_with(
            LoopbackStage::Run(setup, RunStep::WriteSilence { frames }),
            message,
            Seq::empty(),
        ),
{
    reveal_strlit("");
    assert(""@ =~= Seq::<char>::empty());
}

/// A format that is missing ends the setup, and so does one that cannot be captured,
/// with the reason; any other is kept, with its sample format.
pub proof fn mix_format_decides(format: WaveFormat)
    ensures
        loopback_next(
            LoopbackStage::Open(OpenStep::GetMixFormat),
            LoopbackEvent::MixFormat { format: None },
        ) == (LoopbackStepView::Failed {
            setting_up: true,
            message: "WASAPI returned null mix format"@,
        }),
        match crate::wave_format::sample_format(crate::device::Host::Windows, format) {
            Ok(sample_format) => leads_to(
                LoopbackStage::Open(OpenStep::GetMixFormat),
                LoopbackEvent::MixFormat { format: Some(format) },
                LoopbackStage::GetEnginePeriod { format, sample_format },
            ),
            Err(error) => loopback_next(
                LoopbackStage::Open(OpenStep::GetMixFormat),
                LoopbackEvent::MixFormat { format: Some(format) },
            ) == (LoopbackStepView::Failed { setting_up: true, message: error.text() }),
        },
{
}

/// The outcome is one that the call at `stage` can have.
pub open spec fn answers(stage: LoopbackStage, event: LoopbackEvent) -> bool {
    match event {
        LoopbackEvent::Done => match stage {
            LoopbackStage::Open(step) => !(step is GetMixFormat),
            LoopbackStage::GetEnginePeriod { .. } => false,
            LoopbackStage::Prepare(_, step) => !(step is GetRenderBufferSize),
            LoopbackStage::Run(_, step) => step is DeliverSilence || step is DeliverBytes
                || step is ReleasePacket || step is WriteSilence,
        },
        LoopbackEvent::Failed { .. } => match stage {
            LoopbackStage::Open(_) => true,
            LoopbackStage::GetEnginePeriod { .. } => true,
            LoopbackStage::Prepare(_, step) => !(step is ReportStarted),
            LoopbackStage::Run(_, step) => !(step is CheckStop || step is WaitForEvent
                || step is DeliverSilence || step is DeliverBytes),
        },
        LoopbackEvent::MixFormat { .. } => stage == LoopbackStage::Open(OpenStep::GetMixFormat),
        LoopbackEvent::EnginePeriod { .. } => stage is GetEnginePeriod,
        LoopbackEvent::Frames { .. } => match stage {
            LoopbackStage::Prepare(_, step) => step is GetRenderBufferSize,
            LoopbackStage::Run(_, step) => step is GetPacketSize || step is GetBufferSize
                || step is GetPadding,
            _ => false,
        },
        LoopbackEvent::Packet { .. } => match stage {
            LoopbackStage::Run(_, step) => step is GetPacket,
            _ => false,
        },
        LoopbackEvent::Stop { .. } => match stage {
            LoopbackStage::Run(_, step) => step is CheckStop,
            _ => false,
        },
        LoopbackEvent::Signaled { .. } => match stage {
            LoopbackStage::Run(_, step) => step is WaitForEvent,
            _ => false,
        },
    }
}

/// A call stays due until an outcome comes that it can have, and is never due
/// again right after one.
pub proof fn call_waits_for_its_outcome(stage: LoopbackStage, event: LoopbackEvent)
    ensures
        leads_to(stage, event, stage) <==> !answers(stage, event),
{
}

} // verus!
