//! What starts an audio session and keeps it going: the pipeline that passes
//! changes of the output device on until the session ends, and the control of its
//! capture stream.

use crate::audio_stats::{mark_udp_stream_inactive, AudioStats, StatsView};
use crate::device::Host;
use crate::loopback::{spawn_speaker_loopback_stream, stream_start, LoopbackStage};
use crate::pcm_pipe::PcmPipe;
use vstd::prelude::*;

verus! {

/// Where the pipeline of a session stands.
#[derive(Clone, Copy, PartialEq, Eq, Structural)]
pub enum PipelineState {
    /// The capture is being started.
    StartingCapture,
    /// The capture runs; the sender is being started.
    StartingSender,
    Watching,
    /// A restart of the capture was asked for.
    Restarting,
    Ended,
}

/// What the pipeline has learnt.
pub enum PipelineEvent {
    /// The capture was started, or why it could not be.
    CaptureStarted { outcome: Result<(), String> },
    /// The thread of the sender was started, or could not be.
    SenderStarted { started: bool },
    /// The sender has finished.
    SenderDone,
    /// The output device changed, unless nothing watches it any more.
    DeviceChanged { watched: bool },
    /// The capture control took the request, or is gone.
    RestartSent { taken: bool },
    /// The stop switch was touched, unless its owner is gone.
    StopChanged { owned: bool, stop: bool },
}

/// What the pipeline is to do.
pub enum PipelineAction {
    Wait,
    StartSender,
    /// Tell whoever asked for the session that it runs, and watch on.
    ReportStarted,
    SendRestart,
    /// Tell whoever asked for the session why there is none. Let go of the
    /// capture control, which then ends if it runs.
    Refuse { message: String },
    /// Let go of the capture control, which then ends.
    End,
}

/// An action, with the characters of its message.
pub enum PipelineActionView {
    Wait,
    StartSender,
    ReportStarted,
    SendRestart,
    Refuse { message: Seq<char> },
    End,
}

impl View for PipelineAction {
    type V = PipelineActionView;

    open spec fn view(&self) -> PipelineActionView {
        match self {
            PipelineAction::Wait => PipelineActionView::Wait,
            PipelineAction::StartSender => PipelineActionView::StartSender,
            PipelineAction::ReportStarted => PipelineActionView::ReportStarted,
            PipelineAction::SendRestart => PipelineActionView::SendRestart,
            PipelineAction::Refuse { message } => PipelineActionView::Refuse { message: message@ },
            PipelineAction::End => PipelineActionView::End,
        }
    }
}

pub open spec fn refusing(message: Seq<char>) -> (PipelineState, PipelineActionView) {
    (PipelineState::Ended, PipelineActionView::Refuse { message })
}

pub open spec fn pipeline_next(state: PipelineState, event: PipelineEvent) -> (
    PipelineState,
    PipelineActionView,
) {
    match (state, event) {
        (PipelineState::StartingCapture, PipelineEvent::CaptureStarted { outcome }) => match outcome {
            Ok(()) => (PipelineState::StartingSender, PipelineActionView::StartSender),
            Err(message) => refusing(message@),
        },
        (PipelineState::StartingSender, PipelineEvent::SenderStarted { started }) => if started {
            (PipelineState::Watching, PipelineActionView::ReportStarted)
        } else {
            refusing("failed to spawn UDP audio send thread"@)
        },
        (PipelineState::Watching, PipelineEvent::SenderDone) => (
            PipelineState::Ended,
            PipelineActionView::End,
        ),
        (PipelineState::Watching, PipelineEvent::DeviceChanged { watched }) => if watched {
            (PipelineState::Restarting, PipelineActionView::SendRestart)
        } else {
            (PipelineState::Ended, PipelineActionView::End)
        },
        (PipelineState::Watching, PipelineEvent::StopChanged { owned, stop }) => if owned && !stop {
            (PipelineState::Watching, PipelineActionView::Wait)
        } else {
            (PipelineState::Ended, PipelineActionView::End)
        },
        (PipelineState::Restarting, PipelineEvent::RestartSent { taken }) => if taken {
            (PipelineState::Watching, PipelineActionView::Wait)
        } else {
            (PipelineState::Ended, PipelineActionView::End)
        },
        _ => (state, PipelineActionView::Wait),
    }
}

/// Takes the pipeline one step on. A capture that cannot start is what it
/// answers with: no sender is started and the counters stay as they were. Once a
/// pipeline that ran ends, the stream no longer counts as active.
pub fn spawn_speaker_loopback_udp_pipeline(
    state: PipelineState,
    event: PipelineEvent,
    stats: &mut AudioStats,
) -> (r: (PipelineState, PipelineAction))
    ensures
        (r.0, r.1@) == pipeline_next(state, event),
        final(stats)@ == (if r.1 is End {
            StatsView { active: false, ..old(stats)@ }
        } else {
            old(stats)@
        }),
{
    let next: (PipelineState, PipelineAction) = match (state, event) {
        (PipelineState::StartingCapture, PipelineEvent::CaptureStarted { outcome }) => {
            match outcome {
                Ok(()) => (PipelineState::StartingSender, PipelineAction::StartSender),
                Err(message) => (PipelineState::Ended, PipelineAction::Refuse { message }),
            }
        },
        (PipelineState::StartingSender, PipelineEvent::SenderStarted { started }) => {
            if started {
                (PipelineState::Watching, PipelineAction::ReportStarted)
            } else {
                let message: String = "failed to spawn UDP audio send thread".to_owned();
                (PipelineState::Ended, PipelineAction::Refuse { message })
            }
        },
        (PipelineState::Watching, PipelineEvent::SenderDone) => (
            PipelineState::Ended,
            PipelineAction::End,
        ),
        (PipelineState::Watching, PipelineEvent::DeviceChanged { watched }) => {
            if watched {
                (PipelineState::Restarting, PipelineAction::SendRestart)
            } else {
                (PipelineState::Ended, PipelineAction::End)
            }
        },
        (PipelineState::Watching, PipelineEvent::StopChanged { owned, stop }) => {
            if owned && !stop {
                (PipelineState::Watching, PipelineAction::Wait)
            } else {
                (PipelineState::Ended, PipelineAction::End)
            }
        },
        (PipelineState::Restarting, PipelineEvent::RestartSent { taken }) => {
            if taken {
                (PipelineState::Watching, PipelineAction::Wait)
            } else {
                (PipelineState::Ended, PipelineAction::End)
            }
        },
        _ => (state, PipelineAction::Wait),
    };
    if let PipelineAction::End = next.1 {
        mark_udp_stream_inactive(stats);
    }
    next
}

/// A session that runs ends where its sender finished, where it was told to
/// stop, or where one of those it listens to is gone, and then for good; nothing
/// else ends it.
pub proof fn pipeline_ends_only_for_cause(state: PipelineState, event: PipelineEvent)
    ensures
        pipeline_next(state, event).1 is End <==> match state {
            PipelineState::Watching => match event {
                PipelineEvent::SenderDone => true,
                PipelineEvent::DeviceChanged { watched } => !watched,
                PipelineEvent::StopChanged { owned, stop } => !owned || stop,
                _ => false,
            },
            PipelineState::Restarting => event == (PipelineEvent::RestartSent { taken: false }),
            _ => false,
        },
        pipeline_next(state, event).1 is End || pipeline_next(state, event).1 is Refuse
            ==> pipeline_next(state, event).0 is Ended,
        state is Ended ==> pipeline_next(state, event) == (
            PipelineState::Ended,
            PipelineActionView::Wait,
        ),
{
}

/// A sender is started only once the capture runs, and a session is reported to
/// run only once both do.
pub proof fn pipeline_starts_in_order(state: PipelineState, event: PipelineEvent)
    ensures
        pipeline_next(state, event).1 is StartSender <==> {
            &&& state is StartingCapture
            &&& event matches PipelineEvent::CaptureStarted { outcome }
            &&& outcome is Ok
        },
        pipeline_next(state, event).1 is ReportStarted <==> state is StartingSender && event
            == (PipelineEvent::SenderStarted { started: true }),
{
}

/// Where the control of the capture stream stands.
#[derive(Clone, Copy, PartialEq, Eq, Structural)]
pub enum CaptureControl {
    Starting,
    /// `capturing` is unset where the stream could not be restarted.
    Running { capturing: bool },
    Restarting,
    Ended,
}

pub enum CaptureControlEvent {
    StreamStarted,
    StreamFailed { message: String },
    RestartRequested,
    /// No further request can come.
    RequestsClosed,
}

pub enum CaptureControlAction {
    /// Wait for the next request.
    Wait,
    /// Tell whoever asked for the session that it runs, and wait.
    ReportStarted,
    /// Tell whoever asked for the session why it does not run, and end.
    ReportFailed { message: String },
    /// Drop the stream, if there is one, and start another.
    ReplaceStream,
    /// Drop the stream and end.
    End,
}

/// An action, with the characters of its message.
pub enum CaptureControlActionView {
    Wait,
    ReportStarted,
    ReportFailed { message: Seq<char> },
    ReplaceStream,
    End,
}

impl View for CaptureControlAction {
    type V = CaptureControlActionView;

    open spec fn view(&self) -> CaptureControlActionView {
        match self {
            CaptureControlAction::Wait => CaptureControlActionView::Wait,
            CaptureControlAction::ReportStarted => CaptureControlActionView::ReportStarted,
            CaptureControlAction::ReportFailed { message } => {
                CaptureControlActionView::ReportFailed { message: message@ }
            },
            CaptureControlAction::ReplaceStream => CaptureControlActionView::ReplaceStream,
            CaptureControlAction::End => CaptureControlActionView::End,
        }
    }
}

pub open spec fn capture_control_next(state: CaptureControl, event: CaptureControlEvent) -> (
    CaptureControl,
    CaptureControlActionView,
) {
    match (state, event) {
        (CaptureControl::Starting, CaptureControlEvent::StreamStarted) => (
            CaptureControl::Running { capturing: true },
            CaptureControlActionView::ReportStarted,
        ),
        (CaptureControl::Starting, CaptureControlEvent::StreamFailed { message }) => (
            CaptureControl::Ended,
            CaptureControlActionView::ReportFailed { message: message@ },
        ),
        (CaptureControl::Running { .. }, CaptureControlEvent::RestartRequested) => (
            CaptureControl::Restarting,
            CaptureControlActionView::ReplaceStream,
        ),
        (CaptureControl::Running { .. }, CaptureControlEvent::RequestsClosed) => (
            CaptureControl::Ended,
            CaptureControlActionView::End,
        ),
        (CaptureControl::Restarting, CaptureControlEvent::StreamStarted) => (
            CaptureControl::Running { capturing: true },
            CaptureControlActionView::Wait,
        ),
        (CaptureControl::Restarting, CaptureControlEvent::StreamFailed { .. }) => (
            CaptureControl::Running { capturing: false },
            CaptureControlActionView::Wait,
        ),
        _ => (state, CaptureControlActionView::Wait),
    }
}

/// Takes the control of the capture stream one step on. Once it ends, the pipe
/// has no producer any more; what waits in it stays.
pub fn spawn_capture_control_thread(
    state: CaptureControl,
    event: CaptureControlEvent,
    pipe: &mut PcmPipe,
) -> (r: (CaptureControl, CaptureControlAction))
    requires
        old(pipe).wf(),
    ensures
        (r.0, r.1@) == capture_control_next(state, event),
        final(pipe).wf(),
        final(pipe).chunks() == old(pipe).chunks(),
        final(pipe).alive() == (old(pipe).alive() && !(r.0 is Ended && !(state is Ended))),
        r.1 is End || r.1 is ReportFailed ==> !final(pipe).alive(),
        !(r.1 is End) && !(r.1 is ReportFailed) ==> final(pipe).alive() == old(pipe).alive(),
{
    let next: (CaptureControl, CaptureControlAction) = match (state, event) {
        (CaptureControl::Starting, CaptureControlEvent::StreamStarted) => (
            CaptureControl::Running { capturing: true },
            CaptureControlAction::ReportStarted,
        ),
        (CaptureControl::Starting, CaptureControlEvent::StreamFailed { message }) => (
            CaptureControl::Ended,
            CaptureControlAction::ReportFailed { message },
        ),
        (CaptureControl::Running { .. }, CaptureControlEvent::RestartRequested) => (
            CaptureControl::Restarting,
            CaptureControlAction::ReplaceStream,
        ),
        (CaptureControl::Running { .. }, CaptureControlEvent::RequestsClosed) => (
            CaptureControl::Ended,
            CaptureControlAction::End,
        ),
        (CaptureControl::Restarting, CaptureControlEvent::StreamStarted) => (
            CaptureControl::Running { capturing: true },
            CaptureControlAction::Wait,
        ),
        (CaptureControl::Restarting, CaptureControlEvent::StreamFailed { .. }) => (
            CaptureControl::Running { capturing: false },
            CaptureControlAction::Wait,
        ),
        _ => (state, CaptureControlAction::Wait),
    };
    match &next.1 {
        CaptureControlAction::ReportFailed { .. } | CaptureControlAction::End => pipe.close(),
        _ => {},
    }
    next
}

/// A stream that cannot be restarted does not end the session: the next change of
/// the device is answered with another try. Only a first stream that fails, or
/// the end of the requests, ends it.
pub proof fn failed_restart_is_survived(
    state: CaptureControl,
    event: CaptureControlEvent,
    message: String,
)
    ensures
        capture_control_next(
            CaptureControl::Restarting,
            CaptureControlEvent::StreamFailed { message },
        ) == (CaptureControl::Running { capturing: false }, CaptureControlActionView::Wait),
        capture_control_next(
            CaptureControl::Running { capturing: false },
            CaptureControlEvent::RestartRequested,
        ) == (CaptureControl::Restarting, CaptureControlActionView::ReplaceStream),
        capture_control_next(state, event).0 is Ended && !(state is Ended) ==> {
            ||| state is Starting && event is StreamFailed
            ||| state is Running && event is RequestsClosed
        },
{
}

/// A first stream that fails is told through to whoever asked for the session,
/// in its own words: by the capture control, and by the pipeline, which then
/// starts no sender.
pub proof fn failed_capture_is_answered(message: String)
    ensures
        capture_control_next(
            CaptureControl::Starting,
            CaptureControlEvent::StreamFailed { message },
        ) == (CaptureControl::Ended, CaptureControlActionView::ReportFailed { message: message@ }),
        pipeline_next(
            PipelineState::StartingCapture,
            PipelineEvent::CaptureStarted { outcome: Err(message) },
        ) == refusing(message@),
{
}

/// What is heard of a thread that was to be started.
pub enum ThreadReport {
    NotSpawned,
    /// It ended without a word.
    Lost,
    Reported { outcome: Result<(), String> },
}

/// The outcome of a start that a thread reports on. A thread that cannot be
/// spawned, or ends without a word, counts as a failure with these words.
pub open spec fn start_outcome(
    report: ThreadReport,
    not_spawned: Seq<char>,
    lost: Seq<char>,
) -> Result<(), Seq<char>> {
    match report {
        ThreadReport::NotSpawned => Err(not_spawned),
        ThreadReport::Lost => Err(lost),
        ThreadReport::Reported { outcome } => match outcome {
            Ok(()) => Ok(()),
            Err(message) => Err(message@),
        },
    }
}

fn reported(report: ThreadReport, not_spawned: &str, lost: &str) -> (r: Result<(), String>)
    ensures
        match start_outcome(report, not_spawned@, lost@) {
            Ok(()) => r is Ok,
            Err(text) => r matches Err(message) && message@ == text,
        },
{
    match report {
        ThreadReport::NotSpawned => Err(not_spawned.to_owned()),
        ThreadReport::Lost => Err(lost.to_owned()),
        ThreadReport::Reported { outcome } => outcome,
    }
}

/// Whether the capture of a session was started, by its control thread.
pub fn capture_started(report: ThreadReport) -> (r: Result<(), String>)
    ensures
        match start_outcome(
            report,
            "failed to spawn capture control thread"@,
            "capture control thread stopped before startup"@,
        ) {
            Ok(()) => r is Ok,
            Err(text) => r matches Err(message) && message@ == text,
        },
{
    reported(
        report,
        "failed to spawn capture control thread",
        "capture control thread stopped before startup",
    )
}

/// Whether a capture stream was started, by its own thread.
pub fn stream_started(report: ThreadReport) -> (r: Result<(), String>)
    ensures
        match start_outcome(
            report,
            "failed to spawn native WASAPI loopback thread"@,
            "WASAPI loopback thread stopped before startup"@,
        ) {
            Ok(()) => r is Ok,
            Err(text) => r matches Err(message) && message@ == text,
        },
{
    reported(
        report,
        "failed to spawn native WASAPI loopback thread",
        "WASAPI loopback thread stopped before startup",
    )
}

/// Begins the pipeline of a session on this host: the first call of its capture,
/// or what it answers where there is no loopback capture. It then ends at once:
/// no sender is started, the pipe is closed, and the counters stay as they were.
pub fn begin_pipeline(host: Host, pipe: &mut PcmPipe, stats: &mut AudioStats) -> (r: Result<
    LoopbackStage,
    PipelineAction,
>)
    requires
        old(pipe).wf(),
    ensures
        final(pipe).wf(),
        final(pipe).chunks() == old(pipe).chunks(),
        final(stats)@ == old(stats)@,
        match stream_start(host) {
            Ok(stage) => {
                &&& r == Ok::<LoopbackStage, PipelineAction>(stage)
                &&& final(pipe).alive() == old(pipe).alive()
            },
            Err(message) => {
                &&& r matches Err(action)
                &&& action@ == (PipelineActionView::Refuse { message })
                &&& !final(pipe).alive()
            },
        },
{
    match spawn_speaker_loopback_stream(host) {
        Ok(stage) => Ok(stage),
        Err(message) => {
            pipe.close();
            let (_, answer) = spawn_speaker_loopback_udp_pipeline(
                PipelineState::StartingCapture,
                PipelineEvent::CaptureStarted { outcome: Err(message) },
                stats,
            );
            Err(answer)
        },
    }
}

} // verus!
