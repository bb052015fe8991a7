//! The periods at which the audio engine of the default render endpoint can run,
//! asked of it one call at a time.

use crate::device::Host;
use vstd::prelude::*;

verus! {

/// Periods of the shared engine in frames, at the rate of its mix format.
#[derive(Clone, Copy, PartialEq, Eq, Structural)]
pub struct AudioEnginePeriod {
    pub sample_rate: u32,
    pub default_frames: u32,
    pub fundamental_frames: u32,
    pub min_frames: u32,
    pub max_frames: u32,
}

/// The call that is due.
#[derive(Clone, Copy, PartialEq, Eq, Structural)]
pub enum EngineStage {
    InitializeCom,
    CreateEnumerator,
    GetEndpoint,
    ActivateClient,
    GetMixFormat,
    GetPeriod { sample_rate: u32 },
    /// The mix format is given back; `period` is missing where the engine did
    /// not tell it.
    FreeMixFormat { period: Option<AudioEnginePeriod> },
}

/// The outcome of a call.
#[derive(Clone, Copy, PartialEq, Eq, Structural)]
pub enum EngineEvent {
    Done,
    Failed,
    MixFormat { sample_rate: u32 },
    Period { default_frames: u32, fundamental_frames: u32, min_frames: u32, max_frames: u32 },
}

/// Why there is no answer.
#[derive(Clone, Copy, PartialEq, Eq, Structural)]
pub enum EnginePeriodError {
    Unsupported,
    InitializeCom,
    CreateEnumerator,
    GetEndpoint,
    ActivateClient,
    GetMixFormat,
    GetPeriod,
}

/// Where an outcome leads.
#[derive(Clone, Copy, PartialEq, Eq, Structural)]
pub enum EngineStep {
    Continue { stage: EngineStage },
    Answered { period: AudioEnginePeriod },
    Refused { error: EnginePeriodError },
}

impl EnginePeriodError {
    pub open spec fn text(self) -> Seq<char> {
        match self {
            EnginePeriodError::Unsupported => "IAudioClient3 engine period query is only supported on Windows"@,
            EnginePeriodError::InitializeCom => "failed to initialize COM"@,
            EnginePeriodError::CreateEnumerator => "failed to create MMDeviceEnumerator"@,
            EnginePeriodError::GetEndpoint => "failed to get default render endpoint"@,
            EnginePeriodError::ActivateClient => "failed to activate IAudioClient3"@,
            EnginePeriodError::GetMixFormat => "failed to get mix format"@,
            EnginePeriodError::GetPeriod => "failed to query shared mode engine period"@,
        }
    }

    pub fn message(&self) -> (r: &'static str)
        ensures
            r@ == self.text(),
    {
        match self {
            EnginePeriodError::Unsupported => "IAudioClient3 engine period query is only supported on Windows",
            EnginePeriodError::InitializeCom => "failed to initialize COM",
            EnginePeriodError::CreateEnumerator => "failed to create MMDeviceEnumerator",
            EnginePeriodError::GetEndpoint => "failed to get default render endpoint",
            EnginePeriodError::ActivateClient => "failed to activate IAudioClient3",
            EnginePeriodError::GetMixFormat => "failed to get mix format",
            EnginePeriodError::GetPeriod => "failed to query shared mode engine period",
        }
    }
}

pub open spec fn proceeds(stage: EngineStage) -> EngineStep {
    EngineStep::Continue { stage }
}

pub open spec fn refused(error: EnginePeriodError) -> EngineStep {
    EngineStep::Refused { error }
}

/// The step after an outcome. One that does not belong to the call changes nothing.
pub open spec fn engine_next(stage: EngineStage, event: EngineEvent) -> EngineStep {
    match (stage, event) {
        (EngineStage::InitializeCom, EngineEvent::Done) => proceeds(EngineStage::CreateEnumerator),
        (EngineStage::InitializeCom, EngineEvent::Failed) => refused(
            EnginePeriodError::InitializeCom,
        ),
        (EngineStage::CreateEnumerator, EngineEvent::Done) => proceeds(EngineStage::GetEndpoint),
        (EngineStage::CreateEnumerator, EngineEvent::Failed) => refused(
            EnginePeriodError::CreateEnumerator,
        ),
        (EngineStage::GetEndpoint, EngineEvent::Done) => proceeds(EngineStage::ActivateClient),
        (EngineStage::GetEndpoint, EngineEvent::Failed) => refused(EnginePeriodError::GetEndpoint),
        (EngineStage::ActivateClient, EngineEvent::Done) => proceeds(EngineStage::GetMixFormat),
        (EngineStage::ActivateClient, EngineEvent::Failed) => refused(
            EnginePeriodError::ActivateClient,
        ),
        (EngineStage::GetMixFormat, EngineEvent::MixFormat { sample_rate }) => proceeds(
            EngineStage::GetPeriod { sample_rate },
        ),
        (EngineStage::GetMixFormat, EngineEvent::Failed) => refused(
            EnginePeriodError::GetMixFormat,
        ),
        (
            EngineStage::GetPeriod { sample_rate },
            EngineEvent::Period { default_frames, fundamental_frames, min_frames, max_frames },
        ) => proceeds(
            EngineStage::FreeMixFormat {
                period: Some(
                    AudioEnginePeriod {
                        sample_rate,
                        default_frames,
                        fundamental_frames,
                        min_frames,
                        max_frames,
                    },
                ),
            },
        ),
        (EngineStage::GetPeriod { .. }, EngineEvent::Failed) => proceeds(
            EngineStage::FreeMixFormat { period: None },
        ),
        (EngineStage::FreeMixFormat { period }, EngineEvent::Done) => match period {
            Some(period) => EngineStep::Answered { period },
            None => refused(EnginePeriodError::GetPeriod),
        },
        _ => proceeds(stage),
    }
}

/// The first call, or why there is none: only Windows has such an engine.
pub fn engine_period_query(host: Host) -> (r: EngineStep)
    ensures
        r == match host {
            Host::Windows => proceeds(EngineStage::InitializeCom),
            Host::Other => refused(EnginePeriodError::Unsupported),
        },
{
    match host {
        Host::Windows => EngineStep::Continue { stage: EngineStage::InitializeCom },
        Host::Other => EngineStep::Refused { error: EnginePeriodError::Unsupported },
    }
}

/// Takes the outcome of the call that was due to the next one, or to the answer.
pub fn query_default_render_engine_period(stage: EngineStage, event: EngineEvent) -> (r: EngineStep)
    ensures
        r == engine_next(stage, event),
{
    let next: EngineStage = match (stage, event) {
        (EngineStage::InitializeCom, EngineEvent::Done) => EngineStage::CreateEnumerator,
        (EngineStage::CreateEnumerator, EngineEvent::Done) => EngineStage::GetEndpoint,
        (EngineStage::GetEndpoint, EngineEvent::Done) => EngineStage::ActivateClient,
        (EngineStage::ActivateClient, EngineEvent::Done) => EngineStage::GetMixFormat,
        (EngineStage::GetMixFormat, EngineEvent::MixFormat { sample_rate }) => {
            EngineStage::GetPeriod { sample_rate }
        },
        (
            EngineStage::GetPeriod { sample_rate },
            EngineEvent::Period { default_frames, fundamental_frames, min_frames, max_frames },
        ) => EngineStage::FreeMixFormat {
            period: Some(
                AudioEnginePeriod {
                    sample_rate,
                    default_frames,
                    fundamental_frames,
                    min_frames,
                    max_frames,
                },
            ),
        },
        (EngineStage::GetPeriod { .. }, EngineEvent::Failed) => EngineStage::FreeMixFormat {
            period: None,
        },
        (EngineStage::FreeMixFormat { period: Some(period) }, EngineEvent::Done) => {
            return EngineStep::Answered { period };
        },
        (EngineStage::FreeMixFormat { period: None }, EngineEvent::Done) => {
            return refuse(EnginePeriodError::GetPeriod);
        },
        (EngineStage::InitializeCom, EngineEvent::Failed) => {
            return refuse(EnginePeriodError::InitializeCom);
        },
        (EngineStage::CreateEnumerator, EngineEvent::Failed) => {
            return refuse(EnginePeriodError::CreateEnumerator);
        },
        (EngineStage::GetEndpoint, EngineEvent::Failed) => {
            return refuse(EnginePeriodError::GetEndpoint);
        },
        (EngineStage::ActivateClient, EngineEvent::Failed) => {
            return refuse(EnginePeriodError::ActivateClient);
        },
        (EngineStage::GetMixFormat, EngineEvent::Failed) => {
            return refuse(EnginePeriodError::GetMixFormat);
        },
        _ => stage,
    };
    EngineStep::Continue { stage: next }
}

fn refuse(error: EnginePeriodError) -> (r: EngineStep)
    ensures
        r == refused(error),
{
    EngineStep::Refused { error }
}

/// The stages at which a mix format is held.
pub open spec fn holds_mix_format(stage: EngineStage) -> bool {
    stage is GetPeriod || stage is FreeMixFormat
}

/// Once the mix format was handed out, the answer, good or bad, comes only after
/// it was given back, and it is given back once.
pub proof fn mix_format_is_given_back(stage: EngineStage, event: EngineEvent)
    requires
        holds_mix_format(stage),
    ensures
        match engine_next(stage, event) {
            EngineStep::Continue { stage: next } => holds_mix_format(next) && (stage
                is FreeMixFormat ==> next == stage),
            EngineStep::Answered { .. }
            | EngineStep::Refused { .. } => stage is FreeMixFormat && event is Done,
        },
{
}

/// The answer of an endpoint that tells everything it is asked.
pub proof fn answer_is_what_was_told(
    sample_rate: u32,
    default_frames: u32,
    fundamental_frames: u32,
    min_frames: u32,
    max_frames: u32,
)
    ensures
        ({
            let told = engine_next(
                EngineStage::GetPeriod { sample_rate },
                EngineEvent::Period { default_frames, fundamental_frames, min_frames, max_frames },
            );
            &&& told matches EngineStep::Continue { stage }
            &&& engine_next(stage, EngineEvent::Done) == (EngineStep::Answered {
                period: AudioEnginePeriod {
                    sample_rate,
                    default_frames,
                    fundamental_frames,
                    min_frames,
                    max_frames,
                },
            })
        }),
{
}

} // verus!
