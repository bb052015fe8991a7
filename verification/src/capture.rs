//! From the bytes that the render endpoint delivers to stereo audio.

use crate::audio_protocol::{CHANNELS, SAMPLE_RATE};
use crate::audio_stats::{clear_epoch, record_wasapi_trigger_gap, AudioStats, StatsView};
use crate::pcm::{
    bytes_hold, i16_samples, read_i16, read_i16_samples, read_i24, read_i32, sample_at,
    sample_is_in_its_bytes,
};
use crate::pcm_pipe::{
    latest, push_latest_pcm, AudioChunk, ChunkView, PcmPipe, PCM_QUEUE_CAPACITY,
};
use crate::sender::elapsed;
use crate::wave_format::WasapiSampleFormat;
use vstd::prelude::*;

verus! {

/// At least one channel.
pub open spec fn channel_count(source_channels: nat) -> nat {
    if source_channels == 0 {
        1
    } else {
        source_channels
    }
}

/// Stereo out of any number of channels: the first two of each whole frame, a
/// single channel on both sides. Each sample is the signed number that its
/// bytes hold; in single precision that is its bit pattern.
pub open spec fn downmixed(
    input: Seq<u8>,
    source_channels: nat,
    format: WasapiSampleFormat,
) -> Seq<int> {
    let channels = channel_count(source_channels);
    let frame_size = channels * format.size();
    Seq::new(
        2 * (input.len() / frame_size),
        |i: int|
            if i % 2 == 1 && channels > 1 {
                sample_at(input, (i / 2) * frame_size + format.size(), format.size())
            } else {
                sample_at(input, (i / 2) * frame_size, format.size())
            },
    )
}

/// Stereo audio: two channels as they are, sample by sample; others downmixed.
pub open spec fn stereo(
    input: Seq<u8>,
    source_channels: nat,
    format: WasapiSampleFormat,
) -> Seq<int> {
    if source_channels == CHANNELS {
        Seq::new(
            input.len() / format.size(),
            |i: int| sample_at(input, i * format.size(), format.size()),
        )
    } else {
        downmixed(input, source_channels, format)
    }
}

/// How many bytes a sample takes.
pub open spec fn bytes_per_sample(format: WasapiSampleFormat) -> int {
    match format {
        WasapiSampleFormat::F32 => 4,
        WasapiSampleFormat::I16 => 2,
        WasapiSampleFormat::I24 => 3,
        WasapiSampleFormat::I32 => 4,
    }
}

/// Of two channels every whole sample is kept, in order. Of any other number of
/// channels every whole frame gives exactly two samples: that of its first
/// channel, and that of its second or, where it has one channel only, the first
/// again.
pub proof fn stereo_has_two_samples_a_frame(
    input: Seq<u8>,
    source_channels: nat,
    format: WasapiSampleFormat,
)
    ensures
        source_channels == 2 ==> {
            let size = bytes_per_sample(format);
            let out = stereo(input, source_channels, format);
            &&& out.len() == input.len() as int / size
            &&& forall|i: int|
                0 <= i < out.len() ==> bytes_hold(input, i * size, size, #[trigger] out[i])
        },
        source_channels != 2 ==> {
            let size = bytes_per_sample(format);
            let channels: int = if source_channels <= 1 {
                1
            } else {
                source_channels as int
            };
            let out = stereo(input, source_channels, format);
            &&& out.len() == 2 * (input.len() as int / (channels * size))
            &&& forall|i: int|
                0 <= i < out.len() ==> bytes_hold(
                    input,
                    if i % 2 == 1 && channels >= 2 {
                        (i / 2) * (channels * size) + size
                    } else {
                        (i / 2) * (channels * size)
                    },
                    size,
                    #[trigger] out[i],
                )
        },
{
    let size = bytes_per_sample(format);
    let out = stereo(input, source_channels, format);
    let len = input.len() as int;
    assert(size == format.size());
    if source_channels == 2 {
        assert forall|i: int| 0 <= i < out.len() implies bytes_hold(
            input,
            i * size,
            size,
            #[trigger] out[i],
        ) by {
            assert(0 <= i * size && i * size + size <= len) by (nonlinear_arith)
                requires
                    0 <= i < len / size,
                    size > 0,
            ;
            sample_is_in_its_bytes(input, i * size, size as nat);
        }
    } else {
        let channels: int = if source_channels <= 1 {
            1
        } else {
            source_channels as int
        };
        let frame_size = channels * size;
        assert(frame_size >= size) by (nonlinear_arith)
            requires
                channels >= 1,
                size > 0,
                frame_size == channels * size,
        ;
        assert forall|i: int| 0 <= i < out.len() implies bytes_hold(
            input,
            if i % 2 == 1 && channels >= 2 {
                (i / 2) * (channels * size) + size
            } else {
                (i / 2) * (channels * size)
            },
            size,
            #[trigger] out[i],
        ) by {
            let f = i / 2;
            assert(0 <= f * frame_size && f * frame_size + frame_size <= len) by (nonlinear_arith)
                requires
                    0 <= f < len / frame_size,
                    frame_size > 0,
            ;
            if i % 2 == 1 && channels >= 2 {
                assert(frame_size >= 2 * size) by (nonlinear_arith)
                    requires
                        channels >= 2,
                        size > 0,
                        frame_size == channels * size,
                ;
                sample_is_in_its_bytes(input, f * frame_size + size, size as nat);
            } else {
                sample_is_in_its_bytes(input, f * frame_size, size as nat);
            }
        }
    }
}

/// The samples as integers.
pub open spec fn ints(samples: Seq<i32>) -> Seq<int> {
    samples.map_values(|sample: i32| sample as int)
}

fn read_sample(input: &[u8], at: usize, format: WasapiSampleFormat) -> (r: i32)
    requires
        at + format.size() <= input@.len(),
    ensures
        r == sample_at(input@, at as int, format.size()),
{
    let size: usize = format.sample_size();
    let len: usize = input.len();
    assert(at + size <= len);
    let bytes: &[u8] = vstd::slice::slice_subrange(input, at, at + size);
    assert(bytes@.subrange(0, size as int) =~= input@.subrange(at as int, at + size));
    match format {
        WasapiSampleFormat::F32 => read_i32(bytes),
        WasapiSampleFormat::I16 => read_i16(bytes) as i32,
        WasapiSampleFormat::I24 => read_i24(bytes),
        WasapiSampleFormat::I32 => read_i32(bytes),
    }
}

/// Stereo samples out of `input`, interleaved.
pub fn to_stereo(input: &[u8], source_channels: usize, format: WasapiSampleFormat) -> (r: Vec<i32>)
    requires
        source_channels * format.size() <= usize::MAX,
    ensures
        ints(r@) == stereo(input@, source_channels as nat, format),
        source_channels == 2 ==> {
            let size = bytes_per_sample(format);
            &&& r@.len() == input@.len() as int / size
            &&& forall|i: int|
                0 <= i < r@.len() ==> bytes_hold(input@, i * size, size, #[trigger] r@[i] as int)
        },
        source_channels != 2 ==> {
            let size = bytes_per_sample(format);
            let channels: int = if source_channels <= 1 {
                1
            } else {
                source_channels as int
            };
            &&& r@.len() == 2 * (input@.len() as int / (channels * size))
            &&& forall|i: int|
                0 <= i < r@.len() ==> bytes_hold(
                    input@,
                    if i % 2 == 1 && channels >= 2 {
                        (i / 2) * (channels * size) + size
                    } else {
                        (i / 2) * (channels * size)
                    },
                    size,
                    #[trigger] r@[i] as int,
                )
        },
{
    proof {
        stereo_has_two_samples_a_frame(input@, source_channels as nat, format);
        assert forall|v: Seq<i32>, i: int| 0 <= i < v.len() implies #[trigger] v[i] as int == ints(
            v,
        )[i] by {}
    }
    let size: usize = format.sample_size();
    let len: usize = input.len();
    let mut out: Vec<i32> = Vec::new();
    if source_channels == CHANNELS {
        let mut at: usize = 0;
        let mut i: usize = 0;
        let ghost whole = stereo(input@, source_channels as nat, format);
        assert(0 * size == 0) by (nonlinear_arith);
        while len - at >= size
            invariant
                size == format.size(),
                2 <= size <= 4,
                len == input@.len(),
                at <= len,
                at == i * size,
                source_channels == CHANNELS,
                whole == stereo(input@, source_channels as nat, format),
                out@.len() == i,
                i <= len,
                forall|j: int| 0 <= j < i ==> out@[j] == sample_at(input@, j * size, size as nat),
            decreases len - at,
        {
            out.push(read_sample(input, at, format));
            assert((i + 1) * size == i * size + size) by (nonlinear_arith);
            assert(i + 1 <= (i + 1) * size) by (nonlinear_arith)
                requires
                    size >= 1,
                    i >= 0,
            ;
            at = at + size;
            i = i + 1;
        }
        assert(len / size == i) by (nonlinear_arith)
            requires
                i * size <= len < i * size + size,
                size > 0,
        ;
        assert(ints(out@) =~= whole);
        return out;
    }
    let channels: usize = if source_channels == 0 {
        1
    } else {
        source_channels
    };
    assert(1 * size == size) by (nonlinear_arith);
    assert(channels * size >= size) by (nonlinear_arith)
        requires
            channels >= 1,
            size >= 0,
    ;
    let frame_size: usize = channels * size;
    let mut at: usize = 0;
    let mut frames: usize = 0;
    let ghost whole = downmixed(input@, source_channels as nat, format);
    assert(0 * frame_size == 0) by (nonlinear_arith);
    while len - at >= frame_size
        invariant
            size == format.size(),
            2 <= size <= 4,
            channels == channel_count(source_channels as nat),
            channels >= 1,
            frame_size == channels * size,
            frame_size >= size,
            len == input@.len(),
            at <= len,
            at == frames * frame_size,
            frames <= len,
            out@.len() == 2 * frames,
            forall|j: int|
                0 <= j < 2 * frames ==> out@[j] == (if j % 2 == 1 && channels > 1 {
                    sample_at(input@, (j / 2) * frame_size + size, size as nat)
                } else {
                    sample_at(input@, (j / 2) * frame_size, size as nat)
                }),
        decreases len - at,
    {
        let left: i32 = read_sample(input, at, format);
        let right: i32 = if channels > 1 {
            assert(channels * size >= 2 * size) by (nonlinear_arith)
                requires
                    channels >= 2,
                    size >= 0,
            ;
            read_sample(input, at + size, format)
        } else {
            left
        };
        out.push(left);
        out.push(right);
        assert((frames + 1) * frame_size == frames * frame_size + frame_size) by (nonlinear_arith);
        assert(frames + 1 <= (frames + 1) * frame_size) by (nonlinear_arith)
            requires
                frame_size >= 1,
                frames >= 0,
        ;
        at = at + frame_size;
        frames = frames + 1;
    }
    assert(len / frame_size == frames) by (nonlinear_arith)
        requires
            frames * frame_size <= len < frames * frame_size + frame_size,
            frame_size > 0,
    ;
    assert(ints(out@) =~= whole);
    out
}

/// Turns what the endpoint delivers into chunks for the sender, and keeps the
/// time between deliveries. Times are in nanoseconds on a clock that never goes back.
#[derive(Clone, Copy, PartialEq, Eq, Structural)]
pub struct CaptureProcessor {
    pub source_rate: u32,
    pub source_channels: usize,
    pub has_resampler: bool,
    pub last_trigger: Option<u64>,
    pub seen_clear_epoch: u64,
}

/// What becomes of a delivery.
pub enum CaptureStep {
    /// Nothing was delivered.
    Nothing,
    /// It needed no conversion and is in the pipe.
    Pushed,
    /// Stereo samples in `format`, to be converted to single precision and sent
    /// on by the route of the processor.
    Convert { samples: Vec<i32>, format: WasapiSampleFormat },
}

/// How converted stereo audio reaches the rate of the network.
#[derive(Clone, Copy, PartialEq, Eq, Structural)]
pub enum StereoRoute {
    /// It has that rate.
    Direct,
    /// Through the resampler, and by interpolation where that fails.
    Resampler,
    /// By interpolation.
    Linear,
}

/// What happened to converted stereo audio, interleaved samples in single precision.
pub enum StereoEvent {
    Converted { stereo: Vec<u32> },
    /// What the resampler made of it, none where it failed.
    Resampled { stereo: Vec<u32>, outcome: Option<Vec<u32>> },
    Interpolated { pcm: Vec<u32> },
}

/// What is to be done with it.
pub enum StereoStep {
    /// It is in the pipe.
    Done,
    Resample { stereo: Vec<u32> },
    Interpolate { stereo: Vec<u32>, source_rate: u32, target_rate: u32 },
}

/// The processor and the counters after a delivery at `now_ns`. The gap since
/// the last one counts, except across a clearing of the counters.
pub open spec fn triggered(
    processor: CaptureProcessor,
    stats: StatsView,
    now_ns: u64,
) -> (CaptureProcessor, StatsView) {
    (
        CaptureProcessor {
            last_trigger: Some(now_ns),
            seen_clear_epoch: stats.clear_epoch,
            ..processor
        },
        match processor.last_trigger {
            Some(last) if processor.seen_clear_epoch == stats.clear_epoch => stats.with_trigger_gap(
                elapsed(now_ns, last) / 1000,
            ),
            _ => stats,
        },
    )
}

/// Whether audio at this rate has to be resampled.
pub fn needs_resampler(source_rate: u32) -> (r: bool)
    ensures
        r == (source_rate != SAMPLE_RATE),
{
    source_rate != SAMPLE_RATE
}

impl CaptureProcessor {
    /// The endpoint delivers what the network takes.
    pub open spec fn matches_network(self) -> bool {
        self.source_rate == SAMPLE_RATE && self.source_channels == CHANNELS
    }

    pub open spec fn stereo_route(self) -> StereoRoute {
        if self.source_rate == SAMPLE_RATE {
            StereoRoute::Direct
        } else if self.has_resampler {
            StereoRoute::Resampler
        } else {
            StereoRoute::Linear
        }
    }

    /// A processor before the first delivery. `resampler_ready` says whether a
    /// resampler for this rate could be made.
    pub fn new(
        source_rate: u32,
        source_channels: usize,
        resampler_ready: bool,
        stats: &AudioStats,
    ) -> (r: CaptureProcessor)
        ensures
            r == (CaptureProcessor {
                source_rate,
                source_channels,
                has_resampler: source_rate != SAMPLE_RATE && resampler_ready,
                last_trigger: None,
                seen_clear_epoch: stats@.clear_epoch,
            }),
    {
        CaptureProcessor {
            source_rate,
            source_channels,
            has_resampler: needs_resampler(source_rate) && resampler_ready,
            last_trigger: None,
            seen_clear_epoch: clear_epoch(stats),
        }
    }

    /// Notes a delivery.
    pub fn record_trigger(&mut self, now_ns: u64, stats: &mut AudioStats)
        ensures
            (*final(self), final(stats)@) == triggered(*old(self), old(stats)@, now_ns),
    {
        let epoch: u64 = clear_epoch(stats);
        if self.seen_clear_epoch != epoch {
            self.seen_clear_epoch = epoch;
            self.last_trigger = Some(now_ns);
            return ;
        }
        if let Some(last) = self.last_trigger {
            record_wasapi_trigger_gap(stats, now_ns.saturating_sub(last) / 1000);
        }
        self.last_trigger = Some(now_ns);
    }

    /// Takes the bytes of a delivery. 16-bit stereo at the rate of the network
    /// goes on as it is; everything else is to be converted.
    pub fn send_wasapi_bytes(
        &mut self,
        input: &[u8],
        format: WasapiSampleFormat,
        now_ns: u64,
        stats: &mut AudioStats,
        pipe: &mut PcmPipe,
    ) -> (r: CaptureStep)
        requires
            old(pipe).wf(),
            input@.len() > 0 ==> old(self).source_channels * format.size() <= usize::MAX,
        ensures
            final(pipe).wf(),
            final(pipe).alive() == old(pipe).alive(),
            input@.len() == 0 ==> {
                &&& r is Nothing
                &&& *final(self) == *old(self)
                &&& final(stats)@ == old(stats)@
                &&& final(pipe).chunks() == old(pipe).chunks()
            },
            input@.len() > 0 ==> {
                &&& (*final(self), final(stats)@) == triggered(*old(self), old(stats)@, now_ns)
                &&& if format is I16 && old(self).matches_network() {
                    &&& r is Pushed
                    &&& final(pipe).contents() == latest(
                        old(pipe).contents().push(ChunkView::I16(i16_samples(input@))),
                        PCM_QUEUE_CAPACITY as nat,
                    )
                } else {
                    &&& final(pipe).chunks() == old(pipe).chunks()
                    &&& r matches CaptureStep::Convert { samples, format: kept }
                    &&& kept == format
                    &&& ints(samples@) == stereo(input@, old(self).source_channels as nat, format)
                }
            },
    {
        if input.is_empty() {
            return CaptureStep::Nothing;
        }
        self.record_trigger(now_ns, stats);
        match format {
            WasapiSampleFormat::I16 => if self.source_rate == SAMPLE_RATE && self.source_channels
                == CHANNELS {
                push_latest_pcm(pipe, AudioChunk::I16(read_i16_samples(input)));
                assert(pipe.contents() =~= latest(
                    old(pipe).contents().push(ChunkView::I16(i16_samples(input@))),
                    PCM_QUEUE_CAPACITY as nat,
                ));
                return CaptureStep::Pushed;
            },
            _ => {},
        }
        CaptureStep::Convert { samples: to_stereo(input, self.source_channels, format), format }
    }

    /// Takes a delivery of `frames` silent frames: zeros, in the shape that
    /// audible ones would have.
    pub fn send_silence(
        &mut self,
        frames: usize,
        now_ns: u64,
        stats: &mut AudioStats,
        pipe: &mut PcmPipe,
    ) -> (r: CaptureStep)
        requires
            old(pipe).wf(),
            2 * frames <= usize::MAX,
        ensures
            final(pipe).wf(),
            final(pipe).alive() == old(pipe).alive(),
            frames == 0 ==> {
                &&& r is Nothing
                &&& *final(self) == *old(self)
                &&& final(stats)@ == old(stats)@
                &&& final(pipe).chunks() == old(pipe).chunks()
            },
            frames > 0 ==> {
                &&& (*final(self), final(stats)@) == triggered(*old(self), old(stats)@, now_ns)
                &&& if old(self).matches_network() {
                    &&& r is Pushed
                    &&& final(pipe).contents() == latest(
                        old(pipe).contents().push(
                            ChunkView::I16(Seq::new(2 * frames as nat, |i: int| 0i16)),
                        ),
                        PCM_QUEUE_CAPACITY as nat,
                    )
                } else {
                    &&& final(pipe).chunks() == old(pipe).chunks()
                    &&& r matches CaptureStep::Convert { samples, format }
                    &&& format is F32
                    &&& samples@ == Seq::new(2 * frames as nat, |i: int| 0i32)
                }
            },
    {
        if frames == 0 {
            return CaptureStep::Nothing;
        }
        self.record_trigger(now_ns, stats);
        if self.source_rate == SAMPLE_RATE && self.source_channels == CHANNELS {
            let samples: Vec<i16> = vec![0i16; frames * CHANNELS];
            assert(samples@ =~= Seq::new(2 * frames as nat, |i: int| 0i16));
            let ghost silence = Seq::new(2 * frames as nat, |i: int| 0i16);
            push_latest_pcm(pipe, AudioChunk::I16(samples));
            assert(pipe.contents() =~= latest(
                old(pipe).contents().push(ChunkView::I16(silence)),
                PCM_QUEUE_CAPACITY as nat,
            ));
            return CaptureStep::Pushed;
        }
        let samples: Vec<i32> = vec![0i32; frames * CHANNELS];
        assert(samples@ =~= Seq::new(2 * frames as nat, |i: int| 0i32));
        CaptureStep::Convert { samples, format: WasapiSampleFormat::F32 }
    }

    /// The chunk that goes into the pipe, and what is then to be done.
    pub open spec fn stereo_next(self, event: StereoEvent) -> (Option<AudioChunk>, StereoStep) {
        match event {
            StereoEvent::Converted { stereo } => match self.stereo_route() {
                StereoRoute::Direct => (Some(AudioChunk::F32(stereo)), StereoStep::Done),
                StereoRoute::Resampler => (None, StereoStep::Resample { stereo }),
                StereoRoute::Linear => (None, self.interpolation(stereo)),
            },
            StereoEvent::Resampled { stereo, outcome } => match outcome {
                Some(pcm) => (Some(AudioChunk::F32(pcm)), StereoStep::Done),
                None => (None, self.interpolation(stereo)),
            },
            StereoEvent::Interpolated { pcm } => (Some(AudioChunk::F32(pcm)), StereoStep::Done),
        }
    }

    /// From the rate of the endpoint to that of the network.
    pub open spec fn interpolation(self, stereo: Vec<u32>) -> StereoStep {
        StereoStep::Interpolate {
            stereo,
            source_rate: self.source_rate,
            target_rate: SAMPLE_RATE,
        }
    }

    /// Takes converted stereo audio one step on, into the pipe where it has the
    /// rate of the network.
    pub fn send_stereo(&self, event: StereoEvent, pipe: &mut PcmPipe) -> (r: StereoStep)
        requires
            old(pipe).wf(),
        ensures
            r == self.stereo_next(event).1,
            final(pipe).wf(),
            final(pipe).alive() == old(pipe).alive(),
            final(pipe).chunks() == match self.stereo_next(event).0 {
                Some(chunk) => latest(old(pipe).chunks().push(chunk), PCM_QUEUE_CAPACITY as nat),
                None => old(pipe).chunks(),
            },
    {
        let stereo: Vec<u32> = match event {
            StereoEvent::Converted { stereo } => {
                if self.source_rate == SAMPLE_RATE {
                    push_latest_pcm(pipe, AudioChunk::F32(stereo));
                    return StereoStep::Done;
                }
                if self.has_resampler {
                    return StereoStep::Resample { stereo };
                }
                stereo
            },
            StereoEvent::Resampled { stereo, outcome } => match outcome {
                Some(pcm) => {
                    push_latest_pcm(pipe, AudioChunk::F32(pcm));
                    return StereoStep::Done;
                },
                None => stereo,
            },
            StereoEvent::Interpolated { pcm } => {
                push_latest_pcm(pipe, AudioChunk::F32(pcm));
                return StereoStep::Done;
            },
        };
        StereoStep::Interpolate {
            stereo,
            source_rate: self.source_rate,
            target_rate: SAMPLE_RATE,
        }
    }
}

/// Steps that lie before the end of the conversion.
pub open spec fn stereo_steps_left(event: StereoEvent) -> nat {
    match event {
        StereoEvent::Converted { .. } => 2,
        StereoEvent::Resampled { .. } => 1,
        StereoEvent::Interpolated { .. } => 0,
    }
}

/// The chunks that go into the pipe from an event on, where the resampler, asked,
/// has this outcome, and interpolation, asked, makes these samples.
pub open spec fn sent_on(
    processor: CaptureProcessor,
    event: StereoEvent,
    outcome: Option<Vec<u32>>,
    interpolated: Vec<u32>,
) -> Seq<AudioChunk>
    decreases stereo_steps_left(event),
{
    let (chunk, step) = processor.stereo_next(event);
    let rest = match (step, event) {
        (StereoStep::Resample { stereo }, StereoEvent::Converted { .. }) => sent_on(
            processor,
            StereoEvent::Resampled { stereo, outcome },
            outcome,
            interpolated,
        ),
        (
            StereoStep::Interpolate { .. },
            StereoEvent::Converted { .. } | StereoEvent::Resampled { .. },
        ) => sent_on(
            processor,
            StereoEvent::Interpolated { pcm: interpolated },
            outcome,
            interpolated,
        ),
        _ => Seq::empty(),
    };
    match chunk {
        Some(chunk) => seq![chunk] + rest,
        None => rest,
    }
}

/// Converted stereo audio becomes exactly one chunk: itself at the rate of the
/// network, else what the resampler made of it, else, where there is no resampler
/// or it failed, what interpolation did.
pub proof fn one_chunk_per_delivery(
    processor: CaptureProcessor,
    stereo: Vec<u32>,
    outcome: Option<Vec<u32>>,
    interpolated: Vec<u32>,
)
    ensures
        sent_on(processor, StereoEvent::Converted { stereo }, outcome, interpolated) == seq![
            AudioChunk::F32(
                if processor.source_rate == SAMPLE_RATE {
                    stereo
                } else if processor.has_resampler && outcome is Some {
                    outcome->0
                } else {
                    interpolated
                },
            ),
        ],
{
    reveal_with_fuel(sent_on, 4);
    assert(sent_on(processor, StereoEvent::Converted { stereo }, outcome, interpolated) =~= seq![
        AudioChunk::F32(
            if processor.source_rate == SAMPLE_RATE {
                stereo
            } else if processor.has_resampler && outcome is Some {
                outcome->0
            } else {
                interpolated
            },
        ),
    ]);
}

/// Two channels that come in whole frames are kept as they are by either rule.
pub proof fn two_channels_stay(input: Seq<u8>, format: WasapiSampleFormat)
    requires
        input.len() % (2 * format.size()) == 0,
    ensures
        stereo(input, 2, format) == downmixed(input, 2, format),
{
    let size = format.size();
    let a = stereo(input, 2, format);
    let b = downmixed(input, 2, format);
    let frames = input.len() / (2 * size);
    assert(input.len() == frames * (2 * size)) by (nonlinear_arith)
        requires
            frames == input.len() / (2 * size),
            input.len() % (2 * size) == 0,
            size > 0,
    ;
    assert(input.len() / size == 2 * frames) by (nonlinear_arith)
        requires
            input.len() == frames * (2 * size),
            size > 0,
    ;
    assert forall|i: int| 0 <= i < a.len() implies a[i] == b[i] by {
        let j = i / 2;
        if i % 2 == 1 {
            assert(i * size == j * (2 * size) + size) by (nonlinear_arith)
                requires
                    i == 2 * j + 1,
            ;
        } else {
            assert(i * size == j * (2 * size)) by (nonlinear_arith)
                requires
                    i == 2 * j,
            ;
        }
    }
    assert(a =~= b);
}

/// A single channel is heard on both sides, and of more than two only the first
/// two are heard.
pub proof fn sides_of_a_frame(
    input: Seq<u8>,
    source_channels: nat,
    format: WasapiSampleFormat,
    frame: nat,
)
    requires
        frame < input.len() / (channel_count(source_channels) * format.size()),
    ensures
        ({
            let out = downmixed(input, source_channels, format);
            let at = (frame * (channel_count(source_channels) * format.size())) as int;
            &&& 2 * frame + 1 < out.len()
            &&& out[2 * frame as int] == sample_at(input, at, format.size())
            &&& out[2 * frame as int + 1] == (if source_channels >= 2 {
                sample_at(input, at + format.size(), format.size())
            } else {
                out[2 * frame as int]
            })
        }),
{
    assert((2 * frame) / 2 == frame && (2 * frame + 1) / 2 == frame);
}

/// A delivery that follows a clearing of the counters finds them clear and leaves
/// them so; the gap after it counts again.
pub proof fn clearing_hides_one_gap(
    processor: CaptureProcessor,
    stats: StatsView,
    first_ns: u64,
    second_ns: u64,
)
    requires
        processor.seen_clear_epoch == stats.clear_epoch,
    ensures
        ({
            let cleared = StatsView {
                clear_epoch: stats.clear_epoch.wrapping_add(1),
                ..stats.zeroed()
            };
            let (after, kept) = triggered(processor, cleared, first_ns);
            &&& kept == cleared
            &&& triggered(after, kept, second_ns).1 == kept.with_trigger_gap(
                elapsed(second_ns, first_ns) / 1000,
            )
        }),
{
}

} // verus!
