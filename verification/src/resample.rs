//! Feeding a resampler that takes blocks of a fixed length, and the frame count
//! of linear resampling. Samples are bit patterns in single precision.

use crate::audio_protocol::CHANNELS;
use crate::pcm::consume_prefix;
use vstd::prelude::*;

verus! {

/// What surrounds a resampler: the interleaved stereo samples that it has not
/// taken yet, and what it has made so far of the piece at hand.
pub struct StreamResampler {
    pending: Vec<u32>,
    out: Vec<u32>,
}

pub struct ResamplerView {
    pub pending: Seq<u32>,
    pub out: Seq<u32>,
}

/// What happened to the resampler.
pub enum ResampleEvent {
    /// A piece of audio came in.
    Input { samples: Vec<u32> },
    /// So many frames the resampler takes next.
    BlockFrames { frames: usize },
    /// What it made of the block, none where it failed.
    Resampled { outcome: Option<Vec<u32>> },
}

/// What is to be done.
pub enum ResampleAction {
    /// Ask the resampler how many frames it takes next.
    AskBlockFrames,
    /// Have the resampler work on the block.
    Resample { block: Vec<u32> },
    /// The piece is done.
    Done { pcm: Vec<u32> },
    /// The piece is lost.
    Failed,
}

/// An action, with its samples.
pub enum ResampleActionView {
    AskBlockFrames,
    Resample { block: Seq<u32> },
    Done { pcm: Seq<u32> },
    Failed,
}

impl View for StreamResampler {
    type V = ResamplerView;

    closed spec fn view(&self) -> ResamplerView {
        ResamplerView { pending: self.pending@, out: self.out@ }
    }
}

impl View for ResampleAction {
    type V = ResampleActionView;

    open spec fn view(&self) -> ResampleActionView {
        match self {
            ResampleAction::AskBlockFrames => ResampleActionView::AskBlockFrames,
            ResampleAction::Resample { block } => ResampleActionView::Resample { block: block@ },
            ResampleAction::Done { pcm } => ResampleActionView::Done { pcm: pcm@ },
            ResampleAction::Failed => ResampleActionView::Failed,
        }
    }
}

/// A block is taken once all its frames are there, and a piece is done once the
/// next block is not. Samples that fill no block wait for the next piece. Where
/// the resampler fails, what it made of the piece is lost, and so is the block.
pub open spec fn resample_next(state: ResamplerView, event: ResampleEvent) -> (
    ResamplerView,
    ResampleActionView,
) {
    match event {
        ResampleEvent::Input { samples } => (
            ResamplerView { pending: state.pending + samples@, out: Seq::empty() },
            ResampleActionView::AskBlockFrames,
        ),
        ResampleEvent::BlockFrames { frames } => if 2 * frames <= state.pending.len() {
            (
                ResamplerView { pending: state.pending.skip(2 * frames as int), ..state },
                ResampleActionView::Resample { block: state.pending.take(2 * frames as int) },
            )
        } else {
            (
                ResamplerView { out: Seq::empty(), ..state },
                ResampleActionView::Done { pcm: state.out },
            )
        },
        ResampleEvent::Resampled { outcome: Some(pcm) } => (
            ResamplerView { out: state.out + pcm@, ..state },
            ResampleActionView::AskBlockFrames,
        ),
        ResampleEvent::Resampled { outcome: None } => (
            ResamplerView { out: Seq::empty(), ..state },
            ResampleActionView::Failed,
        ),
    }
}

impl StreamResampler {
    pub fn new() -> (r: StreamResampler)
        ensures
            r@ == (ResamplerView { pending: Seq::empty(), out: Seq::empty() }),
    {
        StreamResampler { pending: Vec::new(), out: Vec::new() }
    }

    /// Takes the resampling of a piece one step on.
    pub fn process(&mut self, event: ResampleEvent) -> (r: ResampleAction)
        ensures
            (final(self)@, r@) == resample_next(old(self)@, event),
    {
        match event {
            ResampleEvent::Input { samples } => {
                let mut samples = samples;
                self.pending.append(&mut samples);
                self.out = Vec::new();
                ResampleAction::AskBlockFrames
            },
            ResampleEvent::BlockFrames { frames } => {
                let len: usize = self.pending.len();
                if frames <= len / CHANNELS {
                    let block: Vec<u32> = self.take_block(frames * CHANNELS);
                    ResampleAction::Resample { block }
                } else {
                    let mut pcm: Vec<u32> = Vec::new();
                    pcm.append(&mut self.out);
                    assert(pcm@ =~= old(self)@.out);
                    ResampleAction::Done { pcm }
                }
            },
            ResampleEvent::Resampled { outcome: Some(pcm) } => {
                let mut pcm = pcm;
                self.out.append(&mut pcm);
                ResampleAction::AskBlockFrames
            },
            ResampleEvent::Resampled { outcome: None } => {
                self.out = Vec::new();
                ResampleAction::Failed
            },
        }
    }

    fn take_block(&mut self, input_samples: usize) -> (r: Vec<u32>)
        requires
            input_samples <= old(self)@.pending.len(),
        ensures
            r@ == old(self)@.pending.take(input_samples as int),
            final(self)@ == (ResamplerView {
                pending: old(self)@.pending.skip(input_samples as int),
                ..old(self)@
            }),
    {
        let mut block: Vec<u32> = Vec::new();
        let mut i: usize = 0;
        while i < input_samples
            invariant
                i <= input_samples <= self.pending@.len(),
                self.pending@ == old(self)@.pending,
                self.out@ == old(self)@.out,
                block@ == self.pending@.take(i as int),
            decreases input_samples - i,
        {
            block.push(self.pending[i]);
            i = i + 1;
            assert(block@ =~= self.pending@.take(i as int));
        }
        consume_prefix(&mut self.pending, input_samples);
        assert(self.pending@ =~= old(self)@.pending.skip(input_samples as int));
        block
    }
}

/// A resampler as far as its surroundings can tell: how many frames it takes
/// next, and what it makes of the last block, both by the blocks it was given.
pub struct ResamplerModel {
    pub frames: spec_fn(Seq<Seq<u32>>) -> usize,
    pub output: spec_fn(Seq<Seq<u32>>) -> Vec<u32>,
}

/// The blocks that a resampler was given, what waits for it, and what comes of a
/// piece, from the first question for the next block to the end of the piece.
pub open spec fn finished(model: ResamplerModel, given: Seq<Seq<u32>>, state: ResamplerView) -> (
    Seq<Seq<u32>>,
    Seq<u32>,
    Seq<u32>,
)
    decreases state.pending.len(),
    when (model.frames)(given) > 0
{
    match resample_next(state, ResampleEvent::BlockFrames { frames: (model.frames)(given) }) {
        (next, ResampleActionView::Resample { block }) => {
            let now = given.push(block);
            let made = ResampleEvent::Resampled { outcome: Some((model.output)(now)) };
            finished(model, now, resample_next(next, made).0)
        },
        (next, ResampleActionView::Done { pcm }) => (given, next.pending, pcm),
        (next, _) => (given, next.pending, Seq::empty()),
    }
}

/// What comes of a whole piece.
pub open spec fn processed(
    model: ResamplerModel,
    given: Seq<Seq<u32>>,
    pending: Seq<u32>,
    piece: Seq<u32>,
) -> (Seq<Seq<u32>>, Seq<u32>, Seq<u32>) {
    finished(model, given, ResamplerView { pending: pending + piece, out: Seq::empty() })
}

/// The resampler takes at least a frame at a time.
pub open spec fn takes_frames(model: ResamplerModel) -> bool {
    forall|given: Seq<Seq<u32>>| #[trigger] (model.frames)(given) > 0
}

proof fn finished_in_two(
    model: ResamplerModel,
    given: Seq<Seq<u32>>,
    pending: Seq<u32>,
    out: Seq<u32>,
    more: Seq<u32>,
)
    requires
        takes_frames(model),
    ensures
        ({
            let (given1, rest1, pcm1) = finished(model, given, ResamplerView { pending, out });
            let (given2, rest2, pcm2) = processed(model, given1, rest1, more);
            finished(model, given, ResamplerView { pending: pending + more, out }) == (
                given2,
                rest2,
                pcm1 + pcm2,
            )
        }),
    decreases pending.len(),
{
    let frames = (model.frames)(given);
    let whole = pending + more;
    if 2 * frames <= pending.len() {
        let block = pending.take(2 * frames as int);
        let now = given.push(block);
        let made = (model.output)(now)@;
        assert(whole.take(2 * frames as int) =~= block);
        assert(whole.skip(2 * frames as int) =~= pending.skip(2 * frames as int) + more);
        finished_in_two(model, now, pending.skip(2 * frames as int), out + made, more);
    } else {
        finished_with_head(model, given, whole, out);
    }
}

proof fn finished_with_head(
    model: ResamplerModel,
    given: Seq<Seq<u32>>,
    pending: Seq<u32>,
    out: Seq<u32>,
)
    requires
        takes_frames(model),
    ensures
        ({
            let plain = finished(model, given, ResamplerView { pending, out: Seq::empty() });
            finished(model, given, ResamplerView { pending, out }) == (
                plain.0,
                plain.1,
                out + plain.2,
            )
        }),
    decreases pending.len(),
{
    let frames = (model.frames)(given);
    if 2 * frames <= pending.len() {
        let now = given.push(pending.take(2 * frames as int));
        let made = (model.output)(now)@;
        let rest = pending.skip(2 * frames as int);
        finished_with_head(model, now, rest, out + made);
        finished_with_head(model, now, rest, Seq::<u32>::empty() + made);
        let plain = finished(model, now, ResamplerView { pending: rest, out: Seq::empty() });
        assert((out + made) + plain.2 =~= out + ((Seq::<u32>::empty() + made) + plain.2));
    } else {
        assert(out + Seq::<u32>::empty() =~= out);
    }
}

/// Audio may be cut anywhere: two pieces, one after the other, give the resampler
/// the same blocks, make the same samples and leave the same rest as both at once.
pub proof fn pieces_make_one_stream(
    model: ResamplerModel,
    given: Seq<Seq<u32>>,
    pending: Seq<u32>,
    first: Seq<u32>,
    second: Seq<u32>,
)
    requires
        takes_frames(model),
    ensures
        ({
            let (given1, rest1, pcm1) = processed(model, given, pending, first);
            let (given2, rest2, pcm2) = processed(model, given1, rest1, second);
            processed(model, given, pending, first + second) == (given2, rest2, pcm1 + pcm2)
        }),
{
    finished_in_two(model, given, pending + first, Seq::empty(), second);
    assert((pending + first) + second =~= pending + (first + second));
}

/// All samples of a row of blocks.
pub open spec fn joined(blocks: Seq<Seq<u32>>) -> Seq<u32>
    decreases blocks.len(),
{
    if blocks.len() == 0 {
        Seq::empty()
    } else {
        joined(blocks.drop_last()) + blocks.last()
    }
}

/// Nothing is dropped, repeated, reordered or made up on the way to the resampler:
/// the blocks it was given, and what waits, are all the samples that came in.
pub proof fn nothing_is_lost(
    model: ResamplerModel,
    given: Seq<Seq<u32>>,
    pending: Seq<u32>,
    out: Seq<u32>,
)
    requires
        takes_frames(model),
    ensures
        ({
            let (blocks, rest, _) = finished(model, given, ResamplerView { pending, out });
            joined(blocks) + rest == joined(given) + pending
        }),
    decreases pending.len(),
{
    let frames = (model.frames)(given);
    if 2 * frames <= pending.len() {
        let block = pending.take(2 * frames as int);
        let now = given.push(block);
        let made = (model.output)(now)@;
        let rest = pending.skip(2 * frames as int);
        nothing_is_lost(model, now, rest, out + made);
        assert(now.drop_last() =~= given);
        assert((joined(given) + block) + rest =~= joined(given) + pending);
    }
}

/// How linear resampling treats a piece of audio.
#[derive(Clone, Copy, PartialEq, Eq, Structural)]
pub enum LinearPlan {
    /// Too short to interpolate: it stays as it is.
    Keep,
    /// Interpolate this many frames.
    Interpolate { target_frames: usize },
}

/// Frames at the target rate that last as long as `source_frames`, rounded down.
pub open spec fn resampled_frames(source_frames: nat, source_rate: u32, target_rate: u32) -> nat
    recommends
        source_rate > 0,
{
    source_frames * (target_rate as nat) / (source_rate as nat)
}

/// What is to be done with `samples` interleaved stereo samples.
pub open spec fn planned(samples: nat, source_rate: u32, target_rate: u32) -> LinearPlan {
    if samples / 2 < 2 {
        LinearPlan::Keep
    } else {
        LinearPlan::Interpolate {
            target_frames: resampled_frames(samples / 2, source_rate, target_rate) as usize,
        }
    }
}

/// Plans the linear resampling of `samples` interleaved stereo samples.
pub fn linear_plan(samples: usize, source_rate: u32, target_rate: u32) -> (r: LinearPlan)
    requires
        samples / 2 >= 2 ==> {
            &&& source_rate > 0
            &&& (samples / 2) * target_rate <= u64::MAX
            &&& resampled_frames((samples / 2) as nat, source_rate, target_rate) <= usize::MAX
        },
    ensures
        r == (if samples / 2 < 2 {
            LinearPlan::Keep
        } else {
            LinearPlan::Interpolate {
                target_frames: resampled_frames(
                    (samples / 2) as nat,
                    source_rate,
                    target_rate,
                ) as usize,
            }
        }),
        r == planned(samples as nat, source_rate, target_rate),
{
    let source_frames: usize = samples / CHANNELS;
    if source_frames < 2 {
        return LinearPlan::Keep;
    }
    let target_frames: u64 = (source_frames as u64 * target_rate as u64) / source_rate as u64;
    LinearPlan::Interpolate { target_frames: target_frames as usize }
}

/// Every planned frame falls on or after a source frame that exists.
pub proof fn interpolation_stays_inside(
    source_frames: nat,
    source_rate: u32,
    target_rate: u32,
    frame: nat,
)
    requires
        source_rate > 0,
        target_rate > 0,
        frame < resampled_frames(source_frames, source_rate, target_rate),
    ensures
        frame * (source_rate as nat) / (target_rate as nat) < source_frames,
{
    let s = source_rate as nat;
    let t = target_rate as nat;
    let n = resampled_frames(source_frames, source_rate, target_rate);
    assert(n * s <= source_frames * t) by (nonlinear_arith)
        requires
            n == source_frames * t / s,
            s > 0,
    ;
    assert(frame * s < source_frames * t) by (nonlinear_arith)
        requires
            n * s <= source_frames * t,
            frame < n,
            s > 0,
    ;
    assert(frame * s / t < source_frames) by (nonlinear_arith)
        requires
            frame * s < source_frames * t,
            t > 0,
    ;
}

} // verus!
