//! What becomes of a delivery on its way to the network, and how deliveries are timed.

use crate::audio_stats::StatsView;
use crate::capture::{ints, triggered, CaptureProcessor, StereoEvent, StereoStep};
use crate::device::Host;
use crate::pcm_pipe::{AudioChunk, ChunkView};
use crate::resample::{
    finished, planned, resample_next, resampled_frames, takes_frames, LinearPlan,
    ResampleActionView, ResampleEvent, ResamplerModel, ResamplerView,
};
use crate::text::{decimal, hex};
use crate::text_laws::hex_is_written_digit_by_digit;
use crate::wave_format::{
    guid_text, sample_format, sub_format_text, FormatError, WasapiSampleFormat, WaveFormat,
};
use vstd::arithmetic::div_mod::lemma_div_denominator;
use vstd::arithmetic::power::{lemma_pow0, lemma_pow_adds, lemma_pow_positive, pow};
use vstd::prelude::*;

verus! {

/// Audio is passed on unconverted only where it is stereo at 48 kHz, and it is
/// resampled exactly where its rate is another.
pub proof fn only_stereo_at_48_khz_is_passed_on(processor: CaptureProcessor)
    ensures
        processor.matches_network() <==> processor.source_rate == 48_000
            && processor.source_channels == 2,
        processor.stereo_route() is Direct <==> processor.source_rate == 48_000,
        processor.stereo_route() is Resampler <==> processor.source_rate != 48_000
            && processor.has_resampler,
        processor.stereo_route() is Linear <==> processor.source_rate != 48_000
            && !processor.has_resampler,
{
}

/// The samples that go into the pipe are those that were handed on, untouched; where
/// they are to be interpolated, that is from the rate of the endpoint to 48 kHz.
pub proof fn stereo_is_handed_on_untouched(
    processor: CaptureProcessor,
    stereo: Vec<u32>,
    pcm: Vec<u32>,
)
    ensures
        processor.source_rate == 48_000 ==> processor.stereo_next(StereoEvent::Converted { stereo })
            == (Some(AudioChunk::F32(stereo)), StereoStep::Done),
        processor.source_rate != 48_000 && processor.has_resampler ==> processor.stereo_next(
            StereoEvent::Converted { stereo },
        ) == (None::<AudioChunk>, StereoStep::Resample { stereo }),
        processor.source_rate != 48_000 && !processor.has_resampler ==> processor.stereo_next(
            StereoEvent::Converted { stereo },
        ) == (
            None::<AudioChunk>,
            StereoStep::Interpolate {
                stereo,
                source_rate: processor.source_rate,
                target_rate: 48_000,
            },
        ),
        processor.stereo_next(StereoEvent::Resampled { stereo, outcome: Some(pcm) }) == (
            Some(AudioChunk::F32(pcm)),
            StereoStep::Done,
        ),
        processor.stereo_next(StereoEvent::Resampled { stereo, outcome: None }) == (
            None::<AudioChunk>,
            StereoStep::Interpolate {
                stereo,
                source_rate: processor.source_rate,
                target_rate: 48_000,
            },
        ),
        processor.stereo_next(StereoEvent::Interpolated { pcm }) == (
            Some(AudioChunk::F32(pcm)),
            StereoStep::Done,
        ),
{
}

/// A chunk is seen as the samples it holds, and samples as the numbers they are.
pub proof fn samples_are_seen_as_they_are(
    integers: Vec<i16>,
    floats: Vec<u32>,
    samples: Seq<i32>,
    i: int,
)
    ensures
        AudioChunk::I16(integers)@ == ChunkView::I16(integers@),
        AudioChunk::F32(floats)@ == ChunkView::F32(floats@),
        ints(samples).len() == samples.len(),
        0 <= i < samples.len() ==> ints(samples)[i] == samples[i],
{
}

/// The gap between two deliveries is their distance in whole microseconds. The first
/// delivery has none, nor has the first after the counters were cleared; the processor
/// keeps its route, and always the time of the last delivery.
pub proof fn deliveries_are_timed(
    processor: CaptureProcessor,
    stats: StatsView,
    now_ns: u64,
    last: u64,
)
    ensures
        ({
            let (next, counted) = triggered(processor, stats, now_ns);
            &&& next.last_trigger == Some(now_ns)
            &&& next.seen_clear_epoch == stats.clear_epoch
            &&& next.source_rate == processor.source_rate
            &&& next.source_channels == processor.source_channels
            &&& next.has_resampler == processor.has_resampler
            &&& processor.last_trigger is None || processor.seen_clear_epoch != stats.clear_epoch
                ==> counted == stats
            &&& processor.last_trigger == Some(last) && processor.seen_clear_epoch
                == stats.clear_epoch ==> {
                let gap_us = if now_ns > last {
                    (now_ns - last) / 1000
                } else {
                    0
                };
                &&& counted.wasapi_trigger_gap_us == gap_us
                &&& counted.max_wasapi_trigger_gap_us == (if gap_us
                    > stats.max_wasapi_trigger_gap_us {
                    gap_us
                } else {
                    stats.max_wasapi_trigger_gap_us as int
                })
                &&& counted.send_gap_us == stats.send_gap_us
                &&& counted.max_send_gap_us == stats.max_send_gap_us
                &&& counted.active == stats.active
                &&& counted.target_addr == stats.target_addr
                &&& counted.clear_epoch == stats.clear_epoch
            }
        }),
{
}

/// A block has exactly the frames that the resampler asked for, the oldest that wait,
/// and is handed over as soon as they are there. Where they are not, the piece is done:
/// what was made of it is handed out, and what waits stays.
pub proof fn block_has_the_frames_asked_for(state: ResamplerView, frames: usize)
    ensures
        2 * frames <= state.pending.len() ==> {
            let (next, action) = resample_next(state, ResampleEvent::BlockFrames { frames });
            &&& action matches ResampleActionView::Resample { block }
            &&& block.len() == 2 * frames
            &&& block + next.pending == state.pending
            &&& next.out == state.out
        },
        2 * frames > state.pending.len() ==> {
            let (next, action) = resample_next(state, ResampleEvent::BlockFrames { frames });
            &&& action == (ResampleActionView::Done { pcm: state.out })
            &&& next.pending == state.pending
            &&& next.out.len() == 0
        },
{
    if 2 * frames <= state.pending.len() {
        let cut = 2 * frames as int;
        assert(state.pending.take(cut) + state.pending.skip(cut) =~= state.pending);
    }
}

/// A piece that comes in is put behind what waits, and nothing made of an earlier piece
/// gets into it. What the resampler makes is added at the end; where it fails the piece
/// has failed, and what waits stays for the next.
pub proof fn piece_is_taken_in_order(state: ResamplerView, samples: Vec<u32>)
    ensures
        resample_next(state, ResampleEvent::Input { samples }) == (
            ResamplerView { pending: state.pending + samples@, out: Seq::empty() },
            ResampleActionView::AskBlockFrames,
        ),
        resample_next(state, ResampleEvent::Resampled { outcome: Some(samples) }) == (
            ResamplerView { pending: state.pending, out: state.out + samples@ },
            ResampleActionView::AskBlockFrames,
        ),
        resample_next(state, ResampleEvent::Resampled { outcome: None }) == (
            ResamplerView { pending: state.pending, out: Seq::empty() },
            ResampleActionView::Failed,
        ),
{
}

/// What the resampler made of the blocks from `from` on, one after the other.
pub open spec fn made_of(model: ResamplerModel, blocks: Seq<Seq<u32>>, from: int) -> Seq<u32>
    decreases blocks.len(),
{
    if blocks.len() == 0 || blocks.len() <= from {
        Seq::empty()
    } else {
        made_of(model, blocks.drop_last(), from) + (model.output)(blocks)@
    }
}

proof fn made_of_first(model: ResamplerModel, blocks: Seq<Seq<u32>>, from: int)
    requires
        0 <= from < blocks.len(),
    ensures
        made_of(model, blocks, from) == (model.output)(blocks.take(from + 1))@ + made_of(
            model,
            blocks,
            from + 1,
        ),
    decreases blocks.len(),
{
    let head = blocks.drop_last();
    let first = (model.output)(blocks.take(from + 1))@;
    if from + 1 == blocks.len() {
        assert(blocks.take(from + 1) =~= blocks);
        assert(made_of(model, head, from) =~= Seq::empty());
        assert(made_of(model, blocks, from + 1) =~= Seq::empty());
        assert(made_of(model, blocks, from) =~= first + Seq::<u32>::empty());
    } else {
        made_of_first(model, head, from);
        assert(head.take(from + 1) =~= blocks.take(from + 1));
        assert(made_of(model, blocks, from) =~= first + (made_of(model, head, from + 1) + (
        model.output)(blocks)@));
    }
}

/// A piece is resampled as far as it goes: each block has the frames asked for at its
/// turn, what is left is too short for another, and the piece that comes out is all
/// that was made of its blocks, in order.
pub proof fn piece_is_resampled_in_full(
    model: ResamplerModel,
    given: Seq<Seq<u32>>,
    pending: Seq<u32>,
    out: Seq<u32>,
)
    requires
        takes_frames(model),
    ensures
        ({
            let (blocks, rest, pcm) = finished(model, given, ResamplerView { pending, out });
            &&& blocks.len() >= given.len()
            &&& blocks.take(given.len() as int) == given
            &&& forall|i: int|
                given.len() <= i < blocks.len() ==> (#[trigger] blocks[i]).len() == 2 * (
                model.frames)(blocks.take(i))
            &&& rest.len() < 2 * (model.frames)(blocks)
            &&& pcm == out + made_of(model, blocks, given.len() as int)
        }),
    decreases pending.len(),
{
    let frames = (model.frames)(given);
    let from = given.len() as int;
    let (blocks, rest, pcm) = finished(model, given, ResamplerView { pending, out });
    if 2 * frames <= pending.len() {
        let block = pending.take(2 * frames as int);
        let now = given.push(block);
        let made = (model.output)(now)@;
        piece_is_resampled_in_full(model, now, pending.skip(2 * frames as int), out + made);
        made_of_first(model, blocks, from);
        assert(blocks.take(from + 1) == now);
        assert(blocks.take(from) =~= now.take(from));
        assert(now.take(from) =~= given);
        assert(blocks[from] == now[from]) by {
            assert(blocks.take(from + 1)[from] == blocks[from]);
        }
        assert(pcm =~= out + made_of(model, blocks, from));
    } else {
        assert(blocks == given);
        assert(given.take(from) =~= given);
        assert(made_of(model, blocks, from) =~= Seq::empty());
        assert(out + Seq::<u32>::empty() =~= out);
    }
}

/// Linear resampling keeps the duration: as many frames as fit into it at the new
/// rate, and not one less.
pub proof fn resampling_keeps_the_duration(source_frames: nat, source_rate: u32, target_rate: u32)
    requires
        source_rate > 0,
    ensures
        resampled_frames(source_frames, source_rate, target_rate) * source_rate <= source_frames
            * target_rate,
        source_frames * target_rate < (resampled_frames(source_frames, source_rate, target_rate)
            + 1) * source_rate,
        source_rate == target_rate ==> resampled_frames(source_frames, source_rate, target_rate)
            == source_frames,
{
    let total = source_frames * (target_rate as nat);
    let rate = source_rate as nat;
    let n = resampled_frames(source_frames, source_rate, target_rate);
    assert(n * rate <= total && total < (n + 1) * rate) by (nonlinear_arith)
        requires
            n == total / rate,
            rate > 0,
    ;
    if source_rate == target_rate {
        assert(source_frames * rate / rate == source_frames) by (nonlinear_arith)
            requires
                rate > 0,
        ;
    }
}

/// A piece of less than two frames stays as it is. Any other is interpolated, to as
/// many frames as its duration holds at the new rate; a sample without its partner at
/// the end does not count.
pub proof fn pieces_of_two_frames_are_interpolated(
    samples: nat,
    source_rate: u32,
    target_rate: u32,
    target_frames: usize,
)
    requires
        source_rate > 0,
    ensures
        samples < 4 <==> planned(samples, source_rate, target_rate) is Keep,
        samples >= 4 && target_frames * source_rate <= (samples / 2) * target_rate && (samples / 2)
            * target_rate < (target_frames + 1) * source_rate ==> planned(
            samples,
            source_rate,
            target_rate,
        ) == (LinearPlan::Interpolate { target_frames }),
{
    let total = (samples / 2) * (target_rate as nat);
    let rate = source_rate as nat;
    let n = target_frames as nat;
    if n * rate <= total && total < (n + 1) * rate {
        assert(total / rate == n) by (nonlinear_arith)
            requires
                n * rate <= total < (n + 1) * rate,
                rate > 0,
        ;
    }
}

/// Clearing opens the next epoch, counts nothing, and leaves the stream as it is. The
/// first delivery after it has no gap, and the second is timed from the first.
pub proof fn clearing_opens_an_epoch(
    processor: CaptureProcessor,
    stats: StatsView,
    first_ns: u64,
    second_ns: u64,
)
    requires
        processor.seen_clear_epoch == stats.clear_epoch,
        first_ns <= second_ns,
    ensures
        ({
            let cleared = stats.cleared();
            let (after, kept) = triggered(processor, cleared, first_ns);
            &&& cleared.clear_epoch != stats.clear_epoch
            &&& stats.clear_epoch < u64::MAX ==> cleared.clear_epoch == stats.clear_epoch + 1
            &&& cleared.max_send_gap_us == 0
            &&& cleared.send_gap_us == 0
            &&& cleared.max_wasapi_trigger_gap_us == 0
            &&& cleared.wasapi_trigger_gap_us == 0
            &&& cleared.last_sent_frames_per_sec == 0
            &&& cleared.active == stats.active
            &&& cleared.target_addr == stats.target_addr
            &&& kept == cleared
            &&& triggered(after, kept, second_ns).1.max_wasapi_trigger_gap_us == (second_ns
                - first_ns) / 1000
        }),
{
}

/// Single precision, and integers of 16, 24 or 32 bits, are captured, whether the
/// format says so by its tag or, where the tag is the extensible one, by its sub format.
/// Nothing else is, and nothing at all off Windows.
pub proof fn formats_are_told_apart(host: Host, format: WaveFormat)
    ensures
        ({
            let float = host is Windows && (format.format_tag == 3 || (format.format_tag == 0xFFFE
                && format.sub_format == Some(0x00000003_0000_0010_8000_00aa00389b71u128)));
            let pcm = host is Windows && (format.format_tag == 1 || (format.format_tag == 0xFFFE
                && format.sub_format == Some(0x00000001_0000_0010_8000_00aa00389b71u128)));
            let bits = format.bits_per_sample;
            &&& format.float(host) == float
            &&& format.pcm(host) == pcm
            &&& float && bits == 32 <==> sample_format(host, format) == Ok::<
                WasapiSampleFormat,
                FormatError,
            >(WasapiSampleFormat::F32)
            &&& pcm && bits == 16 <==> sample_format(host, format) == Ok::<
                WasapiSampleFormat,
                FormatError,
            >(WasapiSampleFormat::I16)
            &&& pcm && bits == 24 <==> sample_format(host, format) == Ok::<
                WasapiSampleFormat,
                FormatError,
            >(WasapiSampleFormat::I24)
            &&& pcm && bits == 32 <==> sample_format(host, format) == Ok::<
                WasapiSampleFormat,
                FormatError,
            >(WasapiSampleFormat::I32)
            &&& pcm && bits != 16 && bits != 24 && bits != 32 ==> sample_format(host, format)
                == Err::<WasapiSampleFormat, FormatError>(FormatError::PcmDepth { bits })
            &&& !pcm && !(float && bits == 32) ==> sample_format(host, format) == Err::<
                WasapiSampleFormat,
                FormatError,
            >(
                FormatError::MixFormat {
                    tag: format.format_tag,
                    bits,
                    sub_format: format.sub_format,
                },
            )
        }),
{
}

/// A format that is not captured is told with its figures in decimal.
pub proof fn format_is_told_in_full(tag: u16, bits: u16, sub_format: u128)
    ensures
        (FormatError::PcmDepth { bits }).text() == "Unsupported WASAPI PCM bit depth: "@ + decimal(
            bits as nat,
        ),
        (FormatError::MixFormat { tag, bits, sub_format: None }).text()
            == "Unsupported WASAPI mix format: tag="@ + decimal(tag as nat) + " bits="@ + decimal(
            bits as nat,
        ) + " subtype="@ + "None"@,
        (FormatError::MixFormat { tag, bits, sub_format: Some(sub_format) }).text()
            == "Unsupported WASAPI mix format: tag="@ + decimal(tag as nat) + " bits="@ + decimal(
            bits as nat,
        ) + " subtype="@ + ("Some("@ + guid_text(sub_format) + ")"@),
{
}

proof fn hex_parts(n: nat, high: nat, low: nat)
    ensures
        hex(n, high + low) == hex((n as int / pow(16, low)) as nat, high) + hex(n, low),
    decreases low,
{
    lemma_pow_positive(16, low);
    if low == 0 {
        lemma_pow0(16);
        assert(hex(n, 0) =~= Seq::empty());
        assert(hex(n, high) + Seq::<char>::empty() =~= hex(n, high));
    } else {
        let rest = (low - 1) as nat;
        hex_parts(n / 16, high, rest);
        lemma_pow_positive(16, rest);
        reveal(pow);
        assert(pow(16, low) == 16 * pow(16, rest));
        lemma_div_denominator(n as int, 16, pow(16, rest));
        assert(hex(n, high + low) =~= hex((n as int / pow(16, low)) as nat, high) + hex(n, low));
    }
}

/// A GUID is told by all of its 32 digits in order, with dashes after the eighth, the
/// twelfth, the sixteenth and the twentieth.
pub proof fn guid_is_told_in_full(bits: u128)
    ensures
        ({
            let text = guid_text(bits);
            &&& text.len() == 36
            &&& text[8] == '-'
            &&& text[13] == '-'
            &&& text[18] == '-'
            &&& text[23] == '-'
            &&& text.take(8) + text.subrange(9, 13) + text.subrange(14, 18) + text.subrange(19, 23)
                + text.skip(24) == hex(bits as nat, 32)
            &&& sub_format_text(Some(bits)) == "Some("@ + text + ")"@
        }),
{
    let n = bits as nat;
    let text = guid_text(bits);
    reveal_strlit("-");
    assert(pow(16, 12) == 0x1000000000000) by {
        reveal_with_fuel(pow, 13);
    }
    assert(pow(16, 4) == 0x10000) by {
        reveal_with_fuel(pow, 5);
    }
    lemma_pow_adds(16, 12, 4);
    lemma_pow_adds(16, 16, 4);
    lemma_pow_adds(16, 20, 4);
    hex_parts(n, 8, 24);
    hex_parts(n, 4, 20);
    hex_parts(n, 4, 16);
    hex_parts(n, 4, 12);
    let a = hex(n / 0x1000000000000000000000000, 8);
    let b = hex(n / 0x100000000000000000000, 4);
    let c = hex(n / 0x10000000000000000, 4);
    let d = hex(n / 0x1000000000000, 4);
    let e = hex(n, 12);
    hex_is_written_digit_by_digit(n / 0x1000000000000000000000000, 8, 0);
    hex_is_written_digit_by_digit(n / 0x100000000000000000000, 4, 0);
    hex_is_written_digit_by_digit(n / 0x10000000000000000, 4, 0);
    hex_is_written_digit_by_digit(n / 0x1000000000000, 4, 0);
    hex_is_written_digit_by_digit(n, 12, 0);
    assert(text.take(8) =~= a);
    assert(text.subrange(9, 13) =~= b);
    assert(text.subrange(14, 18) =~= c);
    assert(text.subrange(19, 23) =~= d);
    assert(text.skip(24) =~= e);
    assert(a + (b + (c + (d + e))) =~= a + b + c + d + e);
}

} // verus!
