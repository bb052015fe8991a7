//! What stands where in the bytes of a packet, and what a full pipe lets go.

use crate::bytes::{byte_range, le_bytes, le_bytes_len, le_value};
use crate::packet::{field, header, header_len, packet_fields, stamped, stamped_packet};
use crate::pcm::{bytes_hold, frame_is_in_its_bytes, pcm_le, pcm_le_len};
use crate::pcm_pipe::{after_receive, latest, PCM_QUEUE_CAPACITY};
use crate::sender::due_millisamples;
use crate::stream_laws::{frame, nth_packet, per_channel, per_packet, repeated, wrapped};
use vstd::arithmetic::div_mod::lemma_div_denominator;
use vstd::arithmetic::power::{lemma_pow0, lemma_pow_positive, pow};
use vstd::prelude::*;

verus! {

/// Byte `i` of a number is its digit of weight 256 to the power of `i`.
pub proof fn number_is_in_its_bytes(n: nat, width: nat, i: nat)
    requires
        i < width,
    ensures
        le_bytes(n, width).len() == width,
        le_bytes(n, width)[i as int] == (n as int / pow(256, i)) % 256,
    decreases width,
{
    le_bytes_len(n, width);
    let rest = le_bytes(n / 256, (width - 1) as nat);
    le_bytes_len(n / 256, (width - 1) as nat);
    if i == 0 {
        lemma_pow0(256);
        assert(le_bytes(n, width)[0] == (n % 256) as u8);
    } else {
        let j = (i - 1) as nat;
        number_is_in_its_bytes(n / 256, (width - 1) as nat, j);
        assert(le_bytes(n, width)[i as int] == rest[j as int]);
        lemma_pow_positive(256, j);
        reveal(pow);
        assert(pow(256, i) == 256 * pow(256, j));
        lemma_div_denominator(n as int, 256, pow(256, j));
    }
}

/// Bytes are read as the one number that is written as these bytes.
pub proof fn bytes_are_read_as_their_number(s: Seq<u8>)
    ensures
        le_bytes(le_value(s), s.len()) == s,
    decreases s.len(),
{
    if s.len() > 0 {
        let rest = s.drop_first();
        bytes_are_read_as_their_number(rest);
        assert(le_value(s) % 256 == s[0]);
        assert(le_value(s) / 256 == le_value(rest));
        assert(le_bytes(le_value(s), s.len()) =~= seq![s[0]] + rest);
        assert(seq![s[0]] + rest =~= s);
    } else {
        assert(le_bytes(le_value(s), s.len()) =~= s);
    }
}

/// Ten milliseconds of stereo at 48 kHz are 480 samples for each side.
pub proof fn packet_is_ten_milliseconds()
    ensures
        per_channel() == 480,
        per_packet() == 960,
        due_millisamples(0) == 480_000,
{
}

/// Every packet opens with the same six bytes and no flags; then come its number, the
/// time of its first sample, when it was sent and the length of its frame. Sample `i`
/// of its frame is sample `960 * k + i` of the stream.
pub proof fn packet_is_laid_out(stream: Seq<i16>, k: nat, sent_at: u64, i: int)
    requires
        960 * (k + 1) <= stream.len(),
        0 <= i < 960,
    ensures
        ({
            let p = stamped(nth_packet(stream, k), sent_at);
            &&& p[0] == 76 && p[1] == 65 && p[2] == 80 && p[3] == 49
            &&& p[4] == 1
            &&& p[5] == 48
            &&& field(p, 6, 2) == 0
            &&& field(p, 8, 8) == k % 0x1_0000_0000_0000_0000
            &&& field(p, 16, 8) == (480 * k) % 0x1_0000_0000_0000_0000
            &&& field(p, 24, 8) == sent_at
            &&& field(p, 32, 4) == 1920
            &&& bytes_hold(p, 48 + 2 * i, 2, stream[960 * k + i] as int)
        }),
{
    let p = stamped(nth_packet(stream, k), sent_at);
    laid_out(stream, k, sent_at);
    let primary = pcm_le(frame(stream, k));
    assert(per_packet() == 960);
    assert((k + 1) * 960 == k * 960 + 960) by (nonlinear_arith);
    frame_is_in_its_bytes(frame(stream, k), i);
    let cut = p.subrange(48, 48int + primary.len());
    assert(cut[2 * i] == p[48 + 2 * i]);
    assert(cut[2 * i + 1] == p[48 + 2 * i + 1]);
    let magic = p.take(4);
    assert(magic[0] == p[0] && magic[1] == p[1] && magic[2] == p[2] && magic[3] == p[3]);
    assert(k * 480 == 480 * k) by (nonlinear_arith);
}

/// The first packet repeats nothing. Every other one says so, names the packet before
/// it, and repeats its frame behind its own.
pub proof fn packet_repeats_the_one_before(stream: Seq<i16>, k: nat, sent_at: u64, i: int)
    requires
        960 * (k + 1) <= stream.len(),
        0 <= i < 960,
    ensures
        ({
            let p = stamped(nth_packet(stream, k), sent_at);
            &&& p[45] == 0
            &&& k == 0 ==> field(p, 36, 8) == 0 && p[44] == 0 && field(p, 46, 2) == 0 && p.len()
                == 1968
            &&& k > 0 ==> {
                &&& field(p, 36, 8) == (k - 1) % 0x1_0000_0000_0000_0000
                &&& p[44] == 1
                &&& field(p, 46, 2) == 1920
                &&& p.len() == 3888
                &&& bytes_hold(p, 1968 + 2 * i, 2, stream[960 * (k - 1) + i] as int)
            }
        }),
{
    let p = stamped(nth_packet(stream, k), sent_at);
    laid_out(stream, k, sent_at);
    assert(per_packet() == 960);
    assert((k + 1) * 960 == k * 960 + 960) by (nonlinear_arith);
    pcm_le_len(frame(stream, k));
    if k > 0 {
        assert(k * 960 == (k - 1) * 960 + 960) by (nonlinear_arith);
        let before = (k - 1) as nat;
        frame_is_in_its_bytes(frame(stream, before), i);
        let cut = p.skip(1968);
        assert(cut[2 * i] == p[1968 + 2 * i]);
        assert(cut[2 * i + 1] == p[1968 + 2 * i + 1]);
    }
}

proof fn laid_out(stream: Seq<i16>, k: nat, sent_at: u64)
    requires
        960 * (k + 1) <= stream.len(),
    ensures
        ({
            let p = stamped(nth_packet(stream, k), sent_at);
            let primary = pcm_le(frame(stream, k));
            let fec = repeated(stream, k);
            let fec_payload = match fec {
                Some((_, payload)) => payload,
                None => Seq::empty(),
            };
            &&& primary.len() == 1920
            &&& p.len() == 48 + 1920 + fec_payload.len()
            &&& p.take(4) == seq![76u8, 65, 80, 49]
            &&& p[4] == 1
            &&& p[5] == 48
            &&& field(p, 6, 2) == 0
            &&& field(p, 8, 8) == wrapped(k)
            &&& field(p, 16, 8) == wrapped(k * per_channel())
            &&& field(p, 24, 8) == sent_at
            &&& field(p, 32, 4) == 1920
            &&& field(p, 36, 8) == (match fec {
                Some((fec_sequence, _)) => fec_sequence,
                None => 0,
            })
            &&& p[44] == (if fec is Some {
                1
            } else {
                0int
            })
            &&& p[45] == 0
            &&& field(p, 46, 2) == fec_payload.len()
            &&& p.subrange(48, 1968) == primary
            &&& p.skip(1968) == fec_payload
            &&& k > 0 ==> fec_payload.len() == 1920
        }),
{
    let primary = pcm_le(frame(stream, k));
    let fec = repeated(stream, k);
    assert(per_packet() == 960);
    assert((k + 1) * 960 == k * 960 + 960) by (nonlinear_arith);
    assert(960 * (k + 1) == (k + 1) * 960) by (nonlinear_arith);
    pcm_le_len(frame(stream, k));
    if k > 0 {
        assert(k * 960 == (k - 1) * 960 + 960) by (nonlinear_arith);
        pcm_le_len(frame(stream, (k - 1) as nat));
    }
    stamped_packet(wrapped(k), wrapped(k * per_channel()), 0, 0, sent_at, primary, fec);
    packet_fields(wrapped(k), wrapped(k * per_channel()), 0, sent_at, primary, fec);
    assert(crate::audio_protocol::UDP_PACKET_MAGIC@ =~= seq![76u8, 65, 80, 49]);
}

/// A stamp replaces the eight bytes of the send time and leaves every other byte.
pub proof fn stamp_changes_only_the_time(bytes: Seq<u8>, sent_at: u64, i: int)
    requires
        bytes.len() >= 32,
        0 <= i < bytes.len(),
    ensures
        stamped(bytes, sent_at).len() == bytes.len(),
        !(24 <= i < 32) ==> stamped(bytes, sent_at)[i] == bytes[i],
        field(stamped(bytes, sent_at), 24, 8) == sent_at,
{
    le_bytes_len(sent_at as nat, 8);
    read_back(sent_at as nat, 8);
    ranges();
    assert(stamped(bytes, sent_at).subrange(24, 32) =~= le_bytes(sent_at as nat, 8));
}

proof fn ranges()
    ensures
        byte_range(2) == 0x1_0000,
        byte_range(4) == 0x1_0000_0000,
        byte_range(8) == 0x1_0000_0000_0000_0000,
{
    reveal_with_fuel(byte_range, 9);
}

proof fn read_back(n: nat, width: nat)
    ensures
        le_value(le_bytes(n, width)) == n as int % (byte_range(width) as int),
        byte_range(width) > 0,
    decreases width,
{
    if width > 0 {
        let rest = (width - 1) as nat;
        read_back(n / 256, rest);
        le_bytes_len(n, width);
        let s = le_bytes(n, width);
        assert(s.drop_first() =~= le_bytes(n / 256, rest));
        let whole = n as int;
        let range = byte_range(rest) as int;
        vstd::arithmetic::div_mod::lemma_mod_breakdown(whole, 256, range);
    }
}

/// A header of any lengths holds its fields in their places; of a length that does not
/// fit, the low bytes. Without a redundant frame its fields are zero.
pub proof fn header_is_laid_out(
    sequence: u64,
    timestamp_samples: u64,
    flags: u16,
    sent_at: u64,
    primary_bytes: nat,
    fec: Option<(u64, Seq<u8>)>,
)
    ensures
        ({
            let h = header(sequence, timestamp_samples, flags, sent_at, primary_bytes, fec);
            &&& h.len() == 48
            &&& h[0] == 76 && h[1] == 65 && h[2] == 80 && h[3] == 49
            &&& h[4] == 1
            &&& h[5] == 48
            &&& field(h, 6, 2) == flags
            &&& field(h, 8, 8) == sequence
            &&& field(h, 16, 8) == timestamp_samples
            &&& field(h, 24, 8) == sent_at
            &&& field(h, 32, 4) == primary_bytes % 0x1_0000_0000
            &&& h[45] == 0
            &&& fec is None ==> field(h, 36, 8) == 0 && h[44] == 0 && field(h, 46, 2) == 0
            &&& fec matches Some((fec_sequence, payload)) ==> {
                &&& field(h, 36, 8) == fec_sequence
                &&& h[44] == 1
                &&& field(h, 46, 2) == payload.len() % 0x1_0000
            }
        }),
{
    let h = header(sequence, timestamp_samples, flags, sent_at, primary_bytes, fec);
    header_len(sequence, timestamp_samples, flags, sent_at, primary_bytes, fec);
    let (fec_sequence, fec_len): (nat, nat) = match fec {
        Some((fec_sequence, payload)) => (fec_sequence as nat, payload.len()),
        None => (0, 0),
    };
    ranges();
    read_back(flags as nat, 2);
    read_back(sequence as nat, 8);
    read_back(timestamp_samples as nat, 8);
    read_back(sent_at as nat, 8);
    read_back(primary_bytes, 4);
    read_back(fec_sequence, 8);
    read_back(fec_len, 2);
    le_bytes_len(flags as nat, 2);
    le_bytes_len(sequence as nat, 8);
    le_bytes_len(timestamp_samples as nat, 8);
    le_bytes_len(sent_at as nat, 8);
    le_bytes_len(primary_bytes, 4);
    le_bytes_len(fec_sequence, 8);
    le_bytes_len(fec_len, 2);
    assert(h.subrange(6, 8) =~= le_bytes(flags as nat, 2));
    assert(h.subrange(8, 16) =~= le_bytes(sequence as nat, 8));
    assert(h.subrange(16, 24) =~= le_bytes(timestamp_samples as nat, 8));
    assert(h.subrange(24, 32) =~= le_bytes(sent_at as nat, 8));
    assert(h.subrange(32, 36) =~= le_bytes(primary_bytes, 4));
    assert(h.subrange(36, 44) =~= le_bytes(fec_sequence, 8));
    assert(h.subrange(46, 48) =~= le_bytes(fec_len, 2));
}

/// A full pipe lets the oldest chunks go: what it holds is the end of all that went in,
/// as much of it as fits.
pub proof fn full_pipe_lets_the_oldest_go<T>(chunks: Seq<T>, limit: nat, i: int)
    ensures
        chunks.len() <= limit ==> latest(chunks, limit) == chunks,
        chunks.len() > limit ==> latest(chunks, limit).len() == limit,
        0 <= i < latest(chunks, limit).len() ==> latest(chunks, limit)[latest(chunks, limit).len()
            - 1 - i] == chunks[chunks.len() - 1 - i],
        PCM_QUEUE_CAPACITY == 32,
{
}

/// What went into a pipe in the course of a row of uses: an element that was put in, or
/// nothing where one was asked for.
pub open spec fn put_in<T>(uses: Seq<Option<T>>) -> Seq<T>
    decreases uses.len(),
{
    if uses.len() == 0 {
        Seq::empty()
    } else {
        match uses.last() {
            Some(element) => put_in(uses.drop_last()).push(element),
            None => put_in(uses.drop_last()),
        }
    }
}

/// What came out of an empty pipe in the course of a row of uses, and what then waits.
pub open spec fn handed_out<T>(uses: Seq<Option<T>>, limit: nat) -> (Seq<T>, Seq<T>)
    decreases uses.len(),
{
    if uses.len() == 0 {
        (Seq::empty(), Seq::empty())
    } else {
        let (out, waiting) = handed_out(uses.drop_last(), limit);
        match uses.last() {
            Some(element) => (out, latest(waiting.push(element), limit)),
            None => match after_receive(waiting) {
                (Some(element), rest) => (out.push(element), rest),
                (None, rest) => (out, rest),
            },
        }
    }
}

/// A pipe hands out what went into it, in order: what waits is always the end of it,
/// and where no more went in than the pipe holds, all that does not wait has come out.
pub proof fn pipe_hands_out_in_order<T>(uses: Seq<Option<T>>, limit: nat)
    requires
        limit > 0,
    ensures
        ({
            let all = put_in(uses);
            let (out, waiting) = handed_out(uses, limit);
            &&& waiting.len() <= limit
            &&& waiting.len() <= all.len()
            &&& waiting == all.skip(all.len() - waiting.len())
            &&& all.len() <= limit ==> out + waiting == all
            &&& out.len() + waiting.len() <= all.len()
        }),
    decreases uses.len(),
{
    if uses.len() > 0 {
        let head = uses.drop_last();
        pipe_hands_out_in_order(head, limit);
        let before = put_in(head);
        let all = put_in(uses);
        let (out, waiting) = handed_out(head, limit);
        let (out_now, waiting_now) = handed_out(uses, limit);
        match uses.last() {
            Some(element) => {
                assert(waiting_now =~= all.skip(all.len() - waiting_now.len()));
                if all.len() <= limit {
                    assert(out_now + waiting_now =~= all);
                }
            },
            None => {
                assert(waiting_now =~= all.skip(all.len() - waiting_now.len()));
                if all.len() <= limit {
                    assert(out_now + waiting_now =~= all);
                }
            },
        }
    } else {
        assert(handed_out(uses, limit).1 =~= put_in(uses).skip(0));
        assert(handed_out(uses, limit).0 + handed_out(uses, limit).1 =~= put_in(uses));
    }
}

} // verus!
