//! Integer PCM samples: reading them from device bytes, writing them as
//! 16-bit little-endian, and cutting frames off a buffer.

use crate::bytes::{le_bytes, le_value, push_le};
use vstd::prelude::*;

verus! {

/// The signed number that `width` bytes stand for in two's complement, given
/// their unsigned value.
pub open spec fn signed_value(unsigned: nat, width: nat) -> int {
    if 2 * unsigned < crate::bytes::byte_range(width) {
        unsigned as int
    } else {
        unsigned - crate::bytes::byte_range(width)
    }
}

/// The unsigned value of the two bytes that hold `sample`.
pub open spec fn i16_bits(sample: i16) -> nat {
    if sample >= 0 {
        sample as nat
    } else {
        (sample + 65536) as nat
    }
}

/// The two little-endian bytes of `sample`.
pub open spec fn i16_le(sample: i16) -> Seq<u8> {
    le_bytes(i16_bits(sample), 2)
}

/// A frame of samples as 16-bit little-endian bytes, in order.
pub open spec fn pcm_le(frame: Seq<i16>) -> Seq<u8>
    decreases frame.len(),
{
    if frame.len() == 0 {
        Seq::empty()
    } else {
        pcm_le(frame.drop_last()) + i16_le(frame.last())
    }
}

/// The sample of `width` bytes that starts at `at`, as a signed integer.
pub open spec fn sample_at(input: Seq<u8>, at: int, width: nat) -> int {
    signed_value(le_value(input.subrange(at, at + width)), width)
}

/// The whole 16-bit samples in `input`; an odd byte at the end is left out.
pub open spec fn i16_samples(input: Seq<u8>) -> Seq<i16> {
    Seq::new(input.len() / 2, |i: int| sample_at(input, 2 * i, 2) as i16)
}

/// The `size` bytes from `at` on are the little-endian two's complement of `sample`.
pub open spec fn bytes_hold(input: Seq<u8>, at: int, size: int, sample: int) -> bool {
    if size == 2 {
        &&& -32768 <= sample < 32768
        &&& (input[at] + 256 * input[at + 1] - sample) % 65536 == 0
    } else if size == 3 {
        &&& -8388608 <= sample < 8388608
        &&& (input[at] + 256 * input[at + 1] + 65536 * input[at + 2] - sample) % 16777216 == 0
    } else {
        &&& size == 4
        &&& -2147483648 <= sample < 2147483648
        &&& (input[at] + 256 * input[at + 1] + 65536 * input[at + 2] + 16777216 * input[at + 3]
            - sample) % 4294967296 == 0
    }
}

/// A sample is the signed number whose two's complement its bytes spell, the
/// least significant first.
pub proof fn sample_is_in_its_bytes(input: Seq<u8>, at: int, size: nat)
    requires
        2 <= size <= 4,
        0 <= at,
        at + size <= input.len(),
    ensures
        bytes_hold(input, at, size as int, sample_at(input, at, size)),
{
    byte_ranges();
    let s = input.subrange(at, at + size);
    assert(s[0] == input[at] && s[1] == input[at + 1]);
    if size == 2 {
        le_value_2(s);
    } else if size == 3 {
        assert(s[2] == input[at + 2]);
        le_value_3(s);
    } else {
        assert(s[2] == input[at + 2] && s[3] == input[at + 3]);
        le_value_4(s);
    }
}

/// The bytes of a frame, two for each of its samples, hold those samples in order.
pub proof fn frame_is_in_its_bytes(frame: Seq<i16>, i: int)
    requires
        0 <= i < frame.len(),
    ensures
        pcm_le(frame).len() == 2 * frame.len(),
        bytes_hold(pcm_le(frame), 2 * i, 2, frame[i] as int),
{
    pcm_le_len(frame);
    i16_samples_of_pcm_le(frame);
    sample_is_in_its_bytes(pcm_le(frame), 2 * i, 2);
    assert(i16_samples(pcm_le(frame))[i] == frame[i]);
}

/// Every pair of bytes is one sample, and an odd byte at the end is none.
pub proof fn samples_are_in_their_bytes(input: Seq<u8>, i: int)
    requires
        0 <= i,
        2 * i + 1 < input.len(),
    ensures
        2 * i16_samples(input).len() <= input.len() <= 2 * i16_samples(input).len() + 1,
        bytes_hold(input, 2 * i, 2, i16_samples(input)[i] as int),
{
    sample_is_in_its_bytes(input, 2 * i, 2);
}

proof fn le_value_2(s: Seq<u8>)
    requires
        s.len() == 2,
    ensures
        le_value(s) == s[0] + 256 * s[1],
{
    reveal_with_fuel(le_value, 3);
    assert(s.drop_first()[0] == s[1]);
}

proof fn le_value_4(s: Seq<u8>)
    requires
        s.len() == 4,
    ensures
        le_value(s) == s[0] + 256 * s[1] + 65536 * s[2] + 16777216 * s[3],
{
    reveal_with_fuel(le_value, 5);
    let t = s.drop_first();
    let u = t.drop_first();
    let v = u.drop_first();
    assert(t[0] == s[1] && u[0] == s[2] && v[0] == s[3]);
}

proof fn le_value_3(s: Seq<u8>)
    requires
        s.len() == 3,
    ensures
        le_value(s) == s[0] + 256 * s[1] + 65536 * s[2],
{
    reveal_with_fuel(le_value, 4);
    let t = s.drop_first();
    let u = t.drop_first();
    assert(t[0] == s[1] && u[0] == s[2]);
}

proof fn byte_ranges()
    ensures
        crate::bytes::byte_range(2) == 65536,
        crate::bytes::byte_range(3) == 16777216,
        crate::bytes::byte_range(4) == 4294967296,
{
    reveal_with_fuel(crate::bytes::byte_range, 5);
}

/// The 16-bit sample in the first two bytes.
pub fn read_i16(bytes: &[u8]) -> (r: i16)
    requires
        bytes@.len() >= 2,
    ensures
        r == sample_at(bytes@, 0, 2),
        bytes_hold(bytes@, 0, 2, r as int),
{
    proof {
        sample_is_in_its_bytes(bytes@, 0, 2);
        le_value_2(bytes@.subrange(0, 2));
        byte_ranges();
    }
    let unsigned: i32 = bytes[0] as i32 + 256 * (bytes[1] as i32);
    let signed: i32 = if unsigned < 32768 {
        unsigned
    } else {
        unsigned - 65536
    };
    signed as i16
}

/// The 24-bit sample in the first three bytes, sign extended.
pub fn read_i24(bytes: &[u8]) -> (r: i32)
    requires
        bytes@.len() >= 3,
    ensures
        r == sample_at(bytes@, 0, 3),
        bytes_hold(bytes@, 0, 3, r as int),
{
    proof {
        sample_is_in_its_bytes(bytes@, 0, 3);
        le_value_3(bytes@.subrange(0, 3));
        byte_ranges();
    }
    let unsigned: i32 = bytes[0] as i32 + 256 * (bytes[1] as i32) + 65536 * (bytes[2] as i32);
    if unsigned < 8388608 {
        unsigned
    } else {
        unsigned - 16777216
    }
}

/// The 32-bit sample in the first four bytes.
pub fn read_i32(bytes: &[u8]) -> (r: i32)
    requires
        bytes@.len() >= 4,
    ensures
        r == sample_at(bytes@, 0, 4),
        bytes_hold(bytes@, 0, 4, r as int),
{
    proof {
        sample_is_in_its_bytes(bytes@, 0, 4);
        le_value_4(bytes@.subrange(0, 4));
        byte_ranges();
    }
    let unsigned: i64 = bytes[0] as i64 + 256 * (bytes[1] as i64) + 65536 * (bytes[2] as i64)
        + 16777216 * (bytes[3] as i64);
    let signed: i64 = if unsigned < 2147483648 {
        unsigned
    } else {
        unsigned - 4294967296
    };
    signed as i32
}

/// Every whole 16-bit sample of `input`, in order.
pub fn read_i16_samples(input: &[u8]) -> (r: Vec<i16>)
    ensures
        r@ == i16_samples(input@),
{
    let len: usize = input.len();
    let count: usize = len / 2;
    let mut out: Vec<i16> = Vec::with_capacity(count);
    let mut i: usize = 0;
    while i < count
        invariant
            i <= count,
            len == input@.len(),
            count == len / 2,
            out@.len() == i,
            forall|j: int| 0 <= j < i ==> out@[j] == sample_at(input@, 2 * j, 2) as i16,
        decreases count - i,
    {
        let bytes: &[u8] = vstd::slice::slice_subrange(input, 2 * i, 2 * i + 2);
        assert(bytes@.subrange(0, 2) =~= input@.subrange(2 * i as int, 2 * i + 2));
        out.push(read_i16(bytes));
        i = i + 1;
    }
    assert(out@ =~= i16_samples(input@));
    out
}

/// Appends `frame` to `out` as 16-bit little-endian.
pub fn pcm_i16_to_le(frame: &[i16], out: &mut Vec<u8>)
    ensures
        final(out)@ == old(out)@ + pcm_le(frame@),
{
    let mut i: usize = 0;
    assert(frame@.take(0) =~= Seq::<i16>::empty());
    assert(out@ =~= old(out)@ + pcm_le(frame@.take(0)));
    while i < frame.len()
        invariant
            i <= frame@.len(),
            out@ == old(out)@ + pcm_le(frame@.take(i as int)),
        decreases frame@.len() - i,
    {
        let sample: i16 = frame[i];
        let bits: i32 = if sample >= 0 {
            sample as i32
        } else {
            sample as i32 + 65536
        };
        push_le(out, bits as u64, 2);
        let ghost next = frame@.take(i + 1);
        assert(next.drop_last() =~= frame@.take(i as int));
        assert(out@ =~= old(out)@ + pcm_le(next));
        i = i + 1;
    }
    assert(frame@.take(i as int) =~= frame@);
}

/// Replaces `out` by the redundant copy of `frame` that the next packet carries.
pub fn encode_pcm_s16le_stereo_fec(frame: &[i16], out: &mut Vec<u8>)
    ensures
        final(out)@ == pcm_le(frame@),
{
    out.clear();
    pcm_i16_to_le(frame, out);
    assert(out@ =~= pcm_le(frame@));
}

/// Drops the first `count` elements, all of them where there are no more.
pub fn consume_prefix<T: Copy>(samples: &mut Vec<T>, count: usize)
    ensures
        final(samples)@ == (if count >= old(samples)@.len() {
            Seq::empty()
        } else {
            old(samples)@.skip(count as int)
        }),
{
    if count >= samples.len() {
        samples.clear();
        return;
    }
    let total: usize = samples.len();
    let keep: usize = total - count;
    let mut i: usize = 0;
    while i < keep
        invariant
            i <= keep,
            keep + count == total,
            total == old(samples)@.len(),
            samples@.len() == old(samples)@.len(),
            forall|j: int| 0 <= j < i ==> samples@[j] == old(samples)@[j + count],
            forall|j: int| i <= j < samples@.len() ==> samples@[j] == old(samples)@[j],
        decreases keep - i,
    {
        let moved: T = samples[i + count];
        samples.set(i, moved);
        i = i + 1;
    }
    samples.truncate(keep);
    assert(samples@ =~= old(samples)@.skip(count as int));
}

/// A frame takes two bytes per sample.
pub proof fn pcm_le_len(frame: Seq<i16>)
    ensures
        pcm_le(frame).len() == 2 * frame.len(),
    decreases frame.len(),
{
    if frame.len() > 0 {
        pcm_le_len(frame.drop_last());
        crate::bytes::le_bytes_len(i16_bits(frame.last()), 2);
    }
}

/// Reading the bytes of a frame gives the frame back.
pub proof fn i16_samples_of_pcm_le(frame: Seq<i16>)
    ensures
        i16_samples(pcm_le(frame)) == frame,
    decreases frame.len(),
{
    pcm_le_len(frame);
    if frame.len() > 0 {
        let init = frame.drop_last();
        let last = frame.last();
        i16_samples_of_pcm_le(init);
        pcm_le_len(init);
        byte_ranges();
        crate::bytes::le_value_of_le_bytes(i16_bits(last), 2);
        let whole = pcm_le(frame);
        let head = pcm_le(init);
        assert forall|i: int| 0 <= i < frame.len() implies sample_at(whole, 2 * i, 2) as i16
            == frame[i] by {
            if i < init.len() {
                assert(whole.subrange(2 * i, 2 * i + 2) =~= head.subrange(2 * i, 2 * i + 2));
                assert(i16_samples(head)[i] == init[i]);
            } else {
                assert(whole.subrange(2 * i, 2 * i + 2) =~= i16_le(last));
            }
        }
    }
    assert(i16_samples(pcm_le(frame)) =~= frame);
}

} // verus!
