//! Layout of a UDP audio packet: a fixed header, the frame, and the frame of
//! the packet before it.

use crate::audio_protocol::{
    UDP_PACKET_FEC_CODEC_NONE, UDP_PACKET_FEC_CODEC_PCM_S16LE_STEREO, UDP_PACKET_HEADER_BYTES,
    UDP_PACKET_MAGIC, UDP_PACKET_VERSION,
};
use crate::bytes::{byte_range, le_bytes, le_bytes_len, le_value, le_value_of_le_bytes, push_le};
use vstd::prelude::*;

verus! {

/// The fixed part that opens the header, up to the flags.
pub open spec fn preamble(flags: u16) -> Seq<u8> {
    UDP_PACKET_MAGIC@ + seq![UDP_PACKET_VERSION, UDP_PACKET_HEADER_BYTES as u8] + le_bytes(
        flags as nat,
        2,
    )
}

/// The twelve bytes that describe the redundant data: its sequence number,
/// its codec, a zero byte and its length.
pub open spec fn fec_fields(fec: Option<(u64, Seq<u8>)>) -> Seq<u8> {
    match fec {
        Some((sequence, payload)) => le_bytes(sequence as nat, 8)
            + seq![UDP_PACKET_FEC_CODEC_PCM_S16LE_STEREO, 0u8] + le_bytes(payload.len(), 2),
        None => le_bytes(0, 8) + seq![UDP_PACKET_FEC_CODEC_NONE, 0u8] + le_bytes(0, 2),
    }
}

/// The packet header. `sent_at` is zero until the packet is stamped.
pub open spec fn header(
    sequence: u64,
    timestamp_samples: u64,
    flags: u16,
    sent_at: u64,
    primary_bytes: nat,
    fec: Option<(u64, Seq<u8>)>,
) -> Seq<u8> {
    preamble(flags) + le_bytes(sequence as nat, 8) + le_bytes(timestamp_samples as nat, 8)
        + le_bytes(sent_at as nat, 8) + le_bytes(primary_bytes, 4) + fec_fields(fec)
}

/// A whole packet: header, frame, and the redundant frame where there is one.
pub open spec fn packet(
    sequence: u64,
    timestamp_samples: u64,
    flags: u16,
    sent_at: u64,
    primary: Seq<u8>,
    fec: Option<(u64, Seq<u8>)>,
) -> Seq<u8> {
    header(sequence, timestamp_samples, flags, sent_at, primary.len(), fec) + primary + match fec {
        Some((_, payload)) => payload,
        None => Seq::empty(),
    }
}

/// The number in the `width` bytes at `at`.
pub open spec fn field(bytes: Seq<u8>, at: int, width: int) -> nat {
    le_value(bytes.subrange(at, at + width))
}

/// `bytes` with the send time in its place.
pub open spec fn stamped(bytes: Seq<u8>, sent_at: u64) -> Seq<u8> {
    bytes.take(24) + le_bytes(sent_at as nat, 8) + bytes.skip(32)
}

/// The view of an optional redundant frame.
pub open spec fn fec_view(fec: Option<(u64, &[u8])>) -> Option<(u64, Seq<u8>)> {
    match fec {
        Some((sequence, payload)) => Some((sequence, payload@)),
        None => None,
    }
}

/// Replaces `out` by the header of a packet with `primary_samples` samples and
/// the given redundant frame. Lengths that do not fit their field lose their
/// high bytes.
pub fn write_udp_packet_header(
    sequence: u64,
    timestamp_samples: u64,
    flags: u16,
    primary_samples: usize,
    fec: Option<(u64, &[u8])>,
    out: &mut Vec<u8>,
)
    requires
        2 * primary_samples <= usize::MAX,
    ensures
        final(out)@ == header(
            sequence,
            timestamp_samples,
            flags,
            0,
            2 * primary_samples as nat,
            fec_view(fec),
        ),
{
    out.clear();
    out.push(UDP_PACKET_MAGIC[0]);
    out.push(UDP_PACKET_MAGIC[1]);
    out.push(UDP_PACKET_MAGIC[2]);
    out.push(UDP_PACKET_MAGIC[3]);
    out.push(UDP_PACKET_VERSION);
    out.push(UDP_PACKET_HEADER_BYTES as u8);
    push_le(out, flags as u64, 2);
    assert(out@ =~= preamble(flags));
    push_le(out, sequence, 8);
    push_le(out, timestamp_samples, 8);
    push_le(out, 0, 8);
    push_le(out, (2 * primary_samples) as u64, 4);
    let ghost fixed = out@;
    match fec {
        Some((fec_sequence, fec_payload)) => {
            push_le(out, fec_sequence, 8);
            out.push(UDP_PACKET_FEC_CODEC_PCM_S16LE_STEREO);
            out.push(0);
            push_le(out, fec_payload.len() as u64, 2);
        },
        None => {
            push_le(out, 0, 8);
            out.push(UDP_PACKET_FEC_CODEC_NONE);
            out.push(0);
            push_le(out, 0, 2);
        },
    }
    assert(out@ =~= fixed + fec_fields(fec_view(fec)));
}

/// Writes the send time into a packet and leaves every other byte as it is.
pub fn write_udp_packet_sent_at(packet: &mut Vec<u8>, sent_at: u64)
    requires
        old(packet)@.len() >= 32,
    ensures
        final(packet)@ == stamped(old(packet)@, sent_at),
{
    let mut stamp: Vec<u8> = Vec::new();
    push_le(&mut stamp, sent_at, 8);
    proof {
        le_bytes_len(sent_at as nat, 8);
    }
    let mut i: usize = 0;
    while i < 8
        invariant
            i <= 8,
            stamp@ == le_bytes(sent_at as nat, 8),
            stamp@.len() == 8,
            packet@.len() == old(packet)@.len(),
            packet@.len() >= 32,
            forall|j: int| 0 <= j < packet@.len() ==> packet@[j] == (if 24 <= j < 24 + i {
                stamp@[j - 24]
            } else {
                old(packet)@[j]
            }),
        decreases 8 - i,
    {
        let byte: u8 = stamp[i];
        packet.set(24 + i, byte);
        i = i + 1;
    }
    assert(packet@ =~= stamped(old(packet)@, sent_at));
}

proof fn fec_fields_len(fec: Option<(u64, Seq<u8>)>)
    ensures
        fec_fields(fec).len() == 12,
{
    match fec {
        Some((sequence, payload)) => {
            le_bytes_len(sequence as nat, 8);
            le_bytes_len(payload.len(), 2);
        },
        None => {
            le_bytes_len(0, 8);
            le_bytes_len(0, 2);
        },
    }
}

/// The header always takes the length that its own length byte gives.
pub proof fn header_len(
    sequence: u64,
    timestamp_samples: u64,
    flags: u16,
    sent_at: u64,
    primary_bytes: nat,
    fec: Option<(u64, Seq<u8>)>,
)
    ensures
        header(sequence, timestamp_samples, flags, sent_at, primary_bytes, fec).len()
            == UDP_PACKET_HEADER_BYTES,
{
    le_bytes_len(flags as nat, 2);
    le_bytes_len(sequence as nat, 8);
    le_bytes_len(timestamp_samples as nat, 8);
    le_bytes_len(sent_at as nat, 8);
    le_bytes_len(primary_bytes, 4);
    fec_fields_len(fec);
}

/// Stamping a packet changes the send time that it states and nothing else, so
/// a packet that is sent again keeps its sequence number and timestamp.
pub proof fn stamped_packet(
    sequence: u64,
    timestamp_samples: u64,
    flags: u16,
    before: u64,
    sent_at: u64,
    primary: Seq<u8>,
    fec: Option<(u64, Seq<u8>)>,
)
    ensures
        stamped(packet(sequence, timestamp_samples, flags, before, primary, fec), sent_at)
            == packet(sequence, timestamp_samples, flags, sent_at, primary, fec),
{
    header_len(sequence, timestamp_samples, flags, before, primary.len(), fec);
    header_len(sequence, timestamp_samples, flags, sent_at, primary.len(), fec);
    le_bytes_len(flags as nat, 2);
    le_bytes_len(sequence as nat, 8);
    le_bytes_len(timestamp_samples as nat, 8);
    le_bytes_len(before as nat, 8);
    le_bytes_len(sent_at as nat, 8);
    le_bytes_len(primary.len(), 4);
    assert(stamped(packet(sequence, timestamp_samples, flags, before, primary, fec), sent_at)
        =~= packet(sequence, timestamp_samples, flags, sent_at, primary, fec));
}

/// A receiver reads out of a packet what the sender put into it: the fixed
/// bytes, every header field, the frame and the redundant frame.
pub proof fn packet_fields(
    sequence: u64,
    timestamp_samples: u64,
    flags: u16,
    sent_at: u64,
    primary: Seq<u8>,
    fec: Option<(u64, Seq<u8>)>,
)
    requires
        primary.len() <= u32::MAX,
        fec matches Some(f) ==> f.1.len() <= u16::MAX,
    ensures
        ({
            let p = packet(sequence, timestamp_samples, flags, sent_at, primary, fec);
            let fec_payload = match fec {
                Some((_, payload)) => payload,
                None => Seq::empty(),
            };
            &&& p.len() == UDP_PACKET_HEADER_BYTES + primary.len() + fec_payload.len()
            &&& p.take(4) == UDP_PACKET_MAGIC@
            &&& p[4] == UDP_PACKET_VERSION
            &&& p[5] == UDP_PACKET_HEADER_BYTES
            &&& field(p, 6, 2) == flags
            &&& field(p, 8, 8) == sequence
            &&& field(p, 16, 8) == timestamp_samples
            &&& field(p, 24, 8) == sent_at
            &&& field(p, 32, 4) == primary.len()
            &&& field(p, 36, 8) == (match fec {
                Some((fec_sequence, _)) => fec_sequence,
                None => 0,
            })
            &&& p[44] == (match fec {
                Some(_) => UDP_PACKET_FEC_CODEC_PCM_S16LE_STEREO,
                None => UDP_PACKET_FEC_CODEC_NONE,
            })
            &&& p[45] == 0
            &&& field(p, 46, 2) == fec_payload.len()
            &&& p.subrange(48, 48int + primary.len()) == primary
            &&& p.skip(48int + primary.len()) == fec_payload
        }),
{
    let p = packet(sequence, timestamp_samples, flags, sent_at, primary, fec);
    let fec_payload = match fec {
        Some((_, payload)) => payload,
        None => Seq::empty(),
    };
    let fec_sequence = match fec {
        Some((fec_sequence, _)) => fec_sequence,
        None => 0,
    };
    reveal_with_fuel(byte_range, 9);
    header_len(sequence, timestamp_samples, flags, sent_at, primary.len(), fec);
    fec_fields_len(fec);
    le_value_of_le_bytes(flags as nat, 2);
    le_value_of_le_bytes(sequence as nat, 8);
    le_value_of_le_bytes(timestamp_samples as nat, 8);
    le_value_of_le_bytes(sent_at as nat, 8);
    le_value_of_le_bytes(primary.len(), 4);
    le_value_of_le_bytes(fec_sequence as nat, 8);
    le_value_of_le_bytes(fec_payload.len(), 2);
    assert(p.take(4) =~= UDP_PACKET_MAGIC@);
    assert(p.subrange(6, 8) =~= le_bytes(flags as nat, 2));
    assert(p.subrange(8, 16) =~= le_bytes(sequence as nat, 8));
    assert(p.subrange(16, 24) =~= le_bytes(timestamp_samples as nat, 8));
    assert(p.subrange(24, 32) =~= le_bytes(sent_at as nat, 8));
    assert(p.subrange(32, 36) =~= le_bytes(primary.len(), 4));
    let f = fec_fields(fec);
    assert(f.subrange(0, 8) =~= le_bytes(fec_sequence as nat, 8));
    assert(f.subrange(10, 12) =~= le_bytes(fec_payload.len(), 2));
    assert(p.subrange(36, 44) =~= f.subrange(0, 8));
    assert(p[44] == f[8]);
    assert(p[45] == f[9]);
    assert(p.subrange(46, 48) =~= f.subrange(10, 12));
    assert(p.subrange(48, 48int + primary.len()) =~= primary);
    assert(p.skip(48int + primary.len()) =~= fec_payload);
}

} // verus!
