//! What the packets of one stream say together.

use crate::audio_protocol::{CHANNELS, FRAME_MS, SAMPLE_RATE, UDP_PACKET_HEADER_BYTES};
use crate::packet::{field, packet, packet_fields, stamped, stamped_packet};
use crate::pcm::{i16_samples, i16_samples_of_pcm_le, pcm_le, pcm_le_len};
use crate::sender::{
    offered, send_next, SendActionView, SendEvent, SendStage, SendState, SenderView,
};
use vstd::prelude::*;

verus! {

/// Samples per channel in every packet.
pub open spec fn per_channel() -> nat {
    (SAMPLE_RATE * FRAME_MS / 1000) as nat
}

/// Interleaved samples in every packet.
pub open spec fn per_packet() -> nat {
    per_channel() * CHANNELS as nat
}

/// `n` as a counter of 64 bits shows it.
pub open spec fn wrapped(n: nat) -> u64 {
    (n % 0x1_0000_0000_0000_0000) as u64
}

/// The samples of packet `k` of a stream.
pub open spec fn frame(stream: Seq<i16>, k: nat) -> Seq<i16> {
    stream.subrange((k * per_packet()) as int, ((k + 1) * per_packet()) as int)
}

/// Sequence number and bytes of the frame that packet `k` repeats.
pub open spec fn repeated(stream: Seq<i16>, k: nat) -> Option<(u64, Seq<u8>)> {
    if k == 0 {
        None
    } else {
        Some((wrapped((k - 1) as nat), pcm_le(frame(stream, (k - 1) as nat))))
    }
}

/// Packet `k` of a stream, before it is stamped.
pub open spec fn nth_packet(stream: Seq<i16>, k: nat) -> Seq<u8> {
    packet(
        wrapped(k),
        wrapped(k * per_channel()),
        0,
        0,
        pcm_le(frame(stream, k)),
        repeated(stream, k),
    )
}

proof fn wrapped_sum(n: nat, more: u64)
    ensures
        wrapped(n).wrapping_add(more) == wrapped(n + more as nat),
{
}

/// The sender has been given `stream` so far and has made `k` packets of it.
pub open spec fn on_stream(sender: SenderView, stream: Seq<i16>, k: nat) -> bool {
    &&& k * per_packet() <= stream.len()
    &&& sender.carried == 0
    &&& sender.pending == stream.skip((k * per_packet()) as int)
    &&& sender.sequence == wrapped(k)
    &&& sender.timestamp_samples == wrapped(k * per_channel())
    &&& sender.previous == repeated(stream, k)
}

/// A new sender is at the start of the empty stream.
pub proof fn stream_starts(sender: SenderView)
    requires
        sender == (SenderView {
            pending: Seq::empty(),
            carried: 0,
            sequence: 0,
            timestamp_samples: 0,
            previous: None,
        }),
    ensures
        on_stream(sender, Seq::empty(), 0),
{
    assert(Seq::<i16>::empty().skip(0) =~= Seq::<i16>::empty());
}

/// Samples that are pushed extend the stream; the packets made of it stay as they were.
pub proof fn stream_grows(sender: SenderView, stream: Seq<i16>, k: nat, more: Seq<i16>)
    requires
        on_stream(sender, stream, k),
    ensures
        on_stream(sender.pushed(more), stream + more, k),
        forall|j: nat|
            #![trigger nth_packet(stream, j)]
            j < k ==> nth_packet(stream + more, j) == nth_packet(stream, j),
{
    let longer = stream + more;
    let at = (k * per_packet()) as int;
    assert(longer.skip(at) =~= stream.skip(at) + more);
    assert forall|j: nat| j < k implies #[trigger] frame(longer, j) == frame(stream, j) by {
        assert((j + 1) * 960 <= k * 960) by (nonlinear_arith)
            requires
                j < k,
        ;
        assert(frame(longer, j) =~= frame(stream, j));
    }
    if k > 0 {
        assert(frame(longer, (k - 1) as nat) == frame(stream, (k - 1) as nat));
    }
    assert forall|j: nat| #![trigger nth_packet(stream, j)] j < k implies nth_packet(longer, j)
        == nth_packet(stream, j) by {
        assert(frame(longer, j) == frame(stream, j));
        if j > 0 {
            assert(frame(longer, (j - 1) as nat) == frame(stream, (j - 1) as nat));
        }
    }
}

/// The sender makes packet `k` exactly when the stream holds all its samples,
/// whatever pieces they came in; its number, its time, its frame and the frame
/// it repeats are those of packet `k`. Until then nothing changes.
pub proof fn stream_advances(sender: SenderView, stream: Seq<i16>, k: nat)
    requires
        on_stream(sender, stream, k),
    ensures
        sender.pending.len() >= sender.frame_len() <==> (k + 1) * per_packet() <= stream.len(),
        (k + 1) * per_packet() <= stream.len() ==> {
            &&& sender.next_packet() == nth_packet(stream, k)
            &&& on_stream(sender.advanced(), stream, k + 1)
        },
        (k + 1) * per_packet() > stream.len() ==> on_stream(
            (SenderView {
                carried: crate::sender::due_millisamples(sender.carried) % 1000,
                ..sender
            }),
            stream,
            k,
        ),
{
    assert((k + 1) * 960 == k * 960 + 960) by (nonlinear_arith);
    assert((k + 1) * 480 == k * 480 + 480) by (nonlinear_arith);
    assert(sender.frame_len() == per_packet());
    if (k + 1) * per_packet() <= stream.len() {
        let at = (k * per_packet()) as int;
        assert(sender.pending.take(960) =~= frame(stream, k));
        assert(sender.pending.skip(960) =~= stream.skip(((k + 1) * per_packet()) as int));
        wrapped_sum(k, 1);
        wrapped_sum(k * per_channel(), 480);
    }
}

/// The packets that a sender makes of what is pending, and the sender after them.
pub open spec fn drained(sender: SenderView) -> (SenderView, Seq<Seq<u8>>)
    decreases sender.pending.len(),
{
    match offered(sender) {
        (next, Some(packet)) => {
            let (end, rest) = drained(next);
            (end, seq![packet] + rest)
        },
        (next, None) => (next, Seq::empty()),
    }
}

/// All samples of a row of chunks.
pub open spec fn joined(chunks: Seq<Seq<i16>>) -> Seq<i16>
    decreases chunks.len(),
{
    if chunks.len() == 0 {
        Seq::empty()
    } else {
        joined(chunks.drop_last()) + chunks.last()
    }
}

/// The sender of a stream after a row of chunks, and the packets it made of them.
pub open spec fn sent(chunks: Seq<Seq<i16>>) -> (SenderView, Seq<Seq<u8>>)
    decreases chunks.len(),
{
    if chunks.len() == 0 {
        (
            SenderView {
                pending: Seq::empty(),
                carried: 0,
                sequence: 0,
                timestamp_samples: 0,
                previous: None,
            },
            Seq::empty(),
        )
    } else {
        let (sender, packets) = sent(chunks.drop_last());
        let (end, more) = drained(sender.pushed(chunks.last()));
        (end, packets + more)
    }
}

proof fn drained_is_stream(sender: SenderView, stream: Seq<i16>, k: nat)
    requires
        on_stream(sender, stream, k),
    ensures
        k <= stream.len() / per_packet(),
        on_stream(drained(sender).0, stream, stream.len() / per_packet()),
        drained(sender).1 == Seq::new(
            (stream.len() / per_packet() - k) as nat,
            |j: int| nth_packet(stream, (k + j) as nat),
        ),
    decreases sender.pending.len(),
{
    stream_advances(sender, stream, k);
    let all = stream.len() / per_packet();
    let expected = Seq::new((all - k) as nat, |j: int| nth_packet(stream, (k + j) as nat));
    assert((k + 1) * 960 == k * 960 + 960) by (nonlinear_arith);
    assert(per_packet() == 960);
    if (k + 1) * per_packet() <= stream.len() {
        assert(offered(sender) == (sender.advanced(), Some(nth_packet(stream, k))));
        drained_is_stream(sender.advanced(), stream, k + 1);
        let rest = drained(sender.advanced()).1;
        assert(drained(sender).1 =~= seq![nth_packet(stream, k)] + rest);
        assert(drained(sender).1 =~= expected);
    } else {
        assert(all == k);
        assert(drained(sender).1 =~= expected);
    }
}

proof fn sent_is_stream(chunks: Seq<Seq<i16>>)
    ensures
        ({
            let stream = joined(chunks);
            let n = stream.len() / per_packet();
            &&& on_stream(sent(chunks).0, stream, n)
            &&& sent(chunks).1 == Seq::new(n, |k: int| nth_packet(stream, k as nat))
        }),
    decreases chunks.len(),
{
    let stream = joined(chunks);
    let n = stream.len() / per_packet();
    let expected = Seq::new(n, |k: int| nth_packet(stream, k as nat));
    if chunks.len() == 0 {
        stream_starts(sent(chunks).0);
        assert(sent(chunks).1 =~= expected);
    } else {
        let before = chunks.drop_last();
        let head = joined(before);
        let m = head.len() / per_packet();
        let (sender, packets) = sent(before);
        sent_is_stream(before);
        stream_grows(sender, head, m, chunks.last());
        drained_is_stream(sender.pushed(chunks.last()), stream, m);
        assert forall|k: int| 0 <= k < m implies packets[k] == expected[k] by {
            assert(nth_packet(stream, k as nat) == nth_packet(head, k as nat));
        }
        assert(sent(chunks).1 =~= expected);
    }
}

/// However the captured audio is cut into chunks, the packets are those of the
/// stream as a whole: every whole frame goes out once, in order, and nothing
/// but the rest that fills no frame is held back.
pub proof fn chunks_make_one_stream(chunks: Seq<Seq<i16>>)
    ensures
        ({
            let stream = joined(chunks);
            let n = stream.len() / per_packet();
            &&& sent(chunks).1 == Seq::new(n, |k: int| nth_packet(stream, k as nat))
            &&& sent(chunks).0.pending == stream.skip((n * per_packet()) as int)
            &&& sent(chunks).0.pending.len() < per_packet()
        }),
{
    sent_is_stream(chunks);
    let n = joined(chunks).len() / per_packet();
    assert(per_packet() == 960);
    assert(n * 960 <= joined(chunks).len() < n * 960 + 960);
}

/// A receiver finds in packet `k`, stamped at any time, its number and time,
/// and reads the samples of frame `k` out of it.
pub proof fn packet_holds_frame(stream: Seq<i16>, k: nat, sent_at: u64)
    requires
        (k + 1) * per_packet() <= stream.len(),
    ensures
        ({
            let p = stamped(nth_packet(stream, k), sent_at);
            let len = field(p, 32, 4);
            &&& field(p, 8, 8) == wrapped(k)
            &&& field(p, 16, 8) == wrapped(k * per_channel())
            &&& field(p, 24, 8) == sent_at
            &&& len == 2 * per_packet()
            &&& i16_samples(p.subrange(48, 48 + len as int)) == frame(stream, k)
        }),
{
    packet_facts(stream, k, sent_at);
}

/// A receiver that lost packet `k` reads its samples, unchanged, out of packet
/// `k + 1`, which also says that they are those of packet `k`.
pub proof fn next_packet_repairs_loss(stream: Seq<i16>, k: nat, sent_at: u64)
    requires
        (k + 2) * per_packet() <= stream.len(),
    ensures
        ({
            let p = stamped(nth_packet(stream, k + 1), sent_at);
            let at = UDP_PACKET_HEADER_BYTES + field(p, 32, 4);
            &&& field(p, 36, 8) == wrapped(k)
            &&& p[44] == crate::audio_protocol::UDP_PACKET_FEC_CODEC_PCM_S16LE_STEREO
            &&& p.len() == at + field(p, 46, 2)
            &&& i16_samples(p.skip(at)) == frame(stream, k)
        }),
{
    packet_facts(stream, k + 1, sent_at);
    assert((k + 2) * 960 == (k + 1) * 960 + 960) by (nonlinear_arith);
    assert((k + 1) * 960 == k * 960 + 960) by (nonlinear_arith);
    i16_samples_of_pcm_le(frame(stream, k));
    pcm_le_len(frame(stream, k));
}

proof fn packet_facts(stream: Seq<i16>, k: nat, sent_at: u64)
    requires
        (k + 1) * per_packet() <= stream.len(),
    ensures
        ({
            let p = stamped(nth_packet(stream, k), sent_at);
            let len = field(p, 32, 4);
            &&& field(p, 8, 8) == wrapped(k)
            &&& field(p, 16, 8) == wrapped(k * per_channel())
            &&& field(p, 24, 8) == sent_at
            &&& len == 2 * per_packet()
            &&& i16_samples(p.subrange(48, 48 + len as int)) == frame(stream, k)
            &&& k > 0 ==> {
                &&& field(p, 36, 8) == wrapped((k - 1) as nat)
                &&& p[44] == crate::audio_protocol::UDP_PACKET_FEC_CODEC_PCM_S16LE_STEREO
                &&& field(p, 46, 2) == 2 * per_packet()
                &&& p.skip(48 + len as int) == pcm_le(frame(stream, (k - 1) as nat))
                &&& p.len() == 48 + len + 2 * per_packet()
            }
        }),
{
    let primary = pcm_le(frame(stream, k));
    assert((k + 1) * 960 == k * 960 + 960) by (nonlinear_arith);
    pcm_le_len(frame(stream, k));
    i16_samples_of_pcm_le(frame(stream, k));
    if k > 0 {
        assert(k * 960 == (k - 1) * 960 + 960) by (nonlinear_arith);
        pcm_le_len(frame(stream, (k - 1) as nat));
    }
    stamped_packet(
        wrapped(k),
        wrapped(k * per_channel()),
        0,
        0,
        sent_at,
        primary,
        repeated(stream, k),
    );
    packet_fields(
        wrapped(k),
        wrapped(k * per_channel()),
        0,
        sent_at,
        primary,
        repeated(stream, k),
    );
}

/// The sender of a stream after a row of events.
pub open spec fn run(start: SendState, events: Seq<SendEvent>) -> SendState
    decreases events.len(),
{
    if events.len() == 0 {
        start
    } else {
        send_next(run(start, events.drop_last()), events.last()).0
    }
}

/// Datagrams that were to be sent in the course of a row of events.
pub open spec fn attempted(start: SendState, events: Seq<SendEvent>) -> nat
    decreases events.len(),
{
    if events.len() == 0 {
        0
    } else {
        let before = attempted(start, events.drop_last());
        let action = send_next(run(start, events.drop_last()), events.last()).1;
        if action is Send || action is SendAgain {
            before + 1
        } else {
            before
        }
    }
}

/// Datagrams that went out in the course of a row of events.
pub open spec fn gone_out(start: SendState, events: Seq<SendEvent>) -> nat
    decreases events.len(),
{
    if events.len() == 0 {
        0
    } else {
        let before = gone_out(start, events.drop_last());
        if run(start, events.drop_last()).stage is Sending && events.last() is Sent {
            before + 1
        } else {
            before
        }
    }
}

/// The samples that the sender took in, in the course of a row of events.
pub open spec fn heard(start: SendState, events: Seq<SendEvent>) -> Seq<i16>
    decreases events.len(),
{
    if events.len() == 0 {
        Seq::empty()
    } else {
        let before = heard(start, events.drop_last());
        match events.last() {
            SendEvent::Samples { samples } if run(
                start,
                events.drop_last(),
            ).stage is Receiving => before + samples@,
            _ => before,
        }
    }
}

/// The packets that were to be sent, in the course of a row of events, without
/// their copies.
pub open spec fn packets(start: SendState, events: Seq<SendEvent>) -> Seq<Seq<u8>>
    decreases events.len(),
{
    if events.len() == 0 {
        Seq::empty()
    } else {
        let before = packets(start, events.drop_last());
        match send_next(run(start, events.drop_last()), events.last()).1 {
            SendActionView::Send { packet } => before.push(packet),
            _ => before,
        }
    }
}

/// A datagram is attempted only after the one before it went out: at most one is
/// on its way.
pub proof fn one_datagram_at_a_time(start: SendState, events: Seq<SendEvent>)
    requires
        start.stage is Binding,
    ensures
        match run(start, events).stage {
            SendStage::Sending { .. } => attempted(start, events) == gone_out(start, events) + 1,
            SendStage::Ended => gone_out(start, events) <= attempted(start, events) <= gone_out(
                start,
                events,
            ) + 1,
            _ => attempted(start, events) == gone_out(start, events),
        },
    decreases events.len(),
{
    if events.len() > 0 {
        one_datagram_at_a_time(start, events.drop_last());
    }
}

proof fn end_is_final(start: SendState, events: Seq<SendEvent>, later: Seq<SendEvent>)
    requires
        run(start, events).stage is Ended,
    ensures
        run(start, events + later) == run(start, events),
        attempted(start, events + later) == attempted(start, events),
        gone_out(start, events + later) == gone_out(start, events),
    decreases later.len(),
{
    if later.len() == 0 {
        assert(events + later =~= events);
    } else {
        end_is_final(start, events, later.drop_last());
        assert((events + later).drop_last() =~= events + later.drop_last());
    }
}

/// A socket that cannot be bound ends the stream with the reason: nothing is sent,
/// then or later, and the counters stay as they were.
pub proof fn failed_bind_changes_nothing(
    start: SendState,
    message: String,
    later: Seq<SendEvent>,
)
    requires
        start.stage is Binding,
    ensures
        send_next(start, SendEvent::BindFailed { message }).1 == (SendActionView::Failed {
            message: message@,
        }),
        ({
            let events = seq![SendEvent::BindFailed { message }] + later;
            &&& run(start, events).stage is Ended
            &&& run(start, events).stats == start.stats
            &&& attempted(start, events) == 0
            &&& gone_out(start, events) == 0
        }),
{
    let first = seq![SendEvent::BindFailed { message }];
    assert(first.drop_last() =~= Seq::<SendEvent>::empty());
    reveal_with_fuel(run, 2);
    reveal_with_fuel(attempted, 2);
    reveal_with_fuel(gone_out, 2);
    end_is_final(start, first, later);
}

/// A datagram that cannot be sent ends the stream with the reason: those before it
/// went out, and none is attempted after it.
pub proof fn failed_send_is_the_last(
    start: SendState,
    events: Seq<SendEvent>,
    message: String,
    later: Seq<SendEvent>,
)
    requires
        start.stage is Binding,
        run(start, events).stage is Sending,
    ensures
        send_next(run(start, events), SendEvent::SendFailed { message }).1
            == (SendActionView::Failed {
            message: "Failed to send PCM frame to UDP client: "@ + message@,
        }),
        ({
            let all = events.push(SendEvent::SendFailed { message }) + later;
            &&& run(start, all).stage is Ended
            &&& gone_out(start, all) == gone_out(start, events)
            &&& attempted(start, all) == gone_out(start, events) + 1
        }),
{
    let failed = events.push(SendEvent::SendFailed { message });
    assert(failed.drop_last() =~= events);
    one_datagram_at_a_time(start, events);
    end_is_final(start, failed, later);
}

/// Whatever happens to a sender, its packets are the first of the stream that it
/// took in, in order. Where it waits for more, it has sent every whole frame.
pub proof fn run_sends_the_stream(start: SendState, events: Seq<SendEvent>)
    requires
        start.stage is Binding,
        on_stream(start.sender, Seq::empty(), 0),
    ensures
        ({
            let stream = heard(start, events);
            let made = packets(start, events);
            &&& on_stream(run(start, events).sender, stream, made.len())
            &&& forall|k: int|
                0 <= k < made.len() ==> #[trigger] made[k] == nth_packet(stream, k as nat)
            &&& run(start, events).stage is Receiving || run(start, events).stage is Binding
                ==> (made.len() + 1) * per_packet() > stream.len()
        }),
    decreases events.len(),
{
    assert(per_packet() == 960);
    if events.len() > 0 {
        let head = events.drop_last();
        run_sends_the_stream(start, head);
        let before = run(start, head);
        let stream = heard(start, head);
        let made = packets(start, head);
        let k = made.len();
        assert((k + 1) * 960 == k * 960 + 960) by (nonlinear_arith);
        match (before.stage, events.last()) {
            (SendStage::Receiving, SendEvent::Samples { samples }) => {
                stream_grows(before.sender, stream, k, samples@);
                stream_advances(before.sender.pushed(samples@), stream + samples@, k);
                assert forall|j: int| 0 <= j < k implies made[j] == nth_packet(
                    stream + samples@,
                    j as nat,
                ) by {
                    assert(made[j] == nth_packet(stream, j as nat));
                }
            },
            (SendStage::Sending { .. }, SendEvent::Sent { .. }) => {
                stream_advances(before.sender, stream, k);
            },
            _ => {},
        }
    }
}

} // verus!
