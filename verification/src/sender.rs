//! Cutting the captured stream into packets.

use crate::audio_protocol::{
    CHANNELS, FRAME_MS, SAMPLE_RATE, UDP_PACKET_FEC_ENABLED, UDP_PACKET_SEND_MULTIPLIER,
};
use crate::audio_stats::{
    mark_udp_stream_inactive, record_udp_send_gap, reset_udp_stream, update_udp_send_window,
    AudioStats, StatsView,
};
use crate::packet::{packet, write_udp_packet_header};
use crate::pcm::{consume_prefix, encode_pcm_s16le_stereo_fec, pcm_i16_to_le, pcm_le, pcm_le_len};
use vstd::prelude::*;

verus! {

/// Samples per channel that are due, in thousandths, with `carried` left over before.
pub open spec fn due_millisamples(carried: nat) -> nat {
    (SAMPLE_RATE * FRAME_MS + carried) as nat
}

/// Decides how many samples per channel each packet takes, so that fractions
/// of a sample are not lost.
pub struct FrameSizer {
    carried_samples: u32,
}

impl FrameSizer {
    /// Thousandths of a sample that no packet has taken yet.
    pub closed spec fn carried(self) -> nat {
        self.carried_samples as nat
    }

    /// Less than one sample is carried.
    pub open spec fn wf(self) -> bool {
        self.carried() < 1000
    }

    pub fn new() -> (r: FrameSizer)
        ensures
            r.wf(),
            r.carried() == 0,
    {
        FrameSizer { carried_samples: 0 }
    }

    /// Samples per channel of the next packet.
    pub fn next_frame_samples(&mut self) -> (r: usize)
        requires
            old(self).wf(),
        ensures
            final(self).wf(),
            r == due_millisamples(old(self).carried()) / 1000,
            final(self).carried() == due_millisamples(old(self).carried()) % 1000,
    {
        let total: u32 = SAMPLE_RATE * FRAME_MS + self.carried_samples;
        let samples: u32 = total / 1000;
        self.carried_samples = total % 1000;
        samples as usize
    }
}

/// Samples per channel of the `n` first packets together, and what is then carried.
pub open spec fn sized_total(n: nat) -> (nat, nat)
    decreases n,
{
    if n == 0 {
        (0, 0)
    } else {
        let (samples, carried) = sized_total((n - 1) as nat);
        (samples + due_millisamples(carried) / 1000, due_millisamples(carried) % 1000)
    }
}

/// Packets never drift from real time: `n` of them take the samples of `n`
/// frame durations, rounded down, and the rest is carried.
pub proof fn frames_keep_time(n: nat)
    ensures
        1000 * sized_total(n).0 + sized_total(n).1 == n * (SAMPLE_RATE * FRAME_MS),
        sized_total(n).1 < 1000,
    decreases n,
{
    if n > 0 {
        frames_keep_time((n - 1) as nat);
        assert(n * 480000 == (n - 1) * 480000 + 480000) by (nonlinear_arith);
    }
}

/// What the sender has in hand.
#[verifier::ext_equal]
pub struct SenderView {
    /// Samples that no packet has taken yet.
    pub pending: Seq<i16>,
    /// Left over by the frame sizer.
    pub carried: nat,
    /// Sequence number of the next packet.
    pub sequence: u64,
    /// Timestamp of the next packet, in samples per channel.
    pub timestamp_samples: u64,
    /// Sequence number and bytes of the last frame that was sent.
    pub previous: Option<(u64, Seq<u8>)>,
}

impl SenderView {
    /// Interleaved samples that the next packet takes.
    pub open spec fn frame_len(self) -> nat {
        (due_millisamples(self.carried) / 1000) * CHANNELS as nat
    }

    /// More captured samples.
    pub open spec fn pushed(self, samples: Seq<i16>) -> SenderView {
        SenderView { pending: self.pending + samples, ..self }
    }

    /// The next packet, not yet stamped, once enough samples are pending.
    pub open spec fn next_packet(self) -> Seq<u8> {
        packet(
            self.sequence,
            self.timestamp_samples,
            0,
            0,
            pcm_le(self.pending.take(self.frame_len() as int)),
            self.previous,
        )
    }

    /// After the next packet.
    pub open spec fn advanced(self) -> SenderView {
        SenderView {
            pending: self.pending.skip(self.frame_len() as int),
            carried: due_millisamples(self.carried) % 1000,
            sequence: self.sequence.wrapping_add(1),
            timestamp_samples: self.timestamp_samples.wrapping_add(
                (self.frame_len() / CHANNELS as nat) as u64,
            ),
            previous: Some((self.sequence, pcm_le(self.pending.take(self.frame_len() as int)))),
        }
    }
}

/// Turns captured samples into packets and keeps the send timing.
/// Times are in nanoseconds on a clock that never goes back.
pub struct PcmSender {
    pending: Vec<i16>,
    frame_sizer: FrameSizer,
    sequence: u64,
    timestamp_samples: u64,
    previous_fec: Vec<u8>,
    previous_fec_sequence: u64,
    has_previous_fec: bool,
    last_send: Option<u64>,
    send_gap_us: u64,
    last_log: u64,
}

/// When packets were sent.
pub struct TimingView {
    pub last_send: Option<u64>,
    pub send_gap_us: u64,
    pub last_log: u64,
}

/// The time from `earlier` to `later`, none where `later` is not later.
pub open spec fn elapsed(later: u64, earlier: u64) -> u64 {
    if later >= earlier {
        (later - earlier) as u64
    } else {
        0
    }
}

/// How often the figures of the send window are published.
pub const WINDOW_NS: u64 = 1_000_000_000;

impl View for PcmSender {
    type V = SenderView;

    closed spec fn view(&self) -> SenderView {
        SenderView {
            pending: self.pending@,
            carried: self.frame_sizer.carried(),
            sequence: self.sequence,
            timestamp_samples: self.timestamp_samples,
            previous: if self.has_previous_fec {
                Some((self.previous_fec_sequence, self.previous_fec@))
            } else {
                None
            },
        }
    }
}

impl PcmSender {
    pub closed spec fn wf(self) -> bool {
        self.frame_sizer.wf()
    }

    pub closed spec fn timing(self) -> TimingView {
        TimingView {
            last_send: self.last_send,
            send_gap_us: self.send_gap_us,
            last_log: self.last_log,
        }
    }

    /// A sender at the start of a stream.
    pub fn new(now_ns: u64) -> (r: PcmSender)
        ensures
            r.wf(),
            r@ == (SenderView {
                pending: Seq::empty(),
                carried: 0,
                sequence: 0,
                timestamp_samples: 0,
                previous: None,
            }),
            r.timing() == (TimingView { last_send: None, send_gap_us: 0, last_log: now_ns }),
    {
        PcmSender {
            pending: Vec::new(),
            frame_sizer: FrameSizer::new(),
            sequence: 0,
            timestamp_samples: 0,
            previous_fec: Vec::new(),
            previous_fec_sequence: 0,
            has_previous_fec: false,
            last_send: None,
            send_gap_us: 0,
            last_log: now_ns,
        }
    }

    /// Takes over captured samples.
    pub fn push_samples(&mut self, samples: Vec<i16>)
        requires
            old(self).wf(),
        ensures
            final(self).wf(),
            final(self)@ == old(self)@.pushed(samples@),
            final(self).timing() == old(self).timing(),
    {
        let mut samples = samples;
        self.pending.append(&mut samples);
    }

    /// The next packet where a whole frame is pending. Each carries the frame
    /// of the packet before it.
    pub fn next_packet(&mut self) -> (r: Option<Vec<u8>>)
        requires
            old(self).wf(),
        ensures
            final(self).wf(),
            final(self).timing() == old(self).timing(),
            r is Some <==> old(self)@.pending.len() >= old(self)@.frame_len(),
            match r {
                Some(bytes) => {
                    &&& bytes@ == old(self)@.next_packet()
                    &&& final(self)@ == old(self)@.advanced()
                },
                None => final(self)@ == (SenderView {
                    carried: due_millisamples(old(self)@.carried) % 1000,
                    ..old(self)@
                }),
            },
    {
        let frame_samples: usize = self.frame_sizer.next_frame_samples() * CHANNELS;
        if self.pending.len() < frame_samples {
            return None;
        }
        let mut bytes: Vec<u8> = Vec::new();
        let frame: &[i16] = vstd::slice::slice_subrange(self.pending.as_slice(), 0, frame_samples);
        let ghost frame_view = old(self)@.pending.take(frame_samples as int);
        assert(frame@ =~= frame_view);
        let fec: Option<(u64, &[u8])> = if UDP_PACKET_FEC_ENABLED && self.has_previous_fec {
            Some((self.previous_fec_sequence, self.previous_fec.as_slice()))
        } else {
            None
        };
        proof {
            pcm_le_len(frame_view);
        }
        write_udp_packet_header(
            self.sequence,
            self.timestamp_samples,
            0,
            frame.len(),
            fec,
            &mut bytes,
        );
        pcm_i16_to_le(frame, &mut bytes);
        if let Some((_, fec_payload)) = fec {
            bytes.extend_from_slice(fec_payload);
        }
        assert(bytes@ =~= old(self)@.next_packet());
        if UDP_PACKET_FEC_ENABLED {
            let mut previous: Vec<u8> = Vec::new();
            encode_pcm_s16le_stereo_fec(frame, &mut previous);
            self.previous_fec = previous;
            self.previous_fec_sequence = self.sequence;
            self.has_previous_fec = true;
        }
        consume_prefix(&mut self.pending, frame_samples);
        assert(self.pending@ =~= old(self)@.pending.skip(frame_samples as int));
        self.sequence = self.sequence.wrapping_add(1);
        self.timestamp_samples = self.timestamp_samples.wrapping_add(
            (frame_samples / CHANNELS) as u64,
        );
        Some(bytes)
    }

    /// Notes that a packet was sent at `now_ns`, and the gap since the one before it.
    pub fn packet_sent(&mut self, now_ns: u64, stats: &mut AudioStats)
        requires
            old(self).wf(),
        ensures
            final(self).wf(),
            final(self)@ == old(self)@,
            match old(self).timing().last_send {
                Some(last) => {
                    let gap_us = elapsed(now_ns, last) / 1000;
                    &&& final(self).timing() == (TimingView {
                        last_send: Some(now_ns),
                        send_gap_us: gap_us,
                        ..old(self).timing()
                    })
                    &&& final(stats)@ == old(stats)@.with_send_gap(gap_us)
                },
                None => {
                    &&& final(self).timing() == (TimingView {
                        last_send: Some(now_ns),
                        ..old(self).timing()
                    })
                    &&& final(stats)@ == old(stats)@
                },
            },
    {
        if let Some(last) = self.last_send {
            self.send_gap_us = now_ns.saturating_sub(last) / 1000;
            record_udp_send_gap(stats, self.send_gap_us);
        }
        self.last_send = Some(now_ns);
    }

    /// Publishes the current send gap once a second. The window is looked at at
    /// `checked_ns`; the next one begins at `restarted_ns`.
    pub fn publish_window(&mut self, checked_ns: u64, restarted_ns: u64, stats: &mut AudioStats)
        requires
            old(self).wf(),
        ensures
            final(self).wf(),
            final(self)@ == old(self)@,
            if elapsed(checked_ns, old(self).timing().last_log) >= WINDOW_NS {
                &&& final(stats)@ == old(stats)@.with_window(0, old(self).timing().send_gap_us)
                &&& final(self).timing() == (TimingView {
                    last_log: restarted_ns,
                    ..old(self).timing()
                })
            } else {
                &&& final(stats)@ == old(stats)@
                &&& final(self).timing() == old(self).timing()
            },
    {
        if checked_ns.saturating_sub(self.last_log) >= WINDOW_NS {
            update_udp_send_window(stats, 0, self.send_gap_us);
            self.last_log = restarted_ns;
        }
    }
}

/// Where the sender of a stream stands.
#[derive(Clone, Copy, PartialEq, Eq, Structural)]
pub enum SendStage {
    /// The socket is being bound.
    Binding,
    /// The next chunk is awaited.
    Receiving,
    /// A packet is on its way; so many copies of it follow.
    Sending { copies_left: usize },
    Ended,
}

/// What happened to the sender.
pub enum SendEvent {
    /// The socket is there; the stream goes to this address.
    Bound { target_addr: String },
    BindFailed { message: String },
    /// A chunk came out of the pipe.
    Samples { samples: Vec<i16> },
    /// The pipe is empty for good.
    Closed,
    /// The datagram went out at `sent_ns`. The clock was read again for the
    /// window of the figures, and once more for the next one.
    Sent { sent_ns: u64, checked_ns: u64, restarted_ns: u64 },
    SendFailed { message: String },
}

/// What the sender is to do.
pub enum SendAction {
    /// Nothing: the event was not awaited.
    Wait,
    /// Wait for the next chunk.
    Receive,
    /// Stamp the packet and send it.
    Send { packet: Vec<u8> },
    /// Stamp the packet anew and send it once more.
    SendAgain,
    Finished,
    Failed { message: String },
}

/// An action, with the bytes of its packet and the characters of its message.
pub enum SendActionView {
    Wait,
    Receive,
    Send { packet: Seq<u8> },
    SendAgain,
    Finished,
    Failed { message: Seq<char> },
}

impl View for SendAction {
    type V = SendActionView;

    open spec fn view(&self) -> SendActionView {
        match self {
            SendAction::Wait => SendActionView::Wait,
            SendAction::Receive => SendActionView::Receive,
            SendAction::Send { packet } => SendActionView::Send { packet: packet@ },
            SendAction::SendAgain => SendActionView::SendAgain,
            SendAction::Finished => SendActionView::Finished,
            SendAction::Failed { message } => SendActionView::Failed { message: message@ },
        }
    }
}

/// Copies that follow the first sending of a packet.
pub open spec fn copies_after_first() -> nat {
    if UDP_PACKET_SEND_MULTIPLIER >= 1 {
        (UDP_PACKET_SEND_MULTIPLIER - 1) as nat
    } else {
        0
    }
}

/// The next packet where a whole frame is pending, and the sender after it.
pub open spec fn offered(sender: SenderView) -> (SenderView, Option<Seq<u8>>) {
    if sender.pending.len() >= sender.frame_len() {
        (sender.advanced(), Some(sender.next_packet()))
    } else {
        (SenderView { carried: due_millisamples(sender.carried) % 1000, ..sender }, None)
    }
}

/// The timing and the counters after a packet went out with all its copies.
pub open spec fn noted(
    timing: TimingView,
    stats: StatsView,
    sent_ns: u64,
    checked_ns: u64,
    restarted_ns: u64,
) -> (TimingView, StatsView) {
    let (gap_us, counted) = match timing.last_send {
        Some(last) => {
            let gap_us = elapsed(sent_ns, last) / 1000;
            (gap_us, stats.with_send_gap(gap_us))
        },
        None => (timing.send_gap_us, stats),
    };
    if elapsed(checked_ns, timing.last_log) >= WINDOW_NS {
        (
            TimingView { last_send: Some(sent_ns), send_gap_us: gap_us, last_log: restarted_ns },
            counted.with_window(0, gap_us),
        )
    } else {
        (TimingView { last_send: Some(sent_ns), send_gap_us: gap_us, ..timing }, counted)
    }
}

/// The sender of a stream with all that it works on.
pub struct SendState {
    pub stage: SendStage,
    pub sender: SenderView,
    pub timing: TimingView,
    pub stats: StatsView,
}

impl SendState {
    /// The next packet goes out, or the next chunk is awaited.
    pub open spec fn offering(self) -> (SendState, SendActionView) {
        match offered(self.sender) {
            (sender, Some(packet)) => (
                SendState {
                    stage: SendStage::Sending { copies_left: copies_after_first() as usize },
                    sender,
                    ..self
                },
                SendActionView::Send { packet },
            ),
            (sender, None) => (
                SendState { stage: SendStage::Receiving, sender, ..self },
                SendActionView::Receive,
            ),
        }
    }

    pub open spec fn failing(self, message: Seq<char>) -> (SendState, SendActionView) {
        (SendState { stage: SendStage::Ended, ..self }, SendActionView::Failed { message })
    }
}

/// The step after an event. One that is not awaited changes nothing.
pub open spec fn send_next(state: SendState, event: SendEvent) -> (SendState, SendActionView) {
    match (state.stage, event) {
        (SendStage::Binding, SendEvent::Bound { target_addr }) => (
            SendState {
                stage: SendStage::Receiving,
                stats: StatsView {
                    active: true,
                    target_addr: target_addr@,
                    ..state.stats.zeroed()
                },
                ..state
            },
            SendActionView::Receive,
        ),
        (SendStage::Binding, SendEvent::BindFailed { message }) => state.failing(message@),
        (SendStage::Receiving, SendEvent::Samples { samples }) => (SendState {
            sender: state.sender.pushed(samples@),
            ..state
        }).offering(),
        (SendStage::Receiving, SendEvent::Closed) => (
            SendState {
                stage: SendStage::Ended,
                stats: StatsView { active: false, ..state.stats },
                ..state
            },
            SendActionView::Finished,
        ),
        (
            SendStage::Sending { copies_left },
            SendEvent::Sent { sent_ns, checked_ns, restarted_ns },
        ) => if copies_left > 0 {
            (
                SendState {
                    stage: SendStage::Sending { copies_left: (copies_left - 1) as usize },
                    ..state
                },
                SendActionView::SendAgain,
            )
        } else {
            let (timing, stats) = noted(
                state.timing,
                state.stats,
                sent_ns,
                checked_ns,
                restarted_ns,
            );
            (SendState { timing, stats, ..state }).offering()
        },
        (SendStage::Sending { .. }, SendEvent::SendFailed { message }) => state.failing(
            "Failed to send PCM frame to UDP client: "@ + message@,
        ),
        _ => (state, SendActionView::Wait),
    }
}

impl PcmSender {
    /// The sender as part of the state of its stream.
    pub open spec fn state(self, stage: SendStage, stats: StatsView) -> SendState {
        SendState { stage, sender: self@, timing: self.timing(), stats }
    }

    fn offer(&mut self) -> (r: (SendStage, SendAction))
        requires
            old(self).wf(),
        ensures
            final(self).wf(),
            final(self)@ == offered(old(self)@).0,
            final(self).timing() == old(self).timing(),
            match offered(old(self)@).1 {
                Some(packet) => {
                    &&& r.0 == (SendStage::Sending { copies_left: copies_after_first() as usize })
                    &&& r.1@ == (SendActionView::Send { packet })
                },
                None => r.0 is Receiving && r.1 is Receive,
            },
    {
        let again: usize = if UDP_PACKET_SEND_MULTIPLIER >= 1 {
            UDP_PACKET_SEND_MULTIPLIER - 1
        } else {
            0
        };
        match self.next_packet() {
            Some(packet) => (
                SendStage::Sending { copies_left: again },
                SendAction::Send { packet },
            ),
            None => (SendStage::Receiving, SendAction::Receive),
        }
    }
}

/// Begins a stream. Its socket is to be bound first.
pub fn begin_pcm_udp(now_ns: u64) -> (r: (PcmSender, SendStage))
    ensures
        r.0.wf(),
        r.0@ == (SenderView {
            pending: Seq::empty(),
            carried: 0,
            sequence: 0,
            timestamp_samples: 0,
            previous: None,
        }),
        r.0.timing() == (TimingView { last_send: None, send_gap_us: 0, last_log: now_ns }),
        r.1 is Binding,
{
    (PcmSender::new(now_ns), SendStage::Binding)
}

/// Takes the sender of a stream one step on. A socket that cannot be bound leaves
/// the counters alone, a datagram that cannot be sent is the last, and a stream
/// that ends because nothing more comes is no longer active.
pub fn send_pcm_udp(
    sender: &mut PcmSender,
    stage: SendStage,
    event: SendEvent,
    stats: &mut AudioStats,
) -> (r: (SendStage, SendAction))
    requires
        old(sender).wf(),
    ensures
        final(sender).wf(),
        (final(sender).state(r.0, final(stats)@), r.1@) == send_next(
            old(sender).state(stage, old(stats)@),
            event,
        ),
{
    match (stage, event) {
        (SendStage::Binding, SendEvent::Bound { target_addr }) => {
            reset_udp_stream(stats, target_addr.as_str());
            (SendStage::Receiving, SendAction::Receive)
        },
        (SendStage::Binding, SendEvent::BindFailed { message }) => (
            SendStage::Ended,
            SendAction::Failed { message },
        ),
        (SendStage::Receiving, SendEvent::Samples { samples }) => {
            sender.push_samples(samples);
            sender.offer()
        },
        (SendStage::Receiving, SendEvent::Closed) => {
            mark_udp_stream_inactive(stats);
            (SendStage::Ended, SendAction::Finished)
        },
        (
            SendStage::Sending { copies_left },
            SendEvent::Sent { sent_ns, checked_ns, restarted_ns },
        ) => {
            if copies_left > 0 {
                (SendStage::Sending { copies_left: copies_left - 1 }, SendAction::SendAgain)
            } else {
                sender.packet_sent(sent_ns, stats);
                sender.publish_window(checked_ns, restarted_ns, stats);
                sender.offer()
            }
        },
        (SendStage::Sending { .. }, SendEvent::SendFailed { message }) => {
            let mut text: String = String::new();
            text.append("Failed to send PCM frame to UDP client: ");
            text.append(message.as_str());
            assert(text@ =~= "Failed to send PCM frame to UDP client: "@ + message@);
            (SendStage::Ended, SendAction::Failed { message: text })
        },
        _ => (stage, SendAction::Wait),
    }
}

} // verus!
