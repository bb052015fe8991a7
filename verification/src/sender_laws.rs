//! What the counters of a stream show, while it is sent and after.

use crate::audio_stats::StatsView;
use crate::sender::{elapsed, send_next, SendActionView, SendEvent, SendStage, SendState};
use crate::stream_laws::run;
use vstd::prelude::*;

verus! {

/// Between two readings of the clock lies their difference, or nothing where the clock
/// did not go on.
pub proof fn elapsed_is_the_difference(later: u64, earlier: u64)
    ensures
        later >= earlier ==> elapsed(later, earlier) + earlier == later,
        later <= earlier ==> elapsed(later, earlier) == 0,
{
}

/// A new epoch or a new stream starts from nothing: all gaps and rates are zero. What
/// was counted before leaves no trace, and nothing else changes.
pub proof fn zeroing_forgets_every_gap(stats: StatsView, gap_us: u64, frames: u64)
    ensures
        stats.zeroed().send_gap_us == 0,
        stats.zeroed().max_send_gap_us == 0,
        stats.zeroed().last_sent_frames_per_sec == 0,
        stats.zeroed().wasapi_trigger_gap_us == 0,
        stats.zeroed().max_wasapi_trigger_gap_us == 0,
        stats.zeroed().active == stats.active,
        stats.zeroed().target_addr == stats.target_addr,
        stats.zeroed().clear_epoch == stats.clear_epoch,
        stats.with_send_gap(gap_us).zeroed() == stats.zeroed(),
        stats.with_trigger_gap(gap_us).zeroed() == stats.zeroed(),
        stats.with_window(frames, gap_us).zeroed() == (StatsView {
            active: true,
            ..stats.zeroed()
        }),
{
}

/// Each figure is counted for itself: a gap between packets moves the longest such gap
/// only, and that only upwards.
pub proof fn send_gap_counts_alone(stats: StatsView, gap_us: u64)
    ensures
        ({
            let next = stats.with_send_gap(gap_us);
            &&& next.max_send_gap_us >= gap_us
            &&& next.max_send_gap_us >= stats.max_send_gap_us
            &&& next.max_send_gap_us == gap_us || next.max_send_gap_us == stats.max_send_gap_us
            &&& next.send_gap_us == stats.send_gap_us
            &&& next.last_sent_frames_per_sec == stats.last_sent_frames_per_sec
            &&& next.wasapi_trigger_gap_us == stats.wasapi_trigger_gap_us
            &&& next.max_wasapi_trigger_gap_us == stats.max_wasapi_trigger_gap_us
            &&& next.active == stats.active
            &&& next.target_addr == stats.target_addr
            &&& next.clear_epoch == stats.clear_epoch
        }),
{
}

/// A gap between deliveries is the last one, and may be the longest.
pub proof fn trigger_gap_counts_alone(stats: StatsView, gap_us: u64)
    ensures
        ({
            let next = stats.with_trigger_gap(gap_us);
            &&& next.wasapi_trigger_gap_us == gap_us
            &&& next.max_wasapi_trigger_gap_us >= gap_us
            &&& next.max_wasapi_trigger_gap_us >= stats.max_wasapi_trigger_gap_us
            &&& next.max_wasapi_trigger_gap_us == gap_us || next.max_wasapi_trigger_gap_us
                == stats.max_wasapi_trigger_gap_us
            &&& next.send_gap_us == stats.send_gap_us
            &&& next.max_send_gap_us == stats.max_send_gap_us
            &&& next.last_sent_frames_per_sec == stats.last_sent_frames_per_sec
            &&& next.active == stats.active
            &&& next.target_addr == stats.target_addr
            &&& next.clear_epoch == stats.clear_epoch
        }),
{
}

/// A published window shows its own figures, and no longest gap moves.
pub proof fn window_counts_alone(stats: StatsView, frames: u64, gap_us: u64)
    ensures
        ({
            let next = stats.with_window(frames, gap_us);
            &&& next.active
            &&& next.send_gap_us == gap_us
            &&& next.last_sent_frames_per_sec == frames
            &&& next.max_send_gap_us == stats.max_send_gap_us
            &&& next.wasapi_trigger_gap_us == stats.wasapi_trigger_gap_us
            &&& next.max_wasapi_trigger_gap_us == stats.max_wasapi_trigger_gap_us
            &&& next.target_addr == stats.target_addr
            &&& next.clear_epoch == stats.clear_epoch
        }),
{
}

/// A packet that went out is timed: the gap since the one before it in whole
/// microseconds, counted towards the longest. The first one has no gap.
pub proof fn packet_is_timed(
    state: SendState,
    sent_ns: u64,
    checked_ns: u64,
    restarted_ns: u64,
    last: u64,
)
    requires
        state.stage == (SendStage::Sending { copies_left: 0 }),
    ensures
        ({
            let next = send_next(
                state,
                SendEvent::Sent { sent_ns, checked_ns, restarted_ns },
            ).0;
            &&& next.timing.last_send == Some(sent_ns)
            &&& state.timing.last_send is None ==> {
                &&& next.timing.send_gap_us == state.timing.send_gap_us
                &&& next.stats.max_send_gap_us == state.stats.max_send_gap_us
            }
            &&& state.timing.last_send == Some(last) ==> {
                let gap_us = if sent_ns > last {
                    (sent_ns - last) / 1000
                } else {
                    0
                };
                &&& next.timing.send_gap_us == gap_us
                &&& next.stats.max_send_gap_us == (if gap_us > state.stats.max_send_gap_us {
                    gap_us
                } else {
                    state.stats.max_send_gap_us as int
                })
            }
            &&& next.stats.target_addr == state.stats.target_addr
            &&& next.stats.clear_epoch == state.stats.clear_epoch
            &&& next.stats.wasapi_trigger_gap_us == state.stats.wasapi_trigger_gap_us
            &&& next.stats.max_wasapi_trigger_gap_us == state.stats.max_wasapi_trigger_gap_us
        }),
{
}

/// Once a second, and no more often, the gap that was timed last is published; the
/// next second begins when that is done.
pub proof fn window_is_published_once_a_second(
    state: SendState,
    sent_ns: u64,
    checked_ns: u64,
    restarted_ns: u64,
)
    requires
        state.stage == (SendStage::Sending { copies_left: 0 }),
    ensures
        ({
            let next = send_next(
                state,
                SendEvent::Sent { sent_ns, checked_ns, restarted_ns },
            ).0;
            if checked_ns - state.timing.last_log >= 1_000_000_000 {
                &&& next.timing.last_log == restarted_ns
                &&& next.stats.active
                &&& next.stats.send_gap_us == next.timing.send_gap_us
                &&& next.stats.last_sent_frames_per_sec == 0
            } else {
                &&& next.timing.last_log == state.timing.last_log
                &&& next.stats.active == state.stats.active
                &&& next.stats.send_gap_us == state.stats.send_gap_us
                &&& next.stats.last_sent_frames_per_sec == state.stats.last_sent_frames_per_sec
            }
        }),
{
}

/// The event says that the stream goes to this address.
pub open spec fn bound_to(event: SendEvent, address: Seq<char>) -> bool {
    event matches SendEvent::Bound { target_addr } && target_addr@ == address
}

/// From when its socket is there until it ends, a stream counts as active, with the
/// address that it was bound for; before, the counters are those of the stream before
/// it. Each packet is sent once.
pub proof fn stream_is_active_while_it_runs(start: SendState, events: Seq<SendEvent>)
    requires
        start.stage is Binding,
    ensures
        ({
            let now = run(start, events);
            &&& now.stage is Binding ==> now.stats == start.stats
            &&& now.stage is Receiving || now.stage is Sending ==> now.stats.active && exists|i: int|
                0 <= i < events.len() && bound_to(#[trigger] events[i], now.stats.target_addr)
            &&& now.stage is Sending ==> now.stage == (SendStage::Sending { copies_left: 0 })
            &&& now.stats.clear_epoch == start.stats.clear_epoch
        }),
    decreases events.len(),
{
    if events.len() > 0 {
        let head = events.drop_last();
        stream_is_active_while_it_runs(start, head);
        let before = run(start, head);
        let now = run(start, events);
        let last = events.len() - 1;
        assert(events[last] == events.last());
        if before.stage is Receiving || before.stage is Sending {
            let i = choose|i: int|
                0 <= i < head.len() && bound_to(#[trigger] head[i], before.stats.target_addr);
            assert(events[i] == head[i]);
            assert(now.stats.target_addr == before.stats.target_addr);
        } else if now.stage is Receiving || now.stage is Sending {
            assert(bound_to(events[last], now.stats.target_addr));
        }
    }
}

/// A socket that is there begins a stream with every gap at zero. One that is not ends
/// it with the reason; so does a datagram that could not be sent, and the counters stay.
/// A stream that has nothing more to send ends, and is active no longer.
pub proof fn stream_begins_and_ends(state: SendState, target_addr: String, message: String)
    ensures
        state.stage is Binding ==> {
            let (next, action) = send_next(state, SendEvent::Bound { target_addr });
            &&& next.stage is Receiving
            &&& action is Receive
            &&& next.sender == state.sender
            &&& next.timing == state.timing
            &&& next.stats == (StatsView {
                active: true,
                target_addr: target_addr@,
                send_gap_us: 0,
                max_send_gap_us: 0,
                last_sent_frames_per_sec: 0,
                wasapi_trigger_gap_us: 0,
                max_wasapi_trigger_gap_us: 0,
                clear_epoch: state.stats.clear_epoch,
            })
        },
        state.stage is Binding ==> send_next(state, SendEvent::BindFailed { message }) == (
            SendState { stage: SendStage::Ended, ..state },
            SendActionView::Failed { message: message@ },
        ),
        state.stage is Sending ==> send_next(state, SendEvent::SendFailed { message }) == (
            SendState { stage: SendStage::Ended, ..state },
            SendActionView::Failed {
                message: "Failed to send PCM frame to UDP client: "@ + message@,
            },
        ),
        state.stage is Receiving ==> {
            let (next, action) = send_next(state, SendEvent::Closed);
            &&& next.stage is Ended
            &&& action is Finished
            &&& !next.stats.active
            &&& next.stats == (StatsView { active: false, ..state.stats })
            &&& next.sender == state.sender
            &&& next.timing == state.timing
        },
{
}

/// A sender waits for what it has asked for; any other event changes nothing. Samples
/// that come change no counter.
pub proof fn sender_waits_for_what_it_asked(state: SendState, event: SendEvent)
    ensures
        ({
            let awaited = match state.stage {
                SendStage::Binding => event is Bound || event is BindFailed,
                SendStage::Receiving => event is Samples || event is Closed,
                SendStage::Sending { .. } => event is Sent || event is SendFailed,
                SendStage::Ended => false,
            };
            let (next, action) = send_next(state, event);
            &&& !awaited ==> next == state && action is Wait
            &&& awaited ==> !(action is Wait)
            &&& event is Samples ==> next.stats == state.stats && next.timing == state.timing
        }),
{
}

/// A packet that is to be sent more than once is sent again before it is timed.
pub proof fn copies_go_out_first(
    state: SendState,
    copies_left: usize,
    sent_ns: u64,
    checked_ns: u64,
    restarted_ns: u64,
)
    requires
        state.stage == (SendStage::Sending { copies_left }),
        copies_left > 0,
    ensures
        ({
            let (next, action) = send_next(
                state,
                SendEvent::Sent { sent_ns, checked_ns, restarted_ns },
            );
            &&& action is SendAgain
            &&& next.stage matches SendStage::Sending { copies_left: left } && left + 1
                == copies_left
            &&& next.timing == state.timing
            &&& next.stats == state.stats
            &&& next.sender == state.sender
        }),
{
}

} // verus!
