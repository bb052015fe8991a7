//! Counters on the running audio stream, for the status reply and the admin page.

use vstd::prelude::*;

verus! {

/// Gap lengths are in microseconds.
pub struct AudioStats {
    pub active: bool,
    pub target_addr: String,
    pub send_gap_us: u64,
    pub max_send_gap_us: u64,
    pub last_sent_frames_per_sec: u64,
    pub wasapi_trigger_gap_us: u64,
    pub max_wasapi_trigger_gap_us: u64,
    pub clear_epoch: u64,
}

/// What the counters hold.
pub struct StatsView {
    pub active: bool,
    pub target_addr: Seq<char>,
    pub send_gap_us: u64,
    pub max_send_gap_us: u64,
    pub last_sent_frames_per_sec: u64,
    pub wasapi_trigger_gap_us: u64,
    pub max_wasapi_trigger_gap_us: u64,
    pub clear_epoch: u64,
}

/// A copy of the counters that are shown to users.
pub struct AudioStatsSnapshot {
    pub active: bool,
    pub target_addr: String,
    pub send_gap_us: u64,
    pub max_send_gap_us: u64,
    pub wasapi_trigger_gap_us: u64,
    pub max_wasapi_trigger_gap_us: u64,
}

impl View for AudioStats {
    type V = StatsView;

    open spec fn view(&self) -> StatsView {
        StatsView {
            active: self.active,
            target_addr: self.target_addr@,
            send_gap_us: self.send_gap_us,
            max_send_gap_us: self.max_send_gap_us,
            last_sent_frames_per_sec: self.last_sent_frames_per_sec,
            wasapi_trigger_gap_us: self.wasapi_trigger_gap_us,
            max_wasapi_trigger_gap_us: self.max_wasapi_trigger_gap_us,
            clear_epoch: self.clear_epoch,
        }
    }
}

impl StatsView {
    /// Every gap and rate counter at zero; the stream, its target and the epoch stay.
    pub open spec fn zeroed(self) -> StatsView {
        StatsView {
            send_gap_us: 0,
            max_send_gap_us: 0,
            last_sent_frames_per_sec: 0,
            wasapi_trigger_gap_us: 0,
            max_wasapi_trigger_gap_us: 0,
            ..self
        }
    }

    /// A new epoch: every gap and rate counter at zero.
    pub open spec fn cleared(self) -> StatsView {
        StatsView { clear_epoch: self.clear_epoch.wrapping_add(1), ..self.zeroed() }
    }

    /// One more gap between two sent packets.
    pub open spec fn with_send_gap(self, gap_us: u64) -> StatsView {
        StatsView { max_send_gap_us: larger(self.max_send_gap_us, gap_us), ..self }
    }

    /// One more gap between two capture callbacks.
    pub open spec fn with_trigger_gap(self, gap_us: u64) -> StatsView {
        StatsView {
            wasapi_trigger_gap_us: gap_us,
            max_wasapi_trigger_gap_us: larger(self.max_wasapi_trigger_gap_us, gap_us),
            ..self
        }
    }

    /// The figures of the last second.
    pub open spec fn with_window(self, sent_frames: u64, send_gap_us: u64) -> StatsView {
        StatsView {
            active: true,
            last_sent_frames_per_sec: sent_frames,
            send_gap_us,
            ..self
        }
    }

    /// Every gap in `gaps_us`, in order.
    pub open spec fn with_send_gaps(self, gaps_us: Seq<u64>) -> StatsView
        decreases gaps_us.len(),
    {
        if gaps_us.len() == 0 {
            self
        } else {
            self.with_send_gaps(gaps_us.drop_last()).with_send_gap(gaps_us.last())
        }
    }

    /// Every trigger gap in `gaps_us`, in order.
    pub open spec fn with_trigger_gaps(self, gaps_us: Seq<u64>) -> StatsView
        decreases gaps_us.len(),
    {
        if gaps_us.len() == 0 {
            self
        } else {
            self.with_trigger_gaps(gaps_us.drop_last()).with_trigger_gap(gaps_us.last())
        }
    }
}

pub open spec fn larger(a: u64, b: u64) -> u64 {
    if a >= b {
        a
    } else {
        b
    }
}

impl AudioStats {
    /// Counters before anything was sent.
    pub fn new() -> (r: AudioStats)
        ensures
            r@ == (StatsView {
                active: false,
                target_addr: Seq::empty(),
                send_gap_us: 0,
                max_send_gap_us: 0,
                last_sent_frames_per_sec: 0,
                wasapi_trigger_gap_us: 0,
                max_wasapi_trigger_gap_us: 0,
                clear_epoch: 0,
            }),
    {
        AudioStats {
            active: false,
            target_addr: String::new(),
            send_gap_us: 0,
            max_send_gap_us: 0,
            last_sent_frames_per_sec: 0,
            wasapi_trigger_gap_us: 0,
            max_wasapi_trigger_gap_us: 0,
            clear_epoch: 0,
        }
    }
}

fn zero_gaps(stats: &mut AudioStats)
    ensures
        final(stats)@ == old(stats)@.zeroed(),
{
    stats.send_gap_us = 0;
    stats.max_send_gap_us = 0;
    stats.last_sent_frames_per_sec = 0;
    stats.wasapi_trigger_gap_us = 0;
    stats.max_wasapi_trigger_gap_us = 0;
}

fn max_of(a: u64, b: u64) -> (r: u64)
    ensures
        r == larger(a, b),
{
    if a >= b {
        a
    } else {
        b
    }
}

/// A new stream to `target_addr` begins: it is active, and every gap counter is zero.
pub fn reset_udp_stream(stats: &mut AudioStats, target_addr: &str)
    ensures
        final(stats)@ == (StatsView {
            active: true,
            target_addr: target_addr@,
            ..old(stats)@.zeroed()
        }),
{
    stats.active = true;
    stats.target_addr = target_addr.to_owned();
    zero_gaps(stats);
}

/// Keeps the longest gap between two sent packets.
pub fn record_udp_send_gap(stats: &mut AudioStats, send_gap_us: u64)
    ensures
        final(stats)@ == old(stats)@.with_send_gap(send_gap_us),
{
    stats.max_send_gap_us = max_of(stats.max_send_gap_us, send_gap_us);
}

/// Keeps the last and the longest gap between two capture callbacks.
pub fn record_wasapi_trigger_gap(stats: &mut AudioStats, trigger_gap_us: u64)
    ensures
        final(stats)@ == old(stats)@.with_trigger_gap(trigger_gap_us),
{
    stats.wasapi_trigger_gap_us = trigger_gap_us;
    stats.max_wasapi_trigger_gap_us = max_of(stats.max_wasapi_trigger_gap_us, trigger_gap_us);
}

/// Sets every gap counter to zero and opens a new epoch; the count of epochs wraps.
pub fn clear_history(stats: &mut AudioStats)
    ensures
        final(stats)@ == (StatsView {
            clear_epoch: old(stats)@.clear_epoch.wrapping_add(1),
            ..old(stats)@.zeroed()
        }),
        final(stats)@ == old(stats)@.cleared(),
{
    zero_gaps(stats);
    stats.clear_epoch = stats.clear_epoch.wrapping_add(1);
}

/// Takes over the figures of the last second; whoever reports them is active.
pub fn update_udp_send_window(stats: &mut AudioStats, sent_frames: u64, send_gap_us: u64)
    ensures
        final(stats)@ == old(stats)@.with_window(sent_frames, send_gap_us),
{
    stats.active = true;
    stats.last_sent_frames_per_sec = sent_frames;
    stats.send_gap_us = send_gap_us;
}

/// The stream has ended; its figures stay readable.
pub fn mark_udp_stream_inactive(stats: &mut AudioStats)
    ensures
        final(stats)@ == (StatsView { active: false, ..old(stats)@ }),
{
    stats.active = false;
}

/// How often the history was cleared.
pub fn clear_epoch(stats: &AudioStats) -> (r: u64)
    ensures
        r == stats@.clear_epoch,
{
    stats.clear_epoch
}

/// A copy of what is shown to users.
pub fn snapshot(stats: &AudioStats) -> (r: AudioStatsSnapshot)
    ensures
        r.active == stats@.active,
        r.target_addr@ == stats@.target_addr,
        r.send_gap_us == stats@.send_gap_us,
        r.max_send_gap_us == stats@.max_send_gap_us,
        r.wasapi_trigger_gap_us == stats@.wasapi_trigger_gap_us,
        r.max_wasapi_trigger_gap_us == stats@.max_wasapi_trigger_gap_us,
{
    AudioStatsSnapshot {
        active: stats.active,
        target_addr: stats.target_addr.clone(),
        send_gap_us: stats.send_gap_us,
        max_send_gap_us: stats.max_send_gap_us,
        wasapi_trigger_gap_us: stats.wasapi_trigger_gap_us,
        max_wasapi_trigger_gap_us: stats.max_wasapi_trigger_gap_us,
    }
}

/// The longest send gap on record is the longest that was recorded since the
/// counter was at zero: no recorded gap is longer, and it is one of them
/// unless it is zero. Nothing else changes.
pub proof fn max_send_gap_is_longest(start: StatsView, gaps_us: Seq<u64>)
    requires
        start.max_send_gap_us == 0,
    ensures
        ({
            let end = start.with_send_gaps(gaps_us);
            &&& forall|i: int| 0 <= i < gaps_us.len() ==> gaps_us[i] <= end.max_send_gap_us
            &&& end.max_send_gap_us == 0 || gaps_us.contains(end.max_send_gap_us)
            &&& end == (StatsView { max_send_gap_us: end.max_send_gap_us, ..start })
        }),
    decreases gaps_us.len(),
{
    if gaps_us.len() > 0 {
        let init = gaps_us.drop_last();
        max_send_gap_is_longest(start, init);
        let before = start.with_send_gaps(init);
        let end = start.with_send_gaps(gaps_us);
        assert forall|i: int| 0 <= i < gaps_us.len() implies gaps_us[i] <= end.max_send_gap_us by {
            if i < init.len() {
                assert(init[i] == gaps_us[i]);
            }
        }
        if end.max_send_gap_us != 0 {
            if end.max_send_gap_us == gaps_us.last() {
                assert(gaps_us[gaps_us.len() - 1] == end.max_send_gap_us);
            } else {
                let i = choose|i: int| 0 <= i < init.len() && init[i] == before.max_send_gap_us;
                assert(gaps_us[i] == end.max_send_gap_us);
            }
        }
    }
}

/// The longest trigger gap on record is the longest that was recorded since the
/// counter was at zero, and the current one is the last that was recorded.
pub proof fn max_trigger_gap_is_longest(start: StatsView, gaps_us: Seq<u64>)
    requires
        start.max_wasapi_trigger_gap_us == 0,
    ensures
        ({
            let end = start.with_trigger_gaps(gaps_us);
            &&& forall|i: int|
                0 <= i < gaps_us.len() ==> gaps_us[i] <= end.max_wasapi_trigger_gap_us
            &&& end.max_wasapi_trigger_gap_us == 0 || gaps_us.contains(
                end.max_wasapi_trigger_gap_us,
            )
            &&& gaps_us.len() > 0 ==> end.wasapi_trigger_gap_us == gaps_us.last()
            &&& end == (StatsView {
                wasapi_trigger_gap_us: end.wasapi_trigger_gap_us,
                max_wasapi_trigger_gap_us: end.max_wasapi_trigger_gap_us,
                ..start
            })
        }),
    decreases gaps_us.len(),
{
    if gaps_us.len() > 0 {
        let init = gaps_us.drop_last();
        max_trigger_gap_is_longest(start, init);
        let before = start.with_trigger_gaps(init);
        let end = start.with_trigger_gaps(gaps_us);
        assert forall|i: int| 0 <= i < gaps_us.len() implies gaps_us[i]
            <= end.max_wasapi_trigger_gap_us by {
            if i < init.len() {
                assert(init[i] == gaps_us[i]);
            }
        }
        if end.max_wasapi_trigger_gap_us != 0 {
            if end.max_wasapi_trigger_gap_us == gaps_us.last() {
                assert(gaps_us[gaps_us.len() - 1] == end.max_wasapi_trigger_gap_us);
            } else {
                let i = choose|i: int|
                    0 <= i < init.len() && init[i] == before.max_wasapi_trigger_gap_us;
                assert(gaps_us[i] == end.max_wasapi_trigger_gap_us);
            }
        }
    }
}

/// The current trigger gap is never longer than the longest on record, whatever
/// is recorded, cleared or reset.
pub proof fn trigger_gap_within_longest(stats: StatsView, gap_us: u64, frames: u64)
    requires
        stats.wasapi_trigger_gap_us <= stats.max_wasapi_trigger_gap_us,
    ensures
        stats.zeroed().wasapi_trigger_gap_us <= stats.zeroed().max_wasapi_trigger_gap_us,
        ({
            let next = stats.with_trigger_gap(gap_us);
            next.wasapi_trigger_gap_us <= next.max_wasapi_trigger_gap_us
        }),
        ({
            let next = stats.with_send_gap(gap_us);
            next.wasapi_trigger_gap_us <= next.max_wasapi_trigger_gap_us
        }),
        ({
            let next = stats.with_window(frames, gap_us);
            next.wasapi_trigger_gap_us <= next.max_wasapi_trigger_gap_us
        }),
{
}

} // verus!
