//! What holds of a session over any row of events: of the control of its capture
//! stream, and of the pipeline that passes changes of the device on to it.

use crate::pipeline::{
    capture_control_next, pipeline_next, start_outcome, CaptureControl, CaptureControlActionView,
    CaptureControlEvent, PipelineActionView, PipelineEvent, PipelineState, ThreadReport,
};
use vstd::prelude::*;

verus! {

/// Where the control of the capture stream stands after a row of events, and what it
/// was to do after each.
pub open spec fn control_run(events: Seq<CaptureControlEvent>) -> (
    CaptureControl,
    Seq<CaptureControlActionView>,
)
    decreases events.len(),
{
    if events.len() == 0 {
        (CaptureControl::Starting, Seq::empty())
    } else {
        let (state, actions) = control_run(events.drop_last());
        let (next, action) = capture_control_next(state, events.last());
        (next, actions.push(action))
    }
}

/// The events of a control whose first stream started and which was then asked for a
/// restart once for each outcome, each request followed by the outcome of its stream.
pub open spec fn restarted(outcomes: Seq<CaptureControlEvent>) -> Seq<CaptureControlEvent>
    decreases outcomes.len(),
{
    if outcomes.len() == 0 {
        seq![CaptureControlEvent::StreamStarted]
    } else {
        restarted(outcomes.drop_last()).push(CaptureControlEvent::RestartRequested).push(
            outcomes.last(),
        )
    }
}

/// Every outcome is one of a stream.
pub open spec fn of_streams(outcomes: Seq<CaptureControlEvent>) -> bool {
    forall|i: int|
        0 <= i < outcomes.len() ==> #[trigger] outcomes[i] is StreamStarted || outcomes[i] is
            StreamFailed
}

/// However many restarts there were, and however they went, the control is where it
/// was before them: it has replaced the stream once for each, the next request is
/// answered with another stream, and the closing of the requests ends it. It is
/// capturing where the last stream started.
pub proof fn restarts_leave_the_control_as_it_was(outcomes: Seq<CaptureControlEvent>)
    requires
        of_streams(outcomes),
    ensures
        ({
            let rounds = restarted(outcomes);
            let (state, actions) = control_run(rounds);
            let again = control_run(rounds.push(CaptureControlEvent::RestartRequested));
            let closed = control_run(rounds.push(CaptureControlEvent::RequestsClosed));
            &&& state == (CaptureControl::Running {
                capturing: outcomes.len() == 0 || outcomes.last() is StreamStarted,
            })
            &&& actions.len() == 1 + 2 * outcomes.len()
            &&& actions[0] is ReportStarted
            &&& forall|i: int|
                1 <= i < actions.len() ==> #[trigger] actions[i] == (if i % 2 == 1 {
                    CaptureControlActionView::ReplaceStream
                } else {
                    CaptureControlActionView::Wait
                })
            &&& again.0 is Restarting
            &&& again.1.last() is ReplaceStream
            &&& closed.0 is Ended
            &&& closed.1.last() is End
        }),
    decreases outcomes.len(),
{
    let rounds = restarted(outcomes);
    if outcomes.len() == 0 {
        assert(rounds.drop_last() =~= Seq::empty());
        reveal_with_fuel(control_run, 2);
    } else {
        let before = outcomes.drop_last();
        assert(of_streams(before)) by {
            assert forall|i: int| 0 <= i < before.len() implies #[trigger] before[i] is StreamStarted
                || before[i] is StreamFailed by {
                assert(before[i] == outcomes[i]);
            }
        }
        restarts_leave_the_control_as_it_was(before);
        let asked = restarted(before).push(CaptureControlEvent::RestartRequested);
        assert(rounds.drop_last() =~= asked);
        assert(asked.drop_last() =~= restarted(before));
        assert(outcomes.last() == outcomes[outcomes.len() - 1]);
        assert(rounds.last() == outcomes.last());
    }
    assert(rounds.push(CaptureControlEvent::RestartRequested).drop_last() =~= rounds);
    assert(rounds.push(CaptureControlEvent::RequestsClosed).drop_last() =~= rounds);
}

/// The control waits for a stream it has asked for, and otherwise for a request; an
/// event that it does not wait for changes nothing and asks for nothing.
pub proof fn control_waits_for_what_it_asked(state: CaptureControl, event: CaptureControlEvent)
    ensures
        ({
            let of_stream = event is StreamStarted || event is StreamFailed;
            let awaited = match state {
                CaptureControl::Starting => of_stream,
                CaptureControl::Restarting => of_stream,
                CaptureControl::Running { .. } => !of_stream,
                CaptureControl::Ended => false,
            };
            let (next, action) = capture_control_next(state, event);
            &&& !awaited ==> next == state && action is Wait
            &&& awaited ==> next != state
            &&& action is ReplaceStream <==> awaited && event is RestartRequested
            &&& action is End <==> awaited && event is RequestsClosed
            &&& action is ReportStarted <==> state is Starting && event is StreamStarted
            &&& action is ReportFailed <==> state is Starting && event is StreamFailed
        }),
{
}

/// Where the pipeline stands after a row of events, and what it was to do after each.
pub open spec fn pipeline_run(events: Seq<PipelineEvent>) -> (
    PipelineState,
    Seq<PipelineActionView>,
)
    decreases events.len(),
{
    if events.len() == 0 {
        (PipelineState::StartingCapture, Seq::empty())
    } else {
        let (state, actions) = pipeline_run(events.drop_last());
        let (next, action) = pipeline_next(state, events.last());
        (next, actions.push(action))
    }
}

/// The events of a session that was started and has since seen a change of the device
/// for each `true`, taken on by the capture control, and for each `false` a touch of
/// the stop switch that did not stop it.
pub open spec fn watched(changes: Seq<bool>) -> Seq<PipelineEvent>
    decreases changes.len(),
{
    if changes.len() == 0 {
        seq![
            PipelineEvent::CaptureStarted { outcome: Ok(()) },
            PipelineEvent::SenderStarted { started: true },
        ]
    } else if changes.last() {
        watched(changes.drop_last()).push(PipelineEvent::DeviceChanged { watched: true }).push(
            PipelineEvent::RestartSent { taken: true },
        )
    } else {
        watched(changes.drop_last()).push(
            PipelineEvent::StopChanged { owned: true, stop: false },
        )
    }
}

/// How many of them are changes of the device.
pub open spec fn device_changes(changes: Seq<bool>) -> nat
    decreases changes.len(),
{
    if changes.len() == 0 {
        0
    } else if changes.last() {
        device_changes(changes.drop_last()) + 1
    } else {
        device_changes(changes.drop_last())
    }
}

/// How many of the actions ask for a restart.
pub open spec fn restarts_sent(actions: Seq<PipelineActionView>) -> nat
    decreases actions.len(),
{
    if actions.len() == 0 {
        0
    } else if actions.last() is SendRestart {
        restarts_sent(actions.drop_last()) + 1
    } else {
        restarts_sent(actions.drop_last())
    }
}

/// However often the device has changed, a session passes every change on: one restart
/// for each, the next one too. Told to stop, or with its sender finished, it ends.
pub proof fn every_device_change_is_passed_on(changes: Seq<bool>)
    ensures
        ({
            let events = watched(changes);
            let (state, actions) = pipeline_run(events);
            let again = pipeline_run(events.push(PipelineEvent::DeviceChanged { watched: true }));
            let stopped = pipeline_run(
                events.push(PipelineEvent::StopChanged { owned: true, stop: true }),
            );
            let done = pipeline_run(events.push(PipelineEvent::SenderDone));
            &&& state is Watching
            &&& restarts_sent(actions) == device_changes(changes)
            &&& again.0 is Restarting
            &&& again.1.last() is SendRestart
            &&& stopped.0 is Ended
            &&& stopped.1.last() is End
            &&& done.0 is Ended
            &&& done.1.last() is End
        }),
    decreases changes.len(),
{
    let events = watched(changes);
    if changes.len() == 0 {
        let first = seq![PipelineEvent::CaptureStarted { outcome: Ok(()) }];
        assert(events.drop_last() =~= first);
        assert(first.drop_last() =~= Seq::empty());
        assert(events.last() == (PipelineEvent::SenderStarted { started: true }));
        assert(first.last() == (PipelineEvent::CaptureStarted { outcome: Ok(()) }));
        let (state, actions) = pipeline_run(events);
        reveal_with_fuel(pipeline_run, 3);
        assert(state is Watching);
        let one = seq![PipelineActionView::StartSender];
        assert(actions =~= one.push(PipelineActionView::ReportStarted));
        assert(actions.drop_last() =~= one);
        assert(one.drop_last() =~= Seq::empty());
        reveal_with_fuel(restarts_sent, 3);
        assert(restarts_sent(actions) == 0);
    } else {
        let before = watched(changes.drop_last());
        every_device_change_is_passed_on(changes.drop_last());
        let (state, actions) = pipeline_run(before);
        if changes.last() {
            let asked = before.push(PipelineEvent::DeviceChanged { watched: true });
            assert(events.drop_last() =~= asked);
            assert(asked.drop_last() =~= before);
            let twice = pipeline_run(asked).1;
            assert(twice.drop_last() =~= actions);
            assert(twice.last() is SendRestart);
            assert(restarts_sent(twice) == restarts_sent(actions) + 1);
            let thrice = pipeline_run(events).1;
            assert(thrice.drop_last() =~= twice);
            assert(thrice.last() is Wait);
            assert(restarts_sent(thrice) == restarts_sent(twice));
        } else {
            assert(events.drop_last() =~= before);
            let twice = pipeline_run(events).1;
            assert(twice.drop_last() =~= actions);
            assert(twice.last() is Wait);
            assert(restarts_sent(twice) == restarts_sent(actions));
        }
    }
    assert(events.push(PipelineEvent::DeviceChanged { watched: true }).drop_last() =~= events);
    assert(events.push(
        PipelineEvent::StopChanged { owned: true, stop: true },
    ).drop_last() =~= events);
    assert(events.push(PipelineEvent::SenderDone).drop_last() =~= events);
}

/// An event that the pipeline does not wait for changes nothing: while it starts it
/// waits for what it has started, then for the sender, the device and the switch, and
/// while it asks for a restart for that alone.
pub proof fn pipeline_waits_for_what_it_asked(state: PipelineState, event: PipelineEvent)
    ensures
        ({
            let awaited = match state {
                PipelineState::StartingCapture => event is CaptureStarted,
                PipelineState::StartingSender => event is SenderStarted,
                PipelineState::Watching => event is SenderDone || event is DeviceChanged
                    || event is StopChanged,
                PipelineState::Restarting => event is RestartSent,
                PipelineState::Ended => false,
            };
            let (next, action) = pipeline_next(state, event);
            &&& !awaited ==> next == state && action is Wait
            &&& action is SendRestart <==> state is Watching && event == (
            PipelineEvent::DeviceChanged { watched: true })
            &&& action is Refuse <==> {
                ||| state is StartingSender && event == (PipelineEvent::SenderStarted {
                    started: false,
                })
                ||| state is StartingCapture && (event matches PipelineEvent::CaptureStarted {
                    outcome,
                } && outcome is Err)
            }
        }),
{
}

/// A session that is refused is told why: in the words of its capture, or that its
/// sender could not be started.
pub proof fn refusal_has_its_reason(message: String)
    ensures
        pipeline_next(
            PipelineState::StartingCapture,
            PipelineEvent::CaptureStarted { outcome: Err(message) },
        ) == (PipelineState::Ended, PipelineActionView::Refuse { message: message@ }),
        pipeline_next(
            PipelineState::StartingSender,
            PipelineEvent::SenderStarted { started: false },
        ) == (
            PipelineState::Ended,
            PipelineActionView::Refuse { message: "failed to spawn UDP audio send thread"@ },
        ),
{
}

/// What a thread reports is taken over as it is; a start succeeds only where success
/// was reported.
pub proof fn report_is_taken_over(
    report: ThreadReport,
    message: String,
    not_spawned: Seq<char>,
    lost: Seq<char>,
)
    ensures
        start_outcome(report, not_spawned, lost) is Ok <==> report == (ThreadReport::Reported {
            outcome: Ok(()),
        }),
        start_outcome(ThreadReport::Reported { outcome: Err(message) }, not_spawned, lost) == Err::<
            (),
            Seq<char>,
        >(message@),
        start_outcome(ThreadReport::NotSpawned, not_spawned, lost) == Err::<(), Seq<char>>(
            not_spawned,
        ),
        start_outcome(ThreadReport::Lost, not_spawned, lost) == Err::<(), Seq<char>>(lost),
{
    if let ThreadReport::Reported { outcome: Ok(unit) } = report {
        assert(unit == ());
    }
}

} // verus!
