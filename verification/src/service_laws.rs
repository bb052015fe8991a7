//! What holds of the parts around the stream: who is answered, what is announced, how
//! the network and the audio engine are asked, and how a session is handed over.

use crate::audio_device_events::concerns_output;
use crate::audio_engine_period::{
    engine_next, AudioEnginePeriod, EnginePeriodError, EngineEvent, EngineStage, EngineStep,
};
use crate::audio_protocol::CONTROL_PORT;
use crate::audio_thread_priority::{boost_next, BoostStep};
use crate::change_count::{bumped, bumped_times};
use crate::latency::{
    echoed, is_probe, probe_answer_fields, responder_next, unix_ms, ResponderActionView,
    ResponderEvent, DATAGRAM_BYTES, LISTEN_MS,
};
use crate::mdns_discovery::{
    mdns_next, stream_properties, MdnsEvent, MdnsStage, MdnsStepView, PublishStep, HOST_NAME,
    INSTANCE_NAME, IP_CHECK_INTERVAL_S, NETWORK_CHANGE_DEBOUNCE_MS, SERVICE_TYPE,
    SHUTDOWN_TIMEOUT_MS,
};
use crate::net::IpAddress;
use crate::network_events::{watch_next, WatchError, WatchStage};
use crate::packet::field;
use crate::service::WEB_ADMIN_ADDR;
use crate::session::handed_over;
use crate::text::decimal;
use vstd::prelude::*;

verus! {

/// This machine is an address whose first byte is 127, or the last address of IPv6's
/// zero block. A socket is bound to all interfaces of the same family.
pub proof fn this_machine_is_told_apart(bits: u32, long_bits: u128)
    ensures
        IpAddress::V4(bits).loopback() <==> bits / 0x100_0000 == 127,
        IpAddress::V6(long_bits).loopback() <==> long_bits == 1,
        IpAddress::V4(bits).any() == IpAddress::V4(0),
        IpAddress::V6(long_bits).any() == IpAddress::V6(0),
{
}

/// A probe is a datagram of sixteen bytes that begins with `LAT1`.
pub proof fn probe_is_told_apart(request: Seq<u8>)
    ensures
        is_probe(request) <==> request.len() == 16 && request[0] == 76 && request[1] == 65
            && request[2] == 84 && request[3] == 49,
{
    let head = request.take(4);
    let magic = seq![76u8, 65, 84, 49];
    assert(crate::latency::PROBE_MAGIC@ =~= magic);
    if request.len() == 16 {
        assert(head[0] == request[0] && head[1] == request[1] && head[2] == request[2] && head[3]
            == request[3]);
        assert(magic[0] == 76 && magic[1] == 65 && magic[2] == 84 && magic[3] == 49);
        if request[0] == 76 && request[1] == 65 && request[2] == 84 && request[3] == 49 {
            assert(head =~= magic);
        }
    }
}

/// A datagram of the client comes back: a probe with its first half and the two times,
/// anything else as it is. A datagram of anybody else is passed over, and silence ends
/// the responder.
pub proof fn only_the_client_is_answered(
    client: IpAddress,
    from: IpAddress,
    request: Vec<u8>,
    receive_ms: u64,
    send_ms: u64,
)
    ensures
        from != client ==> responder_next(
            client,
            ResponderEvent::Datagram { from, request, receive_ms, send_ms },
        ) is Listen,
        from == client ==> {
            &&& responder_next(
                client,
                ResponderEvent::Datagram { from, request, receive_ms, send_ms },
            ) matches ResponderActionView::Reply { datagram }
            &&& !is_probe(request@) ==> datagram == request@
            &&& is_probe(request@) ==> {
                &&& datagram.len() == 24
                &&& datagram.take(8) == request@.take(8)
                &&& field(datagram, 8, 8) == receive_ms
                &&& field(datagram, 16, 8) == send_ms
            }
        },
        responder_next(client, ResponderEvent::TimedOut) is End,
        responder_next(client, ResponderEvent::ReceiveFailed) is End,
{
    if from == client && is_probe(request@) {
        probe_answer_fields(request@, receive_ms, send_ms);
        assert(echoed(request@, receive_ms, send_ms).len() == 24);
    }
}

/// The clock is told as it stands, its low 64 bits where it has more; before 1970 it
/// stands at zero.
pub proof fn clock_is_told_as_it_stands(since_epoch_ms: u128)
    ensures
        unix_ms(None) == 0,
        since_epoch_ms <= 0xFFFF_FFFF_FFFF_FFFF ==> unix_ms(Some(since_epoch_ms)) == since_epoch_ms,
        (since_epoch_ms - unix_ms(Some(since_epoch_ms))) % 0x1_0000_0000_0000_0000 == 0,
{
}

/// The handle that was in place comes back, and the one that was brought takes its
/// place; so two requests bring back first what was there, then what the first brought.
pub proof fn handles_change_places<S>(
    current: Option<S>,
    first: Option<S>,
    second: Option<S>,
)
    ensures
        handed_over(current, first).0 == current,
        handed_over(handed_over(current, first).1, second).0 == first,
        handed_over(handed_over(current, first).1, second).1 == second,
{
}

/// Each change counts one, and after the last count comes zero; changes add up.
pub proof fn changes_add_up(count: u64, first: nat, second: nat)
    ensures
        count < u64::MAX ==> bumped(count) == count + 1,
        bumped(u64::MAX) == 0,
        bumped_times(count, 0) == count,
        bumped_times(count, 1) == bumped(count),
        bumped_times(bumped_times(count, first), second) == bumped_times(count, first + second),
    decreases second,
{
    reveal_with_fuel(bumped_times, 2);
    if second > 0 {
        changes_add_up(count, first, (second - 1) as nat);
    }
}

/// Only a new default for output counts, for the roles of sounds and of media; not one
/// for recording, nor one for calls.
pub proof fn only_output_counts(flow: i32, role: i32)
    ensures
        concerns_output(0, 0),
        concerns_output(0, 1),
        concerns_output(flow, role) ==> flow == 0 && 0 <= role <= 1,
{
}

/// A publisher that succeeds at every call sets its daemon up before it registers, then
/// watches the network, once, and is idle.
pub proof fn announcement_is_put_up_in_order(watched: bool)
    ensures
        mdns_next(
            MdnsStage::Publish { watched, step: PublishStep::CreateDaemon },
            MdnsEvent::Done,
        ) == (MdnsStepView::Continue {
            stage: MdnsStage::Publish { watched, step: PublishStep::SetIpCheckInterval },
        }),
        mdns_next(
            MdnsStage::Publish { watched, step: PublishStep::SetIpCheckInterval },
            MdnsEvent::Done,
        ) == (MdnsStepView::Continue {
            stage: MdnsStage::Publish { watched, step: PublishStep::DisableIpv6 },
        }),
        mdns_next(
            MdnsStage::Publish { watched, step: PublishStep::DisableIpv6 },
            MdnsEvent::Done,
        ) == (MdnsStepView::Continue {
            stage: MdnsStage::Publish { watched, step: PublishStep::Register },
        }),
        mdns_next(
            MdnsStage::Publish { watched: false, step: PublishStep::Register },
            MdnsEvent::Done,
        ) == (MdnsStepView::Continue { stage: MdnsStage::WatchNetwork }),
        mdns_next(
            MdnsStage::Publish { watched: true, step: PublishStep::Register },
            MdnsEvent::Done,
        ) == (MdnsStepView::Continue { stage: MdnsStage::Idle }),
        mdns_next(MdnsStage::WatchNetwork, MdnsEvent::Done) == (MdnsStepView::Continue {
            stage: MdnsStage::Idle,
        }),
{
}

/// Where the publisher stands after a row of events, from its first call on.
pub open spec fn published(events: Seq<MdnsEvent>) -> MdnsStepView
    decreases events.len(),
{
    if events.len() == 0 {
        MdnsStepView::Continue {
            stage: MdnsStage::Publish { watched: false, step: PublishStep::CreateDaemon },
        }
    } else {
        match published(events.drop_last()) {
            MdnsStepView::Continue { stage } => mdns_next(stage, events.last()),
            ended => ended,
        }
    }
}

/// The events of a publisher that was set up and has since renewed its announcement so
/// often, every call a success.
pub open spec fn renewed(times: nat) -> Seq<MdnsEvent>
    decreases times,
{
    if times == 0 {
        seq![
            MdnsEvent::Done,
            MdnsEvent::Done,
            MdnsEvent::Done,
            MdnsEvent::Done,
            MdnsEvent::Done,
        ]
    } else {
        renewed((times - 1) as nat) + seq![
            MdnsEvent::NetworkChanged { watched: true },
            MdnsEvent::Done,
            MdnsEvent::Done,
            MdnsEvent::Done,
            MdnsEvent::Done,
            MdnsEvent::Done,
            MdnsEvent::Done,
        ]
    }
}

proof fn published_on(events: Seq<MdnsEvent>, event: MdnsEvent)
    ensures
        published(events.push(event)) == match published(events) {
            MdnsStepView::Continue { stage } => mdns_next(stage, event),
            ended => ended,
        },
{
    assert(events.push(event).drop_last() =~= events);
}

/// However often the network has changed, the publisher is idle again once it has
/// renewed the announcement: it takes the next change, and a shutdown, which takes the
/// announcement down for good.
pub proof fn every_network_change_is_published(times: nat)
    ensures
        published(renewed(times)) == (MdnsStepView::Continue { stage: MdnsStage::Idle }),
        published(renewed(times).push(MdnsEvent::NetworkChanged { watched: true })) == (
        MdnsStepView::Continue { stage: MdnsStage::Debounce }),
        published(renewed(times).push(MdnsEvent::ShutdownRequested)) == (MdnsStepView::Continue {
            stage: MdnsStage::TakeDown { last: true },
        }),
        published(renewed(times).push(MdnsEvent::ShutdownRequested).push(MdnsEvent::Done))
            is Stopped,
    decreases times,
{
    let done = MdnsEvent::Done;
    if times == 0 {
        let nothing = Seq::<MdnsEvent>::empty();
        published_on(nothing, done);
        published_on(nothing.push(done), done);
        published_on(nothing.push(done).push(done), done);
        published_on(nothing.push(done).push(done).push(done), done);
        published_on(nothing.push(done).push(done).push(done).push(done), done);
        assert(renewed(times) =~= nothing.push(done).push(done).push(done).push(done).push(done));
    } else {
        let before = renewed((times - 1) as nat);
        every_network_change_is_published((times - 1) as nat);
        let changed = before.push(MdnsEvent::NetworkChanged { watched: true });
        published_on(changed, done);
        published_on(changed.push(done), done);
        published_on(changed.push(done).push(done), done);
        published_on(changed.push(done).push(done).push(done), done);
        published_on(changed.push(done).push(done).push(done).push(done), done);
        published_on(changed.push(done).push(done).push(done).push(done).push(done), done);
        assert(renewed(times) =~= changed.push(done).push(done).push(done).push(done).push(
            done,
        ).push(done));
    }
    published_on(renewed(times), MdnsEvent::NetworkChanged { watched: true });
    published_on(renewed(times), MdnsEvent::ShutdownRequested);
    published_on(renewed(times).push(MdnsEvent::ShutdownRequested), done);
}

/// A publisher attends to the network and to a shutdown only while it is idle; at work
/// it goes on with its call, and a call that fails while the announcement goes up, or
/// while the network is to be watched, ends it with the reason.
pub proof fn publisher_works_before_it_listens(
    stage: MdnsStage,
    watched: bool,
    message: String,
)
    ensures
        !(stage is Idle) ==> mdns_next(stage, MdnsEvent::ShutdownRequested) == (
        MdnsStepView::Continue { stage }),
        !(stage is Idle) || !watched ==> mdns_next(stage, MdnsEvent::NetworkChanged { watched })
            == (MdnsStepView::Continue { stage }),
        mdns_next(MdnsStage::Idle, MdnsEvent::Done) == (MdnsStepView::Continue {
            stage: MdnsStage::Idle,
        }),
        stage is Idle || stage is Debounce || stage is TakeDown ==> mdns_next(
            stage,
            MdnsEvent::Failed { message },
        ) == (MdnsStepView::Continue { stage }),
        mdns_next(MdnsStage::WatchNetwork, MdnsEvent::Failed { message }) == (
        MdnsStepView::Failed { message: message@ }),
        mdns_next(
            MdnsStage::Publish { watched, step: PublishStep::CreateDaemon },
            MdnsEvent::Failed { message },
        ) == (MdnsStepView::Failed { message: "failed to create mDNS daemon: "@ + message@ }),
        mdns_next(
            MdnsStage::Publish { watched, step: PublishStep::SetIpCheckInterval },
            MdnsEvent::Failed { message },
        ) == (MdnsStepView::Failed { message: "failed to disable mDNS IP polling: "@ + message@ }),
        mdns_next(
            MdnsStage::Publish { watched, step: PublishStep::DisableIpv6 },
            MdnsEvent::Failed { message },
        ) == (MdnsStepView::Failed {
            message: "failed to disable IPv6 mDNS interfaces: "@ + message@,
        }),
        mdns_next(
            MdnsStage::Publish { watched, step: PublishStep::Register },
            MdnsEvent::Failed { message },
        ) == (MdnsStepView::Failed { message: "failed to register mDNS service: "@ + message@ }),
{
}

/// What is announced is how the stream is sent.
pub proof fn announcement_says_how_to_listen()
    ensures
        stream_properties().len() == 7,
        stream_properties()[0] == ("format"@, "s16le"@),
        stream_properties()[1] == ("sample_rate"@, decimal(48_000)),
        stream_properties()[2] == ("channels"@, decimal(2)),
        stream_properties()[3] == ("frame_ms"@, decimal(10)),
        stream_properties()[4] == ("protocol"@, "tcp-control-udp-pcm-fec"@),
        stream_properties()[5] == ("control_port"@, decimal(9091)),
        stream_properties()[6] == ("audio_transport"@, "udp-client-port"@),
{
}

/// The network is watched once both notifications are there, and given up in the order
/// in which they were had, whatever the cancellations return.
pub proof fn network_is_watched_and_given_up(first: u32, second: u32, third: u32, fourth: u32)
    ensures
        watch_next(WatchStage::RegisterInterfaces, 0) is RegisterAddresses,
        watch_next(WatchStage::RegisterAddresses, 0) is Watching,
        watch_next(WatchStage::Watching, first) is CancelInterfaces,
        watch_next(WatchStage::CancelInterfaces, second) is CancelAddresses,
        watch_next(WatchStage::CancelAddresses, third) == (WatchStage::FreeContext { error: None }),
        watch_next(WatchStage::FreeContext { error: None }, fourth) == (WatchStage::Finished {
            error: None,
        }),
{
}

/// A notification that cannot be had is told by its code, once the one that was had and
/// the context are gone; nothing more happens then.
pub proof fn network_failure_is_told(code: u32, ignored: u32, error: Option<WatchError>)
    ensures
        code != 0 ==> watch_next(WatchStage::RegisterInterfaces, code) == (
        WatchStage::FreeContext { error: Some(WatchError::Interfaces { code }) }),
        code != 0 ==> watch_next(WatchStage::RegisterAddresses, code) == (
        WatchStage::CancelAlone { code }),
        watch_next(WatchStage::CancelAlone { code }, ignored) == (WatchStage::FreeContext {
            error: Some(WatchError::Addresses { code }),
        }),
        watch_next(WatchStage::FreeContext { error }, ignored) == (WatchStage::Finished { error }),
        watch_next(WatchStage::Finished { error }, ignored) == (WatchStage::Finished { error }),
        (WatchError::Interfaces { code }).text() == "NotifyIpInterfaceChange failed: WIN32_ERROR("@
            + decimal(code as nat) + ")"@,
        (WatchError::Addresses { code }).text()
            == "NotifyUnicastIpAddressChange failed: WIN32_ERROR("@ + decimal(code as nat) + ")"@,
{
}

/// Where the question for the engine's periods stands after a row of outcomes.
pub open spec fn asked(events: Seq<EngineEvent>) -> EngineStep
    decreases events.len(),
{
    if events.len() == 0 {
        EngineStep::Continue { stage: EngineStage::InitializeCom }
    } else {
        match asked(events.drop_last()) {
            EngineStep::Continue { stage } => engine_next(stage, events.last()),
            ended => ended,
        }
    }
}

/// The row holds this rate as the mix format, and later these periods.
pub open spec fn was_told(events: Seq<EngineEvent>, period: AudioEnginePeriod) -> bool {
    exists|i: int, j: int|
        0 <= i < j < events.len() && #[trigger] events[i] == (EngineEvent::MixFormat {
            sample_rate: period.sample_rate,
        }) && #[trigger] events[j] == (EngineEvent::Period {
            default_frames: period.default_frames,
            fundamental_frames: period.fundamental_frames,
            min_frames: period.min_frames,
            max_frames: period.max_frames,
        })
}

proof fn told_on(head: Seq<EngineEvent>, events: Seq<EngineEvent>, period: AudioEnginePeriod)
    requires
        events.len() > 0,
        head == events.drop_last(),
        was_told(head, period),
    ensures
        was_told(events, period),
{
    let (i, j) = choose|i: int, j: int|
        0 <= i < j < head.len() && #[trigger] head[i] == (EngineEvent::MixFormat {
            sample_rate: period.sample_rate,
        }) && #[trigger] head[j] == (EngineEvent::Period {
            default_frames: period.default_frames,
            fundamental_frames: period.fundamental_frames,
            min_frames: period.min_frames,
            max_frames: period.max_frames,
        });
    assert(events[i] == head[i] && events[j] == head[j]);
}

/// Whatever the endpoint answers, periods are reported only as it told them, each under
/// its own name, with the rate of the mix format that it told before.
pub proof fn periods_are_what_was_told(events: Seq<EngineEvent>)
    ensures
        match asked(events) {
            EngineStep::Answered { period } => was_told(events, period),
            EngineStep::Continue { stage } => match stage {
                EngineStage::GetPeriod { sample_rate } => exists|i: int|
                    0 <= i < events.len() && #[trigger] events[i] == (EngineEvent::MixFormat {
                        sample_rate,
                    }),
                EngineStage::FreeMixFormat { period: Some(period) } => was_told(events, period),
                _ => true,
            },
            EngineStep::Refused { .. } => true,
        },
    decreases events.len(),
{
    if events.len() > 0 {
        let head = events.drop_last();
        let last = events.len() - 1;
        periods_are_what_was_told(head);
        assert(events[last] == events.last());
        match asked(head) {
            EngineStep::Answered { period } => {
                told_on(head, events, period);
            },
            EngineStep::Continue { stage: EngineStage::GetPeriod { sample_rate } } => {
                let i = choose|i: int|
                    0 <= i < head.len() && #[trigger] head[i] == (EngineEvent::MixFormat {
                        sample_rate,
                    });
                assert(events[i] == head[i]);
                if let EngineEvent::Period {
                    default_frames,
                    fundamental_frames,
                    min_frames,
                    max_frames,
                } = events.last() {
                    let period = AudioEnginePeriod {
                        sample_rate,
                        default_frames,
                        fundamental_frames,
                        min_frames,
                        max_frames,
                    };
                    assert(events[i] == (EngineEvent::MixFormat {
                        sample_rate: period.sample_rate,
                    }));
                    assert(was_told(events, period));
                }
            },
            EngineStep::Continue { stage: EngineStage::FreeMixFormat { period: Some(period) } } => {
                told_on(head, events, period);
            },
            _ => {},
        }
    }
}

/// The endpoint is reached in this order; a call that fails ends the question with the
/// reason, the last one once the mix format was given back.
pub proof fn engine_is_asked_in_order(sample_rate: u32)
    ensures
        engine_next(EngineStage::InitializeCom, EngineEvent::Done) == (EngineStep::Continue {
            stage: EngineStage::CreateEnumerator,
        }),
        engine_next(EngineStage::CreateEnumerator, EngineEvent::Done) == (EngineStep::Continue {
            stage: EngineStage::GetEndpoint,
        }),
        engine_next(EngineStage::GetEndpoint, EngineEvent::Done) == (EngineStep::Continue {
            stage: EngineStage::ActivateClient,
        }),
        engine_next(EngineStage::ActivateClient, EngineEvent::Done) == (EngineStep::Continue {
            stage: EngineStage::GetMixFormat,
        }),
        engine_next(EngineStage::GetMixFormat, EngineEvent::MixFormat { sample_rate }) == (
        EngineStep::Continue { stage: EngineStage::GetPeriod { sample_rate } }),
        engine_next(EngineStage::GetPeriod { sample_rate }, EngineEvent::Failed) == (
        EngineStep::Continue { stage: EngineStage::FreeMixFormat { period: None } }),
        engine_next(EngineStage::FreeMixFormat { period: None }, EngineEvent::Done) == (
        EngineStep::Refused { error: EnginePeriodError::GetPeriod }),
        engine_next(EngineStage::InitializeCom, EngineEvent::Failed) == (EngineStep::Refused {
            error: EnginePeriodError::InitializeCom,
        }),
        engine_next(EngineStage::CreateEnumerator, EngineEvent::Failed) == (EngineStep::Refused {
            error: EnginePeriodError::CreateEnumerator,
        }),
        engine_next(EngineStage::GetEndpoint, EngineEvent::Failed) == (EngineStep::Refused {
            error: EnginePeriodError::GetEndpoint,
        }),
        engine_next(EngineStage::ActivateClient, EngineEvent::Failed) == (EngineStep::Refused {
            error: EnginePeriodError::ActivateClient,
        }),
        engine_next(EngineStage::GetMixFormat, EngineEvent::Failed) == (EngineStep::Refused {
            error: EnginePeriodError::GetMixFormat,
        }),
{
}

/// An outcome that a call cannot have leaves the question where it is.
pub proof fn engine_waits_for_its_outcome(stage: EngineStage, event: EngineEvent)
    requires
        match event {
            EngineEvent::Done => stage is GetMixFormat || stage is GetPeriod,
            EngineEvent::Failed => stage is FreeMixFormat,
            EngineEvent::MixFormat { .. } => !(stage is GetMixFormat),
            EngineEvent::Period { .. } => !(stage is GetPeriod),
        },
    ensures
        engine_next(stage, event) == (EngineStep::Continue { stage }),
{
}

/// A thread joins the scheduler first, is raised there where it was taken, and is raised
/// among all threads in any case; then nothing is left to do.
pub proof fn thread_is_raised_in_order(succeeded: bool)
    ensures
        boost_next(BoostStep::JoinProAudio, true) is RaiseProAudio,
        boost_next(BoostStep::JoinProAudio, false) is RaiseThread,
        boost_next(BoostStep::RaiseProAudio, succeeded) is RaiseThread,
        boost_next(BoostStep::RaiseThread, succeeded) is Done,
        boost_next(BoostStep::Done, succeeded) is Done,
{
}

/// Under which names the service is announced, how long it waits for the network to
/// settle and for an announcement to go, and how a probe is listened for. It never looks
/// at its addresses by the clock.
pub proof fn names_and_waits_are_fixed()
    ensures
        SERVICE_TYPE@ == "_lan-audio._tcp.local."@,
        INSTANCE_NAME@ == "Audio Link"@,
        HOST_NAME@ == "lan-audio.local."@,
        WEB_ADMIN_ADDR@ == "127.0.0.1:19092"@,
        CONTROL_PORT == 9091,
        NETWORK_CHANGE_DEBOUNCE_MS == 1000,
        SHUTDOWN_TIMEOUT_MS == 2000,
        IP_CHECK_INTERVAL_S == 0,
        LISTEN_MS == 3000,
        DATAGRAM_BYTES == 256,
{
}

} // verus!
