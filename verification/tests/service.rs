use audio_link::audio_device_events::on_default_device_changed;
use audio_link::audio_engine_period::{
    engine_period_query, query_default_render_engine_period, AudioEnginePeriod, EngineEvent,
    EnginePeriodError, EngineStage, EngineStep,
};
use audio_link::audio_thread_priority::{boost_current_audio_thread, first_boost, BoostStep};
use audio_link::device::Host;
use audio_link::mdns_discovery::{
    properties, publish, run, service_info, MdnsEvent, MdnsStage, MdnsStep, PublishStep,
};
use audio_link::network_events::{
    first_watch, notify_network_change, watch_network_changes, WatchError, WatchStage,
};
use audio_link::service::{admin_url, ServiceEnd, ServiceEvent};

#[test]
fn announcement_says_what_is_served() {
    let service = match service_info() {
        Ok(service) => service,
        Err(error) => panic!("{error}"),
    };
    assert_eq!(service.get_type(), "_lan-audio._tcp.local.");
    assert_eq!(service.get_fullname(), "Audio Link._lan-audio._tcp.local.");
    assert_eq!(service.get_hostname(), "lan-audio.local.");
    assert_eq!(service.get_port(), 9091);
    assert!(service.get_subtype().is_none());
    assert!(service.is_addr_auto());
    assert!(service.get_addresses().is_empty());
    assert!(format!("{service:?}").contains("supported_intfs: [IPv4]"));
    let expected = [
        ("format", "s16le"),
        ("sample_rate", "48000"),
        ("channels", "2"),
        ("frame_ms", "10"),
        ("protocol", "tcp-control-udp-pcm-fec"),
        ("control_port", "9091"),
        ("audio_transport", "udp-client-port"),
    ];
    assert_eq!(service.get_properties().len(), expected.len());
    for (key, value) in expected {
        assert_eq!(service.get_property_val_str(key), Some(value));
    }
    assert_eq!(properties().len(), 7);
}

fn mdns(stage: MdnsStage, event: MdnsEvent) -> MdnsStage {
    match run(stage, event) {
        MdnsStep::Continue { stage } => stage,
        MdnsStep::Stopped => panic!("stopped"),
        MdnsStep::Failed { message } => panic!("{message}"),
    }
}

#[test]
fn announcement_follows_the_network() {
    let mut stage = publish();
    for _ in 0..4 {
        stage = mdns(stage, MdnsEvent::Done);
    }
    assert!(stage == MdnsStage::WatchNetwork);
    stage = mdns(stage, MdnsEvent::Done);
    stage = mdns(stage, MdnsEvent::NetworkChanged { watched: false });
    assert!(stage == MdnsStage::Idle);
    stage = mdns(stage, MdnsEvent::NetworkChanged { watched: true });
    assert!(stage == MdnsStage::Debounce);
    stage = mdns(stage, MdnsEvent::Done);
    assert!(stage == MdnsStage::TakeDown { last: false });
    for _ in 0..5 {
        stage = mdns(stage, MdnsEvent::Done);
    }
    assert!(stage == MdnsStage::Idle);
    stage = mdns(stage, MdnsEvent::ShutdownRequested);
    assert!(matches!(run(stage, MdnsEvent::Done), MdnsStep::Stopped));
}

#[test]
fn announcement_failures_name_the_call() {
    let cases = [
        (PublishStep::CreateDaemon, "failed to create mDNS daemon: why"),
        (PublishStep::SetIpCheckInterval, "failed to disable mDNS IP polling: why"),
        (PublishStep::DisableIpv6, "failed to disable IPv6 mDNS interfaces: why"),
        (PublishStep::Register, "failed to register mDNS service: why"),
    ];
    for (step, expected) in cases {
        let stage = MdnsStage::Publish { watched: true, step };
        match run(stage, MdnsEvent::Failed { message: "why".to_string() }) {
            MdnsStep::Failed { message } => assert_eq!(message, expected),
            _ => panic!("not failed"),
        }
    }
    match run(MdnsStage::WatchNetwork, MdnsEvent::Failed { message: "why".to_string() }) {
        MdnsStep::Failed { message } => assert_eq!(message, "why"),
        _ => panic!("not failed"),
    }
}

#[test]
fn network_watcher_cleans_up() {
    let mut stage = first_watch(Host::Windows);
    assert!(stage == WatchStage::RegisterInterfaces);
    stage = watch_network_changes(stage, 0);
    stage = watch_network_changes(stage, 0);
    assert!(stage == WatchStage::Watching);
    stage = watch_network_changes(stage, 0);
    stage = watch_network_changes(stage, 6);
    assert!(stage == WatchStage::CancelAddresses);
    stage = watch_network_changes(stage, 0);
    assert!(stage == WatchStage::FreeContext { error: None });
    assert!(watch_network_changes(stage, 0) == WatchStage::Finished { error: None });
    assert!(first_watch(Host::Other) == WatchStage::Finished { error: None });
}

#[test]
fn network_watcher_reports_failures() {
    let stage = watch_network_changes(WatchStage::RegisterInterfaces, 5);
    let error = WatchError::Interfaces { code: 5 };
    assert!(stage == WatchStage::FreeContext { error: Some(error) });
    assert_eq!(error.message(), "NotifyIpInterfaceChange failed: WIN32_ERROR(5)");
    let stage = watch_network_changes(WatchStage::RegisterAddresses, 50);
    assert!(stage == WatchStage::CancelAlone { code: 50 });
    let stage = watch_network_changes(stage, 0);
    let error = WatchError::Addresses { code: 50 };
    assert!(stage == WatchStage::FreeContext { error: Some(error) });
    assert_eq!(error.message(), "NotifyUnicastIpAddressChange failed: WIN32_ERROR(50)");
}

#[test]
fn changes_are_counted() {
    assert_eq!(notify_network_change(0), 1);
    assert_eq!(notify_network_change(u64::MAX), 0);
    assert_eq!(on_default_device_changed(0, 0, 4), Some(5));
    assert_eq!(on_default_device_changed(0, 1, u64::MAX), Some(0));
    assert_eq!(on_default_device_changed(0, 2, 4), None);
    assert_eq!(on_default_device_changed(1, 0, 4), None);
}

#[test]
fn engine_period_is_told() {
    let mut step = engine_period_query(Host::Windows);
    let events = [
        EngineEvent::Done,
        EngineEvent::Done,
        EngineEvent::Done,
        EngineEvent::Done,
        EngineEvent::MixFormat { sample_rate: 44_100 },
        EngineEvent::Period {
            default_frames: 441,
            fundamental_frames: 4,
            min_frames: 128,
            max_frames: 448,
        },
        EngineEvent::Done,
    ];
    for event in events {
        match step {
            EngineStep::Continue { stage } => {
                step = query_default_render_engine_period(stage, event);
            }
            _ => panic!("ended early"),
        }
    }
    let expected = AudioEnginePeriod {
        sample_rate: 44_100,
        default_frames: 441,
        fundamental_frames: 4,
        min_frames: 128,
        max_frames: 448,
    };
    assert!(step == EngineStep::Answered { period: expected });
}

#[test]
fn engine_period_failures_name_the_call() {
    let cases = [
        (EngineStage::InitializeCom, "failed to initialize COM"),
        (EngineStage::CreateEnumerator, "failed to create MMDeviceEnumerator"),
        (EngineStage::GetEndpoint, "failed to get default render endpoint"),
        (EngineStage::ActivateClient, "failed to activate IAudioClient3"),
        (EngineStage::GetMixFormat, "failed to get mix format"),
    ];
    for (stage, text) in cases {
        match query_default_render_engine_period(stage, EngineEvent::Failed) {
            EngineStep::Refused { error } => assert_eq!(error.message(), text),
            _ => panic!("not refused"),
        }
    }
    let stage = EngineStage::GetPeriod { sample_rate: 48_000 };
    let free = EngineStage::FreeMixFormat { period: None };
    assert!(
        query_default_render_engine_period(stage, EngineEvent::Failed)
            == EngineStep::Continue { stage: free }
    );
    let refused = EngineStep::Refused { error: EnginePeriodError::GetPeriod };
    assert!(query_default_render_engine_period(free, EngineEvent::Done) == refused);
    assert_eq!(
        EnginePeriodError::GetPeriod.message(),
        "failed to query shared mode engine period"
    );
    match engine_period_query(Host::Other) {
        EngineStep::Refused { error } => assert_eq!(
            error.message(),
            "IAudioClient3 engine period query is only supported on Windows"
        ),
        _ => panic!("not refused"),
    }
}

#[test]
fn threads_are_raised_in_the_end() {
    assert!(first_boost(Host::Other) == BoostStep::Done);
    let first = first_boost(Host::Windows);
    assert!(first == BoostStep::JoinProAudio);
    assert!(boost_current_audio_thread(first, false) == BoostStep::RaiseThread);
    let joined = boost_current_audio_thread(first, true);
    assert!(joined == BoostStep::RaiseProAudio);
    assert!(boost_current_audio_thread(joined, false) == BoostStep::RaiseThread);
    assert!(boost_current_audio_thread(BoostStep::RaiseThread, false) == BoostStep::Done);
}

#[test]
fn first_task_decides() {
    let done = audio_link::service::run(ServiceEvent::TaskDone);
    assert!(matches!(done, ServiceEnd::Shutdown));
    let asked = audio_link::service::run(ServiceEvent::ShutdownRequested);
    assert!(matches!(asked, ServiceEnd::Shutdown));
    let failed =
        audio_link::service::run(ServiceEvent::TaskFailed { message: "port taken".to_string() });
    assert!(matches!(failed, ServiceEnd::Failed { message } if message == "port taken"));
}

#[test]
fn browser_is_sent_to_the_admin_page() {
    assert_eq!(admin_url(), "http://127.0.0.1:19092");
}
