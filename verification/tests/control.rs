use audio_link::command::{parse_command, Command, CommandError};
use audio_link::control_server::{
    handle_client, run, ClientAction, ClientEvent, ClientState, ServerAction, ServerEvent,
    SessionTarget,
};
use audio_link::device::{
    begin_request, media_key_sent, set_volume, with_endpoint_volume, AudioState, DeviceError, DeviceEvent,
    DeviceRequest, DeviceStage, DeviceStep, Host, MediaKey,
};
use audio_link::latency::{
    current_unix_time_ms, start_udp_ping_responder, udp_ping_response, ResponderAction,
    ResponderEvent, LISTEN_MS,
};
use audio_link::net::{require_loopback, Access, IpAddress};
use audio_link::reply::{error_reply, server_status_response};
use audio_link::session::AudioSession;

/// 10.0.0.2
const CLIENT: IpAddress = IpAddress::V4(0x0a00_0002);

fn parsed(line: &str) -> Command {
    match parse_command(line) {
        Ok(command) => command,
        Err(error) => panic!("{line}: {}", error.message()),
    }
}

fn refused(line: &str) -> CommandError {
    match parse_command(line) {
        Ok(_) => panic!("{line} was understood"),
        Err(error) => error,
    }
}

fn line(text: &str) -> ClientEvent {
    ClientEvent::Line { text: Some(text.to_string()) }
}

fn reply_text(step: (ClientState, ClientAction)) -> String {
    assert!(step.0 == ClientState::Done);
    match step.1 {
        ClientAction::Reply { text } => text,
        _ => panic!("no reply"),
    }
}

#[test]
fn every_request_is_understood() {
    assert!(parsed("START_UDP_PING\n") == Command::StartUdpPing);
    assert!(parsed("SERVER_TIME\r\n") == Command::ServerTime);
    assert!(parsed(" STATUS ") == Command::Status);
    assert!(parsed("GET") == Command::Get);
    assert!(parsed("PING") == Command::Ping);
    assert!(parsed("START_UDP 5000\n") == Command::StartUdp { port: 5000 });
    assert!(parsed("START_UDP\t+65535 more") == Command::StartUdp { port: 65535 });
    assert!(parsed("STOP_UDP") == Command::StopUdp);
    assert!(parsed("SET_VOLUME 255") == Command::SetVolume { volume: 255 });
    assert!(parsed("SET_MUTE 0") == Command::SetMute { muted: false });
    assert!(parsed("SET_MUTE 1 x") == Command::SetMute { muted: true });
    assert!(parsed("MEDIA_NEXT") == Command::MediaNext);
    assert!(parsed("MEDIA_PREVIOUS ignored") == Command::MediaPrevious);
    assert!(parsed("MEDIA_PLAY_PAUSE") == Command::MediaPlayPause);
}

#[test]
fn every_refusal_has_its_reason() {
    assert!(refused("START_UDP") == CommandError::MissingUdpPort);
    assert!(refused("START_UDP 65536") == CommandError::InvalidUdpPort);
    assert!(refused("START_UDP x") == CommandError::InvalidUdpPort);
    assert!(refused("SET_VOLUME") == CommandError::MissingVolume);
    assert!(refused("SET_VOLUME -1") == CommandError::InvalidVolume);
    assert!(refused("SET_VOLUME 256") == CommandError::InvalidVolume);
    assert!(refused("SET_MUTE") == CommandError::MissingMute);
    assert!(refused("SET_MUTE 2") == CommandError::InvalidMute);
    assert!(refused("get") == CommandError::Unknown);
    assert!(refused("") == CommandError::Unknown);
    assert!(refused("STATUS now") == CommandError::Unknown);
    assert!(refused("START_UDP_PING 1") == CommandError::Unknown);
}

#[test]
fn refusals_are_told() {
    let texts = [
        ("START_UDP", "ERR START_UDP requires a UDP port\n"),
        ("START_UDP x", "ERR invalid UDP port\n"),
        ("SET_VOLUME", "ERR SET_VOLUME requires a 0-100 value\n"),
        ("SET_VOLUME x", "ERR invalid volume value\n"),
        ("SET_MUTE", "ERR SET_MUTE requires 0 or 1\n"),
        ("SET_MUTE x", "ERR invalid mute value\n"),
        ("HELLO", "ERR unknown command\n"),
    ];
    for (request, expected) in texts {
        let step = handle_client(Host::Windows, CLIENT, ClientState::AwaitLine, line(request));
        assert_eq!(reply_text(step), expected);
    }
}

#[test]
fn hang_up_is_not_answered() {
    let (state, action) =
        handle_client(Host::Windows, CLIENT, ClientState::AwaitLine, ClientEvent::Line { text: None });
    assert!(state == ClientState::Done);
    assert!(matches!(action, ClientAction::Close));
}

#[test]
fn ping_responder_is_announced() {
    let (state, action) =
        handle_client(Host::Other, CLIENT, ClientState::AwaitLine, line("START_UDP_PING\n"));
    assert!(matches!(action, ClientAction::StartPingResponder));
    let step = handle_client(Host::Other, CLIENT, state, ClientEvent::Ping { port: Some(40123) });
    assert_eq!(reply_text(step), "OK udp_ping_port=40123\n");
    let (ended, action) = handle_client(Host::Other, CLIENT, state, ClientEvent::Ping { port: None });
    assert!(ended == ClientState::Done);
    assert!(matches!(action, ClientAction::Close));
}

#[test]
fn clock_and_status_are_told() {
    let (state, action) = handle_client(Host::Other, CLIENT, ClientState::AwaitLine, line("SERVER_TIME"));
    assert!(matches!(action, ClientAction::ReadClock));
    let step = handle_client(Host::Other, CLIENT, state, ClientEvent::Clock { unix_ms: 1_700_000_000_123 });
    assert_eq!(reply_text(step), "OK server_unix_ms=1700000000123\n");

    let (state, action) = handle_client(Host::Other, CLIENT, ClientState::AwaitLine, line("STATUS"));
    assert!(matches!(action, ClientAction::ReadStatus));
    let step = handle_client(
        Host::Other,
        CLIENT,
        state,
        ClientEvent::Status {
            session: true,
            active: false,
            target_addr: "192.168.1.7:5000".to_string(),
        },
    );
    assert_eq!(
        reply_text(step),
        "OK running=1 udp_session=1 audio_active=0 target_addr=192.168.1.7:5000 frame_ms=10 \
         protocol=tcp-control-udp-pcm-fec\n",
    );
    assert_eq!(
        server_status_response(false, true, ""),
        "OK running=1 udp_session=0 audio_active=1 target_addr= frame_ms=10 \
         protocol=tcp-control-udp-pcm-fec\n",
    );
}

#[test]
fn volume_is_set_and_read_back() {
    let (state, action) =
        handle_client(Host::Windows, CLIENT, ClientState::AwaitLine, line("SET_VOLUME 130\n"));
    assert!(matches!(
        action,
        ClientAction::Device { request: DeviceRequest::SetVolume { percent: 100 } }
    ));
    let (state, action) =
        handle_client(Host::Windows, CLIENT, state, ClientEvent::Device { outcome: Ok(()) });
    assert!(matches!(action, ClientAction::Device { request: DeviceRequest::ReadState }));
    let step = handle_client(
        Host::Windows,
        CLIENT,
        state,
        ClientEvent::State { reading: Ok(AudioState { volume: 100, muted: true }) },
    );
    assert_eq!(reply_text(step), "OK volume=100 muted=1 frame_ms=10\n");
}

#[test]
fn failed_requests_are_told() {
    let (state, _) = handle_client(Host::Windows, CLIENT, ClientState::AwaitLine, line("SET_MUTE 1"));
    let step = handle_client(
        Host::Windows,
        CLIENT,
        state,
        ClientEvent::Device { outcome: Err(DeviceError::SetMute) },
    );
    assert_eq!(reply_text(step), "ERR failed to set mute state\n");
    let step = handle_client(Host::Other, CLIENT, ClientState::AwaitLine, line("GET"));
    assert_eq!(
        reply_text(step),
        "ERR computer volume control is only supported on Windows\n",
    );
    let step = handle_client(Host::Other, CLIENT, ClientState::AwaitLine, line("MEDIA_NEXT"));
    assert_eq!(reply_text(step), "ERR media keys are only supported on Windows\n");
}

#[test]
fn session_replies_make_do_without_a_volume() {
    let step = handle_client(Host::Other, CLIENT, ClientState::AwaitLine, line("PING"));
    assert_eq!(reply_text(step), "OK volume=0 muted=0 frame_ms=10\n");

    let (state, action) =
        handle_client(Host::Windows, CLIENT, ClientState::AwaitLine, line("START_UDP 6000"));
    assert!(matches!(
        action,
        ClientAction::StartSession { target: SessionTarget { address: CLIENT, port: 6000 } }
    ));
    let (state, action) = handle_client(Host::Windows, CLIENT, state, ClientEvent::SessionStarted);
    assert!(matches!(action, ClientAction::Device { request: DeviceRequest::ReadState }));
    let step = handle_client(
        Host::Windows,
        CLIENT,
        state,
        ClientEvent::State { reading: Err(DeviceError::GetVolume) },
    );
    assert_eq!(reply_text(step), "OK volume=0 muted=0 frame_ms=10\n");

    let (state, action) = handle_client(Host::Other, CLIENT, ClientState::AwaitLine, line("STOP_UDP"));
    assert!(matches!(action, ClientAction::StopSession));
    let step = handle_client(Host::Other, CLIENT, state, ClientEvent::SessionStopped);
    assert_eq!(reply_text(step), "OK volume=0 muted=0 frame_ms=10\n");
}

#[test]
fn failed_session_is_told() {
    let (state, _) = handle_client(Host::Other, CLIENT, ClientState::AwaitLine, line("START_UDP 1"));
    let message = "native WASAPI loopback capture is only supported on Windows".to_string();
    let step = handle_client(Host::Other, CLIENT, state, ClientEvent::SessionFailed { message });
    assert_eq!(
        reply_text(step),
        "ERR native WASAPI loopback capture is only supported on Windows\n",
    );
}

#[test]
fn unexpected_events_change_nothing() {
    let (state, action) =
        handle_client(Host::Windows, CLIENT, ClientState::AwaitClock, ClientEvent::SessionStarted);
    assert!(state == ClientState::AwaitClock);
    assert!(matches!(action, ClientAction::Wait));
}

#[test]
fn errors_are_told_as_they_are() {
    assert_eq!(error_reply("x: y"), "ERR x: y\n");
}

#[test]
fn host_is_asked_step_by_step() {
    let request = DeviceRequest::ReadState;
    let mut stage = begin_request(request);
    let events = [
        DeviceEvent::Done,
        DeviceEvent::Done,
        DeviceEvent::Done,
        DeviceEvent::Done,
        DeviceEvent::Volume { reading: 42 },
    ];
    for event in events {
        match with_endpoint_volume(request, stage, event) {
            DeviceStep::Continue { stage: next } => stage = next,
            _ => panic!("ended early"),
        }
    }
    assert!(stage == DeviceStage::GetMute { volume: 42 });
    let step = with_endpoint_volume(request, stage, DeviceEvent::Mute { muted: true });
    assert!(step == DeviceStep::State { state: AudioState { volume: 42, muted: true } });
}

#[test]
fn set_volume_is_read_back() {
    for volume in 0..=u8::MAX {
        let percent = match set_volume(Host::Windows, volume) {
            Ok(DeviceRequest::SetVolume { percent }) => percent,
            _ => panic!("no request"),
        };
        assert_eq!(percent, volume.min(100));
        let request = DeviceRequest::SetVolume { percent };
        let set = with_endpoint_volume(request, DeviceStage::ActivateVolume, DeviceEvent::Done);
        assert!(set == DeviceStep::Continue { stage: DeviceStage::SetVolume { percent } });
        let scalar = percent as f32 / 100.0;
        let reading = (scalar.clamp(0.0, 1.0) * 100.0).round() as u8;
        let told = with_endpoint_volume(
            DeviceRequest::ReadState,
            DeviceStage::GetVolume,
            DeviceEvent::Volume { reading },
        );
        assert!(
            told == DeviceStep::Continue { stage: DeviceStage::GetMute { volume: percent } }
        );
    }
}

#[test]
fn read_volume_is_a_percentage() {
    for reading in 0..=u8::MAX {
        let told = with_endpoint_volume(
            DeviceRequest::ReadState,
            DeviceStage::GetVolume,
            DeviceEvent::Volume { reading },
        );
        let volume = reading.min(100);
        assert!(told == DeviceStep::Continue { stage: DeviceStage::GetMute { volume } });
    }
}

#[test]
fn host_failures_name_the_call() {
    let request = DeviceRequest::SetVolume { percent: 10 };
    let failures = [
        (DeviceStage::InitializeCom, "failed to initialize COM"),
        (DeviceStage::CreateEnumerator, "failed to create MMDeviceEnumerator"),
        (DeviceStage::GetEndpoint, "failed to get default audio endpoint"),
        (DeviceStage::ActivateVolume, "failed to activate endpoint volume"),
        (DeviceStage::GetVolume, "failed to get master volume"),
        (DeviceStage::GetMute { volume: 1 }, "failed to get mute state"),
        (DeviceStage::SetVolume { percent: 10 }, "failed to set master volume"),
        (DeviceStage::SetMute { muted: true }, "failed to set mute state"),
        (DeviceStage::SendKey { key: MediaKey::PlayPause }, "failed to send media key"),
    ];
    for (stage, text) in failures {
        match with_endpoint_volume(request, stage, DeviceEvent::Failed) {
            DeviceStep::Failed { error } => assert_eq!(error.message(), text),
            _ => panic!("not failed"),
        }
    }
}

#[test]
fn key_needs_both_inputs() {
    let request = DeviceRequest::PressKey { key: MediaKey::NextTrack };
    let stage = begin_request(request);
    assert!(stage == DeviceStage::SendKey { key: MediaKey::NextTrack });
    let done = with_endpoint_volume(request, stage, DeviceEvent::InputsSent { count: 2 });
    assert!(done == DeviceStep::Done);
    let half = with_endpoint_volume(request, stage, DeviceEvent::InputsSent { count: 1 });
    assert!(half == DeviceStep::Failed { error: DeviceError::SendKey });
    assert!(media_key_sent(0).is_err());
}

#[test]
fn sessions_replace_each_other() {
    let mut session: AudioSession<u32, &str> = AudioSession::new();
    assert!(!session.is_running());
    assert_eq!(session.start_udp_audio_session(Ok(()), 1, "a"), Ok(None));
    assert_eq!(session.start_udp_audio_session(Ok(()), 2, "b"), Ok(Some(1)));
    assert!(session.is_running());
    assert_eq!(session.target_addr, Some("b"));
    assert_eq!(session.stop_udp_audio_session(), (Some(2), Some("b")));
    assert_eq!(session.stop_udp_audio_session(), (None, None));
    assert!(!session.is_running());
}

#[test]
fn failed_start_leaves_the_session_alone() {
    let mut session: AudioSession<u32, &str> = AudioSession::new();
    let failed = || Err("no capture".to_string());
    assert_eq!(
        session.start_udp_audio_session(failed(), 1, "a"),
        Err("no capture".to_string())
    );
    assert!(!session.is_running());
    assert_eq!(session.start_udp_audio_session(Ok(()), 2, "b"), Ok(None));
    assert_eq!(
        session.start_udp_audio_session(failed(), 3, "c"),
        Err("no capture".to_string())
    );
    assert_eq!(session.stop_udp_audio_session(), (Some(2), Some("b")));
}

#[test]
fn audio_goes_to_the_client_itself() {
    for client in [IpAddress::V4(0x0a00_0002), IpAddress::V6(0xfe80 << 112 | 9)] {
        let (state, action) =
            handle_client(Host::Other, client, ClientState::AwaitLine, line("START_UDP 5000"));
        assert!(matches!(
            action,
            ClientAction::StartSession { target } if target
                == SessionTarget { address: client, port: 5000 }
        ));
        let step = handle_client(Host::Other, client, state, ClientEvent::SessionStarted);
        assert_eq!(reply_text(step), "OK volume=0 muted=0 frame_ms=10\n");
    }
}

#[test]
fn responder_ends_when_nothing_comes() {
    assert_eq!(LISTEN_MS, 3000);
    let from_client = ResponderEvent::Datagram {
        from: CLIENT,
        request: vec![1, 2],
        receive_ms: 1,
        send_ms: 2,
    };
    assert!(matches!(
        start_udp_ping_responder(CLIENT, from_client),
        ResponderAction::Reply { datagram } if datagram == vec![1, 2]
    ));
    let from_other = ResponderEvent::Datagram {
        from: IpAddress::V4(1),
        request: vec![1, 2],
        receive_ms: 1,
        send_ms: 2,
    };
    assert!(matches!(
        start_udp_ping_responder(CLIENT, from_other),
        ResponderAction::Listen
    ));
    assert!(matches!(
        start_udp_ping_responder(CLIENT, ResponderEvent::TimedOut),
        ResponderAction::End
    ));
    assert!(matches!(
        start_udp_ping_responder(CLIENT, ResponderEvent::ReceiveFailed),
        ResponderAction::End
    ));
}

#[test]
fn probe_is_answered_with_both_times() {
    let client = IpAddress::V4(0xc0a8_0107);
    let mut request = b"LAT1".to_vec();
    request.extend_from_slice(&[1, 2, 3, 4, 5, 6, 7, 8, 9, 10, 11, 12]);
    let reply = udp_ping_response(client, client, &request, 1000, 1001);
    let mut expected = b"LAT1".to_vec();
    expected.extend_from_slice(&[1, 2, 3, 4]);
    expected.extend_from_slice(&1000u64.to_le_bytes());
    expected.extend_from_slice(&1001u64.to_le_bytes());
    assert_eq!(reply, Some(expected));
}

#[test]
fn other_datagrams_are_echoed_to_the_client_alone() {
    let client = IpAddress::V6(7);
    assert_eq!(udp_ping_response(client, client, b"LAT1", 1, 2), Some(b"LAT1".to_vec()));
    assert_eq!(udp_ping_response(client, client, &[], 1, 2), Some(vec![]));
    let long = vec![3u8; 16];
    assert_eq!(udp_ping_response(client, client, &long, 1, 2), Some(long.clone()));
    assert_eq!(udp_ping_response(client, IpAddress::V4(7), &long, 1, 2), None);
}

#[test]
fn clock_before_the_epoch_reads_zero() {
    assert_eq!(current_unix_time_ms(None), 0);
    assert_eq!(current_unix_time_ms(Some(1_700_000_000_123)), 1_700_000_000_123);
    assert_eq!(current_unix_time_ms(Some((1u128 << 64) + 5)), 5);
}

#[test]
fn admin_page_is_for_this_machine() {
    assert!(require_loopback(IpAddress::V4(0x7f00_0001)) == Access::Granted);
    assert!(require_loopback(IpAddress::V4(0x7fff_ffff)) == Access::Granted);
    assert!(require_loopback(IpAddress::V4(0x8000_0000)) == Access::Forbidden);
    assert!(require_loopback(IpAddress::V4(0xc0a8_0001)) == Access::Forbidden);
    assert!(require_loopback(IpAddress::V6(1)) == Access::Granted);
    assert!(require_loopback(IpAddress::V6(0xffff_7f00_0001)) == Access::Forbidden);
    assert!(IpAddress::V4(9).bind_address() == IpAddress::V4(0));
    assert!(IpAddress::V6(9).bind_address() == IpAddress::V6(0));
}

#[test]
fn control_port_stops_its_session_first() {
    assert!(matches!(run(ServerEvent::Accepted), ServerAction::Serve));
    assert!(matches!(run(ServerEvent::ShutdownRequested), ServerAction::StopSession));
    assert!(matches!(run(ServerEvent::SessionStopped), ServerAction::Stopped));
    let message = "no sockets left".to_string();
    assert!(matches!(
        run(ServerEvent::AcceptFailed { message }),
        ServerAction::Failed { message } if message == "no sockets left"
    ));
}
