use audio_link::audio_stats::{
    record_udp_send_gap, record_wasapi_trigger_gap, reset_udp_stream, snapshot,
    update_udp_send_window, AudioStats,
};
use audio_link::capture::to_stereo;
use audio_link::change_count::bump;
use audio_link::command::{parse_command, Command};
use audio_link::control_server::{handle_client, ClientAction, ClientEvent, ClientState};
use audio_link::device::{AudioState, DeviceRequest, Host};
use audio_link::net::IpAddress;
use audio_link::reply::{error_reply, ping_reply, state_reply, time_reply};
use audio_link::resample::{linear_plan, LinearPlan};
use audio_link::wave_format::{wave_format_is_float, wave_format_is_pcm, WasapiSampleFormat, WaveFormat};

#[test]
fn every_port_and_volume_can_be_asked_for() {
    for port in 0..=u16::MAX {
        let line = format!("START_UDP {port}");
        assert!(matches!(parse_command(&line), Ok(Command::StartUdp { port: p }) if p == port));
    }
    for volume in 0..=u8::MAX {
        let line = format!("\t SET_VOLUME {volume}\r\n");
        assert!(
            matches!(parse_command(&line), Ok(Command::SetVolume { volume: v }) if v == volume)
        );
    }
}

#[test]
fn longest_gaps_are_kept() {
    let mut stats = AudioStats::new();
    for gap in [300, 9_000, 20] {
        record_udp_send_gap(&mut stats, gap);
        record_wasapi_trigger_gap(&mut stats, gap + 1);
    }
    let shown = snapshot(&stats);
    assert_eq!(shown.max_send_gap_us, 9_000);
    assert_eq!(shown.max_wasapi_trigger_gap_us, 9_001);
    assert_eq!(shown.wasapi_trigger_gap_us, 21);
    update_udp_send_window(&mut stats, 0, 77);
    assert_eq!(snapshot(&stats).send_gap_us, 77);
    reset_udp_stream(&mut stats, "b");
    let fresh = snapshot(&stats);
    assert_eq!(fresh.max_send_gap_us, 0);
    assert_eq!(fresh.wasapi_trigger_gap_us, 0);
    assert_eq!(fresh.target_addr, "b");
}

#[test]
fn whole_stereo_frames_are_kept_by_either_rule() {
    let bytes: Vec<u8> = (0..48).collect();
    for format in [
        WasapiSampleFormat::F32,
        WasapiSampleFormat::I16,
        WasapiSampleFormat::I24,
        WasapiSampleFormat::I32,
    ] {
        let size = format.sample_size();
        let kept = to_stereo(&bytes, 2, format);
        assert_eq!(kept.len(), 48 / size);
        for frame in 0..48 / (2 * size) {
            let one = &bytes[frame * 2 * size..(frame * 2 + 1) * size];
            assert_eq!(to_stereo(one, 1, format)[0], kept[2 * frame]);
        }
    }
}

#[test]
fn counts_differ_after_a_change() {
    for count in [0, 1, u64::MAX - 1, u64::MAX] {
        assert_ne!(bump(count), count);
        assert_ne!(bump(bump(count)), count);
    }
}

#[test]
fn client_gets_one_reply() {
    let mut state = ClientState::AwaitLine;
    let mut event = ClientEvent::Line { text: Some("MEDIA_PLAY_PAUSE\n".to_string()) };
    let mut replies = Vec::new();
    let mut steps = 0;
    while state != ClientState::Done {
        let (next, action) = handle_client(Host::Windows, IpAddress::V4(7), state, event);
        state = next;
        steps += 1;
        event = match action {
            ClientAction::Device { request: DeviceRequest::ReadState } => ClientEvent::State {
                reading: Ok(AudioState { volume: 7, muted: false }),
            },
            ClientAction::Device { .. } => ClientEvent::Device { outcome: Ok(()) },
            ClientAction::Reply { text } => {
                replies.push(text);
                ClientEvent::SessionStopped
            }
            _ => panic!("unexpected action"),
        };
    }
    assert_eq!(steps, 3);
    assert_eq!(replies, vec!["OK volume=7 muted=0 frame_ms=10\n".to_string()]);
    let (state, action) = handle_client(Host::Windows, IpAddress::V4(7), state, event);
    assert!(state == ClientState::Done && matches!(action, ClientAction::Wait));
}

#[test]
fn first_word_tells_errors_apart() {
    assert!(error_reply("OK no").starts_with("ERR "));
    assert!(state_reply(AudioState { volume: 1, muted: true }).starts_with("OK "));
    assert_eq!(ping_reply(65535), "OK udp_ping_port=65535\n");
    assert_eq!(time_reply(u64::MAX), "OK server_unix_ms=18446744073709551615\n");
}

#[test]
fn interpolated_frames_lie_inside() {
    for (samples, source, target) in [(882, 44_100u64, 48_000u64), (2_000, 96_000, 48_000), (4, 1, 7)] {
        match linear_plan(samples, source as u32, target as u32) {
            LinearPlan::Interpolate { target_frames } => {
                let last = (target_frames as u64 - 1) * source / target;
                assert!(last < (samples / 2) as u64);
            }
            LinearPlan::Keep => panic!("kept"),
        }
    }
}

#[test]
fn no_format_is_both_float_and_pcm() {
    let subs = [
        None,
        Some(0x00000001_0000_0010_8000_00aa00389b71),
        Some(0x00000003_0000_0010_8000_00aa00389b71),
        Some(0),
    ];
    for format_tag in [0, 1, 2, 3, 65534, 65535] {
        for sub_format in subs {
            let format = WaveFormat {
                format_tag,
                channels: 2,
                sample_rate: 48_000,
                block_align: 4,
                bits_per_sample: 16,
                sub_format,
            };
            for host in [Host::Windows, Host::Other] {
                let float = wave_format_is_float(host, &format);
                let pcm = wave_format_is_pcm(host, &format);
                assert!(!(float && pcm));
                assert!(format.is_float(host) == float);
                assert!(format.is_pcm(host) == pcm);
                assert!(host == Host::Windows || !(float || pcm));
            }
        }
    }
}
