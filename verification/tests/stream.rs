use audio_link::audio_stats::{clear_history, snapshot, AudioStats};
use audio_link::packet::{write_udp_packet_header, write_udp_packet_sent_at};
use audio_link::pcm::{
    consume_prefix, encode_pcm_s16le_stereo_fec, pcm_i16_to_le, read_i16, read_i16_samples,
    read_i24, read_i32,
};
use audio_link::pcm_pipe::{push_latest_pcm, AudioChunk, PcmPipe, PipePoll};
use audio_link::sender::{
    begin_pcm_udp, send_pcm_udp, FrameSizer, PcmSender, SendAction, SendEvent, SendStage,
};

fn u64_at(packet: &[u8], at: usize) -> u64 {
    let mut bytes: [u8; 8] = [0; 8];
    bytes.copy_from_slice(&packet[at..at + 8]);
    u64::from_le_bytes(bytes)
}

fn u32_at(packet: &[u8], at: usize) -> u32 {
    let mut bytes: [u8; 4] = [0; 4];
    bytes.copy_from_slice(&packet[at..at + 4]);
    u32::from_le_bytes(bytes)
}

fn ramp(from: i16, len: usize) -> Vec<i16> {
    (0..len).map(|i| from.wrapping_add(i as i16)).collect()
}

fn sent(ns: u64) -> SendEvent {
    SendEvent::Sent { sent_ns: ns, checked_ns: ns, restarted_ns: ns }
}

fn bound(target_addr: &str) -> SendEvent {
    SendEvent::Bound { target_addr: target_addr.to_string() }
}

/// Runs a sender over chunks, every send a millisecond after the one before.
fn packets_of(chunks: &[Vec<i16>]) -> Vec<Vec<u8>> {
    let mut stats = AudioStats::new();
    let (mut sender, stage) = begin_pcm_udp(0);
    let (mut stage, _) = send_pcm_udp(&mut sender, stage, bound("10.0.0.2:5000"), &mut stats);
    let mut packets = Vec::new();
    let mut now: u64 = 0;
    for chunk in chunks {
        let mut event = SendEvent::Samples { samples: chunk.clone() };
        loop {
            let (next, action) = send_pcm_udp(&mut sender, stage, event, &mut stats);
            stage = next;
            match action {
                SendAction::Send { packet } => packets.push(packet),
                SendAction::Receive => break,
                _ => panic!("unexpected action"),
            }
            now += 1_000_000;
            event = sent(now);
        }
    }
    packets
}

#[test]
fn header_without_redundancy() {
    let mut out = vec![9, 9, 9];
    write_udp_packet_header(1, 480, 0x0102, 960, None, &mut out);
    let mut expected = Vec::new();
    expected.extend_from_slice(b"LAP1");
    expected.extend_from_slice(&[1, 48, 0x02, 0x01]);
    expected.extend_from_slice(&1u64.to_le_bytes());
    expected.extend_from_slice(&480u64.to_le_bytes());
    expected.extend_from_slice(&0u64.to_le_bytes());
    expected.extend_from_slice(&1920u32.to_le_bytes());
    expected.extend_from_slice(&0u64.to_le_bytes());
    expected.extend_from_slice(&[0, 0, 0, 0]);
    assert_eq!(out, expected);
    assert_eq!(out.len(), 48);
}

#[test]
fn header_with_redundancy() {
    let payload = vec![5u8; 300];
    let mut out = Vec::new();
    write_udp_packet_header(u64::MAX, 7, 0, 2, Some((u64::MAX - 1, &payload[..])), &mut out);
    assert_eq!(out.len(), 48);
    assert_eq!(u64_at(&out, 8), u64::MAX);
    assert_eq!(u64_at(&out, 16), 7);
    assert_eq!(u32_at(&out, 32), 4);
    assert_eq!(u64_at(&out, 36), u64::MAX - 1);
    assert_eq!(&out[44..48], &[1, 0, 44, 1]);
}

#[test]
fn stamp_changes_only_its_field() {
    let mut packet: Vec<u8> = (0..60).collect();
    write_udp_packet_sent_at(&mut packet, 0x0807_0605_0403_0201);
    let mut expected: Vec<u8> = (0..60).collect();
    expected[24..32].copy_from_slice(&[1, 2, 3, 4, 5, 6, 7, 8]);
    assert_eq!(packet, expected);
}

#[test]
fn samples_are_little_endian() {
    for value in [0i16, 1, -1, 255, 256, i16::MIN, i16::MAX, -12345] {
        assert_eq!(read_i16(&value.to_le_bytes()), value);
    }
    for value in [0i32, 1, -1, 8_388_607, -8_388_608, 66_051, -66_051] {
        assert_eq!(read_i24(&value.to_le_bytes()[..3]), value);
    }
    for value in [0i32, 1, -1, i32::MIN, i32::MAX, 16_909_060] {
        assert_eq!(read_i32(&value.to_le_bytes()), value);
    }
    assert_eq!(read_i16_samples(&[1, 0, 0xff, 0xff, 7]), vec![1, -1]);
}

#[test]
fn frames_are_written_little_endian() {
    let mut out = vec![9u8];
    pcm_i16_to_le(&[1, -2], &mut out);
    assert_eq!(out, vec![9, 1, 0, 0xfe, 0xff]);
    encode_pcm_s16le_stereo_fec(&[256], &mut out);
    assert_eq!(out, vec![0, 1]);
}

#[test]
fn prefix_is_consumed() {
    let mut samples = vec![1i16, 2, 3, 4];
    consume_prefix(&mut samples, 1);
    assert_eq!(samples, vec![2, 3, 4]);
    consume_prefix(&mut samples, 0);
    assert_eq!(samples, vec![2, 3, 4]);
    consume_prefix(&mut samples, 9);
    assert_eq!(samples, Vec::<i16>::new());
}

#[test]
fn frames_last_ten_milliseconds() {
    let mut sizer = FrameSizer::new();
    let total: usize = (0..100).map(|_| sizer.next_frame_samples()).sum();
    assert_eq!(total, 48_000);
}

#[test]
fn packets_do_not_depend_on_chunks() {
    let stream = ramp(-700, 4 * 960 + 500);
    let whole = packets_of(&[stream.clone()]);
    let pieces: Vec<Vec<i16>> = stream.chunks(333).map(|piece| piece.to_vec()).collect();
    assert_eq!(whole.len(), 4);
    assert_eq!(packets_of(&pieces), whole);
}

#[test]
fn packets_carry_number_time_and_frame() {
    let stream = ramp(100, 3 * 960);
    let packets = packets_of(&[stream.clone()]);
    assert_eq!(packets.len(), 3);
    for k in 0..3 {
        let packet = &packets[k];
        assert_eq!(u64_at(packet, 8), k as u64);
        assert_eq!(u64_at(packet, 16), 480 * k as u64);
        assert_eq!(u32_at(packet, 32), 1920);
        assert_eq!(read_i16_samples(&packet[48..48 + 1920]), stream[k * 960..(k + 1) * 960]);
    }
    assert_eq!(packets[0].len(), 48 + 1920);
    assert_eq!(packets[1].len(), 48 + 2 * 1920);
}

#[test]
fn lost_frame_is_in_the_next_packet() {
    let stream = ramp(0, 2 * 960);
    let packets = packets_of(&[stream.clone()]);
    let next = &packets[1];
    let at = 48 + u32_at(next, 32) as usize;
    assert_eq!(u64_at(next, 36), 0);
    assert_eq!(next[44], 1);
    assert_eq!(&next[46..48], &1920u16.to_le_bytes());
    assert_eq!(read_i16_samples(&next[at..]), stream[..960]);
}

#[test]
fn sender_keeps_gaps_and_windows() {
    let mut stats = AudioStats::new();
    let (mut sender, stage) = begin_pcm_udp(1_000);
    let (stage, action) = send_pcm_udp(&mut sender, stage, bound("10.0.0.2:5000"), &mut stats);
    assert!(matches!(action, SendAction::Receive));
    let first = snapshot(&stats);
    assert!(first.active);
    assert_eq!(first.target_addr, "10.0.0.2:5000");
    let samples = SendEvent::Samples { samples: vec![0i16; 960 * 4] };
    let (stage, action) = send_pcm_udp(&mut sender, stage, samples, &mut stats);
    assert!(matches!(action, SendAction::Send { .. }));
    let (stage, _) = send_pcm_udp(&mut sender, stage, sent(10_000_000), &mut stats);
    assert_eq!(snapshot(&stats).max_send_gap_us, 0);
    let (stage, _) = send_pcm_udp(&mut sender, stage, sent(22_345_678), &mut stats);
    assert_eq!(snapshot(&stats).max_send_gap_us, 12_345);
    assert_eq!(snapshot(&stats).send_gap_us, 0);
    let late = SendEvent::Sent {
        sent_ns: 999_999_000,
        checked_ns: 1_000_001_000,
        restarted_ns: 1_000_003_000,
    };
    let (stage, _) = send_pcm_udp(&mut sender, stage, late, &mut stats);
    assert_eq!(snapshot(&stats).send_gap_us, 977_653);
    assert_eq!(snapshot(&stats).max_send_gap_us, 977_653);
    let early = SendEvent::Sent {
        sent_ns: 2_000_000_000,
        checked_ns: 2_000_002_999,
        restarted_ns: 2_000_002_999,
    };
    let (stage, action) = send_pcm_udp(&mut sender, stage, early, &mut stats);
    assert_eq!(snapshot(&stats).send_gap_us, 977_653);
    assert!(matches!(action, SendAction::Receive));
    let (stage, action) = send_pcm_udp(&mut sender, stage, SendEvent::Closed, &mut stats);
    assert!(stage == SendStage::Ended && matches!(action, SendAction::Finished));
    assert!(!snapshot(&stats).active);
    assert_eq!(snapshot(&stats).send_gap_us, 977_653);
}

#[test]
fn failed_send_is_the_last_one() {
    let mut stats = AudioStats::new();
    let (mut sender, stage) = begin_pcm_udp(0);
    let (stage, _) = send_pcm_udp(&mut sender, stage, bound("a"), &mut stats);
    let samples = SendEvent::Samples { samples: vec![0i16; 960 * 4] };
    let (stage, action) = send_pcm_udp(&mut sender, stage, samples, &mut stats);
    assert!(matches!(action, SendAction::Send { .. }));
    let (stage, action) = send_pcm_udp(&mut sender, stage, sent(1), &mut stats);
    assert!(matches!(action, SendAction::Send { .. }));
    let failed = SendEvent::SendFailed { message: "host unreachable".to_string() };
    let (stage, action) = send_pcm_udp(&mut sender, stage, failed, &mut stats);
    assert!(stage == SendStage::Ended);
    assert!(matches!(
        action,
        SendAction::Failed { message } if message
            == "Failed to send PCM frame to UDP client: host unreachable"
    ));
    let later = [
        sent(2),
        SendEvent::Samples { samples: vec![0i16; 960] },
        SendEvent::Closed,
        bound("b"),
    ];
    for event in later {
        let (stage, action) = send_pcm_udp(&mut sender, SendStage::Ended, event, &mut stats);
        assert!(stage == SendStage::Ended && matches!(action, SendAction::Wait));
    }
    assert_eq!(snapshot(&stats).target_addr, "a");
}

#[test]
fn copies_follow_a_packet() {
    let mut stats = AudioStats::new();
    let mut sender = PcmSender::new(0);
    let stage = SendStage::Sending { copies_left: 1 };
    let (stage, action) = send_pcm_udp(&mut sender, stage, sent(1), &mut stats);
    assert!(stage == SendStage::Sending { copies_left: 0 });
    assert!(matches!(action, SendAction::SendAgain));
    let (stage, action) = send_pcm_udp(&mut sender, stage, sent(2), &mut stats);
    assert!(stage == SendStage::Receiving && matches!(action, SendAction::Receive));
}

#[test]
fn failed_bind_leaves_the_counters_alone() {
    let mut stats = AudioStats::new();
    stats.active = true;
    stats.target_addr = "other".to_string();
    stats.max_send_gap_us = 9;
    let (mut sender, stage) = begin_pcm_udp(0);
    let failed = SendEvent::BindFailed { message: "no sockets".to_string() };
    let (stage, action) = send_pcm_udp(&mut sender, stage, failed, &mut stats);
    assert!(stage == SendStage::Ended);
    assert!(matches!(action, SendAction::Failed { message } if message == "no sockets"));
    let shown = snapshot(&stats);
    assert!(shown.active && shown.max_send_gap_us == 9);
    assert_eq!(shown.target_addr, "other");
}

#[test]
fn clearing_keeps_the_stream() {
    let mut stats = AudioStats::new();
    let (mut sender, stage) = begin_pcm_udp(0);
    send_pcm_udp(&mut sender, stage, bound("a"), &mut stats);
    sender.packet_sent(1_000_000, &mut stats);
    sender.packet_sent(5_000_000, &mut stats);
    assert_eq!(snapshot(&stats).max_send_gap_us, 4_000);
    clear_history(&mut stats);
    let cleared = snapshot(&stats);
    assert_eq!(cleared.max_send_gap_us, 0);
    assert!(cleared.active);
    assert_eq!(cleared.target_addr, "a");
    assert_eq!(audio_link::audio_stats::clear_epoch(&stats), 1);
}

#[test]
fn pipe_gives_chunks_in_order() {
    let mut pipe = PcmPipe::new();
    assert!(matches!(pipe.recv_pcm(), PipePoll::Empty));
    push_latest_pcm(&mut pipe, AudioChunk::I16(vec![1]));
    push_latest_pcm(&mut pipe, AudioChunk::F32(vec![2]));
    pipe.close();
    assert!(matches!(pipe.recv_pcm(), PipePoll::Chunk(AudioChunk::I16(s)) if s == vec![1]));
    assert!(matches!(pipe.recv_pcm(), PipePoll::Chunk(AudioChunk::F32(s)) if s == vec![2]));
    assert!(matches!(pipe.recv_pcm(), PipePoll::Closed));
}

#[test]
fn full_pipe_drops_its_oldest_chunk() {
    let mut pipe = PcmPipe::new();
    for n in 0..40i16 {
        push_latest_pcm(&mut pipe, AudioChunk::I16(vec![n]));
    }
    for n in 8..40i16 {
        assert!(matches!(pipe.recv_pcm(), PipePoll::Chunk(AudioChunk::I16(s)) if s == vec![n]));
    }
    assert!(matches!(pipe.recv_pcm(), PipePoll::Empty));
}
