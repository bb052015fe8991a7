use audio_link::audio_stats::{clear_history, snapshot, AudioStats};
use audio_link::capture::{
    needs_resampler, to_stereo, CaptureProcessor, CaptureStep, StereoEvent, StereoStep,
};
use audio_link::loopback::{
    frames_to_hns, process_capture_packets, run_wasapi_loopback, shared_engine_period_frames,
    spawn_speaker_loopback_stream, LoopbackEvent, LoopbackStage, LoopbackStep, OpenStep,
    PrepareStep, RunStep, StreamSetup,
};
use audio_link::device::Host;
use audio_link::pcm_pipe::{AudioChunk, PcmPipe, PipePoll};
use audio_link::pipeline::{
    begin_pipeline, capture_started, spawn_capture_control_thread,
    spawn_speaker_loopback_udp_pipeline, stream_started, CaptureControl,
    CaptureControlAction, CaptureControlEvent, PipelineAction, PipelineEvent, PipelineState,
    ThreadReport,
};
use audio_link::resample::{
    linear_plan, LinearPlan, ResampleAction, ResampleEvent, StreamResampler,
};
use audio_link::wave_format::{FormatError, WasapiSampleFormat, WaveFormat};

fn format(tag: u16, bits: u16, sub_format: Option<u128>) -> WaveFormat {
    WaveFormat {
        format_tag: tag,
        channels: 2,
        sample_rate: 48_000,
        block_align: 8,
        bits_per_sample: bits,
        sub_format,
    }
}

const PCM: u128 = 0x00000001_0000_0010_8000_00aa00389b71;
const FLOAT: u128 = 0x00000003_0000_0010_8000_00aa00389b71;

#[test]
fn sample_formats_are_recognized() {
    let cases = [
        (format(3, 32, None), WasapiSampleFormat::F32, 4),
        (format(65534, 32, Some(FLOAT)), WasapiSampleFormat::F32, 4),
        (format(1, 16, None), WasapiSampleFormat::I16, 2),
        (format(65534, 24, Some(PCM)), WasapiSampleFormat::I24, 3),
        (format(1, 32, None), WasapiSampleFormat::I32, 4),
    ];
    for (wave, expected, size) in cases {
        match WasapiSampleFormat::from_wave_format(Host::Windows, &wave) {
            Ok(found) => {
                assert!(found == expected);
                assert_eq!(found.sample_size(), size);
            }
            Err(error) => panic!("{}", error.message()),
        }
    }
}

#[test]
fn other_formats_are_refused_with_their_numbers() {
    match WasapiSampleFormat::from_wave_format(Host::Windows, &format(1, 8, None)) {
        Err(error) => {
            assert!(error == FormatError::PcmDepth { bits: 8 });
            assert_eq!(error.message(), "Unsupported WASAPI PCM bit depth: 8");
        }
        Ok(_) => panic!("8 bits"),
    }
    match WasapiSampleFormat::from_wave_format(Host::Windows, &format(3, 64, None)) {
        Err(error) => assert_eq!(
            error.message(),
            "Unsupported WASAPI mix format: tag=3 bits=64 subtype=None"
        ),
        Ok(_) => panic!("64 bits"),
    }
    let guid = windows_core::GUID::from_u128(0x00000092_0000_0010_8000_00aa00389b71);
    match WasapiSampleFormat::from_wave_format(Host::Windows, &format(65534, 16, Some(guid.to_u128()))) {
        Err(error) => assert_eq!(
            error.message(),
            format!("Unsupported WASAPI mix format: tag=65534 bits=16 subtype={:?}", Some(guid))
        ),
        Ok(_) => panic!("sub format"),
    }
}

#[test]
fn stereo_is_taken_as_it_is() {
    let bytes = [1, 0, 2, 0, 3, 0, 4, 0, 5];
    assert_eq!(to_stereo(&bytes, 2, WasapiSampleFormat::I16), vec![1, 2, 3, 4]);
}

#[test]
fn mono_is_doubled() {
    let bytes = [1, 0, 0xff, 0xff, 9];
    assert_eq!(to_stereo(&bytes, 1, WasapiSampleFormat::I16), vec![1, 1, -1, -1]);
    assert_eq!(to_stereo(&bytes, 0, WasapiSampleFormat::I16), vec![1, 1, -1, -1]);
}

#[test]
fn surround_keeps_its_front_channels() {
    let mut bytes = Vec::new();
    for sample in [10i32, 20, 30, -40, -50, -60] {
        bytes.extend_from_slice(&sample.to_le_bytes()[..3]);
    }
    assert_eq!(to_stereo(&bytes, 3, WasapiSampleFormat::I24), vec![10, 20, -40, -50]);
}

#[test]
fn floats_are_their_bit_patterns() {
    let bytes = 0.5f32.to_le_bytes();
    let out = to_stereo(&bytes, 1, WasapiSampleFormat::F32);
    assert_eq!(out, vec![0.5f32.to_bits() as i32; 2]);
}

#[test]
fn matching_audio_goes_on_unchanged() {
    let mut stats = AudioStats::new();
    let mut pipe = PcmPipe::new();
    let mut processor = CaptureProcessor::new(48_000, 2, false, &stats);
    let step =
        processor.send_wasapi_bytes(&[1, 0, 2, 0], WasapiSampleFormat::I16, 0, &mut stats, &mut pipe);
    assert!(matches!(step, CaptureStep::Pushed));
    assert!(matches!(pipe.recv_pcm(), PipePoll::Chunk(AudioChunk::I16(s)) if s == vec![1, 2]));
    let step = processor.send_silence(2, 0, &mut stats, &mut pipe);
    assert!(matches!(step, CaptureStep::Pushed));
    assert!(matches!(pipe.recv_pcm(), PipePoll::Chunk(AudioChunk::I16(s)) if s == vec![0; 4]));
    let step =
        processor.send_wasapi_bytes(&[1, 0, 0, 0], WasapiSampleFormat::I32, 0, &mut stats, &mut pipe);
    assert!(matches!(
        step,
        CaptureStep::Convert { samples, format } if samples == vec![1]
            && format == WasapiSampleFormat::I32
    ));
}

#[test]
fn other_audio_is_converted() {
    let mut stats = AudioStats::new();
    let mut pipe = PcmPipe::new();
    let mut processor = CaptureProcessor::new(44_100, 2, true, &stats);
    let step =
        processor.send_wasapi_bytes(&[1, 0, 2, 0], WasapiSampleFormat::I16, 0, &mut stats, &mut pipe);
    assert!(matches!(
        step,
        CaptureStep::Convert { samples, format } if samples == vec![1, 2]
            && format == WasapiSampleFormat::I16
    ));
    let step = processor.send_silence(1, 0, &mut stats, &mut pipe);
    assert!(matches!(
        step,
        CaptureStep::Convert { samples, format } if samples == vec![0, 0]
            && format == WasapiSampleFormat::F32
    ));
}

#[test]
fn empty_deliveries_do_not_count() {
    let mut stats = AudioStats::new();
    let mut pipe = PcmPipe::new();
    let mut processor = CaptureProcessor::new(48_000, 2, false, &stats);
    assert!(matches!(
        processor.send_wasapi_bytes(&[], WasapiSampleFormat::I16, 5, &mut stats, &mut pipe),
        CaptureStep::Nothing
    ));
    assert!(matches!(processor.send_silence(0, 5, &mut stats, &mut pipe), CaptureStep::Nothing));
    assert!(processor.last_trigger.is_none());
}

#[test]
fn routes_follow_the_rate_and_the_resampler() {
    let stats = AudioStats::new();
    assert!(!needs_resampler(48_000));
    assert!(needs_resampler(44_100));
    let mut pipe = PcmPipe::new();
    let converted = || StereoEvent::Converted { stereo: vec![1, 2] };
    let popped = |pipe: &mut PcmPipe, expected: Vec<u32>| {
        matches!(pipe.recv_pcm(), PipePoll::Chunk(AudioChunk::F32(bits)) if bits == expected)
            && matches!(pipe.recv_pcm(), PipePoll::Empty)
    };

    let direct = CaptureProcessor::new(48_000, 6, true, &stats);
    assert!(matches!(direct.send_stereo(converted(), &mut pipe), StereoStep::Done));
    assert!(popped(&mut pipe, vec![1, 2]));

    let resampled = CaptureProcessor::new(44_100, 2, true, &stats);
    let step = resampled.send_stereo(converted(), &mut pipe);
    assert!(matches!(step, StereoStep::Resample { stereo } if stereo == vec![1, 2]));
    assert!(matches!(pipe.recv_pcm(), PipePoll::Empty));
    let good = StereoEvent::Resampled { stereo: vec![1, 2], outcome: Some(vec![7]) };
    assert!(matches!(resampled.send_stereo(good, &mut pipe), StereoStep::Done));
    assert!(popped(&mut pipe, vec![7]));
    let bad = StereoEvent::Resampled { stereo: vec![1, 2], outcome: None };
    assert!(matches!(
        resampled.send_stereo(bad, &mut pipe),
        StereoStep::Interpolate { stereo, source_rate: 44_100, target_rate: 48_000 }
            if stereo == vec![1, 2]
    ));
    assert!(matches!(pipe.recv_pcm(), PipePoll::Empty));

    let linear = CaptureProcessor::new(44_100, 2, false, &stats);
    assert!(matches!(
        linear.send_stereo(converted(), &mut pipe),
        StereoStep::Interpolate { .. }
    ));
    let done = StereoEvent::Interpolated { pcm: vec![9] };
    assert!(matches!(linear.send_stereo(done, &mut pipe), StereoStep::Done));
    assert!(popped(&mut pipe, vec![9]));
}

#[test]
fn trigger_gaps_skip_a_clearing() {
    let mut stats = AudioStats::new();
    let mut processor = CaptureProcessor::new(48_000, 2, false, &stats);
    processor.record_trigger(1_000_000, &mut stats);
    processor.record_trigger(11_500_000, &mut stats);
    assert_eq!(snapshot(&stats).wasapi_trigger_gap_us, 10_500);
    clear_history(&mut stats);
    processor.record_trigger(99_000_000, &mut stats);
    assert_eq!(snapshot(&stats).max_wasapi_trigger_gap_us, 0);
    processor.record_trigger(100_000_000, &mut stats);
    assert_eq!(snapshot(&stats).wasapi_trigger_gap_us, 1_000);
    assert_eq!(snapshot(&stats).max_wasapi_trigger_gap_us, 1_000);
}

/// Runs a piece through a resampler that takes two frames and negates their bits.
fn resampled(state: &mut StreamResampler, piece: &[u32]) -> Vec<u32> {
    let mut event = ResampleEvent::Input { samples: piece.to_vec() };
    loop {
        event = match state.process(event) {
            ResampleAction::AskBlockFrames => ResampleEvent::BlockFrames { frames: 2 },
            ResampleAction::Resample { block } => {
                assert_eq!(block.len(), 4);
                let made = block.iter().map(|sample| !sample).collect();
                ResampleEvent::Resampled { outcome: Some(made) }
            }
            ResampleAction::Done { pcm } => return pcm,
            ResampleAction::Failed => panic!("failed"),
        };
    }
}

#[test]
fn resampled_audio_may_be_cut_anywhere() {
    let stream: Vec<u32> = (0..23).collect();
    let mut whole = StreamResampler::new();
    let expected = resampled(&mut whole, &stream);
    assert_eq!(expected, stream[..20].iter().map(|sample| !sample).collect::<Vec<u32>>());
    for cut in 0..=stream.len() {
        let mut state = StreamResampler::new();
        let mut made = resampled(&mut state, &stream[..cut]);
        made.extend(resampled(&mut state, &stream[cut..]));
        assert_eq!(made, expected);
        assert_eq!(resampled(&mut state, &[23]), vec![!20, !21, !22, !23]);
    }
}

#[test]
fn failed_resampling_loses_the_piece() {
    let mut state = StreamResampler::new();
    state.process(ResampleEvent::Input { samples: vec![1, 2, 3, 4, 5] });
    state.process(ResampleEvent::BlockFrames { frames: 1 });
    state.process(ResampleEvent::Resampled { outcome: Some(vec![8]) });
    let block = state.process(ResampleEvent::BlockFrames { frames: 1 });
    assert!(matches!(block, ResampleAction::Resample { block } if block == vec![3, 4]));
    let failed = state.process(ResampleEvent::Resampled { outcome: None });
    assert!(matches!(failed, ResampleAction::Failed));
    state.process(ResampleEvent::Input { samples: vec![6] });
    let block = state.process(ResampleEvent::BlockFrames { frames: 1 });
    assert!(matches!(block, ResampleAction::Resample { block } if block == vec![5, 6]));
    let done = state.process(ResampleEvent::BlockFrames { frames: usize::MAX });
    assert!(matches!(done, ResampleAction::Done { pcm } if pcm.is_empty()));
}

#[test]
fn linear_resampling_keeps_the_duration() {
    assert!(linear_plan(3, 44_100, 48_000) == LinearPlan::Keep);
    assert!(
        linear_plan(882, 44_100, 48_000) == LinearPlan::Interpolate { target_frames: 480 }
    );
    assert!(linear_plan(5, 96_000, 48_000) == LinearPlan::Interpolate { target_frames: 1 });
}

#[test]
fn durations_are_in_hundreds_of_nanoseconds() {
    assert_eq!(frames_to_hns(480, 48_000), 100_000);
    assert_eq!(frames_to_hns(441, 44_100), 100_000);
    assert_eq!(frames_to_hns(0, 48_000), 1);
    assert_eq!(frames_to_hns(480, 0), 100_000);
    assert_eq!(frames_to_hns(u32::MAX, 1), 42_949_672_950_000_000);
}

#[test]
fn period_is_the_shortest_on_offer() {
    assert_eq!(shared_engine_period_frames(16, 128), 128);
    assert_eq!(shared_engine_period_frames(480, 128), 480);
    assert_eq!(shared_engine_period_frames(0, 0), 1);
}

fn setup() -> StreamSetup {
    StreamSetup {
        format: format(3, 32, None),
        sample_format: WasapiSampleFormat::F32,
        period_frames: 480,
    }
}

fn next(stage: LoopbackStage, event: LoopbackEvent) -> LoopbackStage {
    match run_wasapi_loopback(stage, event) {
        LoopbackStep::Continue { stage } => stage,
        LoopbackStep::Stopped => panic!("stopped"),
        LoopbackStep::Failed { message, .. } => panic!("{message}"),
    }
}

fn failure(stage: LoopbackStage, event: LoopbackEvent) -> (bool, String) {
    match run_wasapi_loopback(stage, event) {
        LoopbackStep::Failed { setting_up, message } => (setting_up, message),
        _ => panic!("not failed"),
    }
}

#[test]
fn loopback_is_set_up_in_order() {
    let mut stage = match spawn_speaker_loopback_stream(Host::Windows) {
        Ok(stage) => stage,
        Err(message) => panic!("{message}"),
    };
    for _ in 0..5 {
        stage = next(stage, LoopbackEvent::Done);
    }
    assert!(stage == LoopbackStage::Open(OpenStep::GetMixFormat));
    stage = next(stage, LoopbackEvent::MixFormat { format: Some(format(3, 32, None)) });
    stage = next(
        stage,
        LoopbackEvent::EnginePeriod { fundamental_frames: 16, min_frames: 480 },
    );
    assert!(stage == LoopbackStage::Prepare(setup(), PrepareStep::InitializeCapture));
    stage = next(stage, LoopbackEvent::Failed { message: "no".to_string() });
    assert!(
        stage
            == LoopbackStage::Prepare(
                setup(),
                PrepareStep::FallBackCapture { duration: 100_000 }
            )
    );
    for _ in 0..8 {
        stage = next(stage, LoopbackEvent::Done);
    }
    assert!(stage == LoopbackStage::Prepare(setup(), PrepareStep::GetRenderBufferSize));
    stage = next(stage, LoopbackEvent::Frames { frames: 960 });
    assert!(stage == LoopbackStage::Prepare(setup(), PrepareStep::PrimeSilence { frames: 960 }));
    for _ in 0..4 {
        stage = next(stage, LoopbackEvent::Done);
    }
    assert!(stage == LoopbackStage::Run(setup(), RunStep::CheckStop));
}

#[test]
fn loopback_needs_windows() {
    match spawn_speaker_loopback_stream(Host::Other) {
        Err(message) => assert_eq!(
            message,
            "native WASAPI loopback capture is only supported on Windows"
        ),
        Ok(_) => panic!("started"),
    }
}

#[test]
fn loopback_failures_name_the_call() {
    let failed = || LoopbackEvent::Failed { message: "cause".to_string() };
    let stage = LoopbackStage::Open(OpenStep::InitializeCom);
    assert_eq!(failure(stage, failed()), (true, "failed to initialize COM: cause".to_string()));
    let stage = LoopbackStage::Open(OpenStep::GetMixFormat);
    assert_eq!(
        failure(stage, LoopbackEvent::MixFormat { format: None }),
        (true, "WASAPI returned null mix format".to_string())
    );
    assert_eq!(
        failure(stage, LoopbackEvent::MixFormat { format: Some(format(1, 8, None)) }),
        (true, "Unsupported WASAPI PCM bit depth: 8".to_string())
    );
    let stage = LoopbackStage::GetEnginePeriod {
        format: format(3, 32, None),
        sample_format: WasapiSampleFormat::F32,
    };
    assert_eq!(failure(stage, failed()), (true, "cause".to_string()));
    let stage =
        LoopbackStage::Prepare(setup(), PrepareStep::FallBackRender { duration: 100_000 });
    assert_eq!(
        failure(stage, failed()),
        (true, "failed to initialize WASAPI silence clock: cause".to_string())
    );
    let stage = LoopbackStage::Run(setup(), RunStep::ReleasePacket { frames: 1 });
    assert_eq!(
        failure(stage, failed()),
        (false, "failed to release WASAPI capture buffer: cause".to_string())
    );
    let stage = LoopbackStage::Run(setup(), RunStep::WaitForEvent);
    assert_eq!(
        failure(stage, LoopbackEvent::Signaled { wait_result: u32::MAX }),
        (false, "failed to wait for WASAPI event".to_string())
    );
}

#[test]
fn packets_are_delivered_and_given_back() {
    let setup = setup();
    let silent = process_capture_packets(setup, 480, 3, true);
    assert!(silent == RunStep::DeliverSilence { frames: 480 });
    let audible = process_capture_packets(setup, 480, 1, true);
    assert!(audible == RunStep::DeliverBytes { frames: 480, byte_len: 3840 });
    let missing = process_capture_packets(setup, 480, 0, false);
    assert!(missing == RunStep::ReleasePacket { frames: 480 });
    let empty = process_capture_packets(setup, 0, 0, true);
    assert!(empty == RunStep::ReleasePacket { frames: 0 });

    let mut stage = LoopbackStage::Run(setup, RunStep::CheckStop);
    stage = next(stage, LoopbackEvent::Stop { requested: false });
    stage = next(stage, LoopbackEvent::Signaled { wait_result: 0 });
    stage = next(stage, LoopbackEvent::Frames { frames: 480 });
    stage = next(stage, LoopbackEvent::Packet { frames: 470, flags: 0, has_data: true });
    stage = next(stage, LoopbackEvent::Done);
    assert!(stage == LoopbackStage::Run(setup, RunStep::ReleasePacket { frames: 470 }));
    stage = next(stage, LoopbackEvent::Done);
    stage = next(stage, LoopbackEvent::Frames { frames: 0 });
    assert!(stage == LoopbackStage::Run(setup, RunStep::CheckStop));
    assert!(matches!(
        run_wasapi_loopback(stage, LoopbackEvent::Stop { requested: true }),
        LoopbackStep::Stopped
    ));
}

#[test]
fn silence_fills_the_render_buffer() {
    let mut stage = LoopbackStage::Run(setup(), RunStep::WaitForEvent);
    stage = next(stage, LoopbackEvent::Signaled { wait_result: 1 });
    stage = next(stage, LoopbackEvent::Frames { frames: 960 });
    let full = next(stage, LoopbackEvent::Frames { frames: 960 });
    assert!(full == LoopbackStage::Run(setup(), RunStep::CheckStop));
    let room = next(stage, LoopbackEvent::Frames { frames: 100 });
    assert!(room == LoopbackStage::Run(setup(), RunStep::WriteSilence { frames: 860 }));
}

#[test]
fn silent_threads_count_as_failures() {
    let ok = || ThreadReport::Reported { outcome: Ok(()) };
    assert_eq!(capture_started(ok()), Ok(()));
    assert_eq!(stream_started(ok()), Ok(()));
    let bad = ThreadReport::Reported { outcome: Err("why".to_string()) };
    assert_eq!(capture_started(bad), Err("why".to_string()));
    assert_eq!(
        capture_started(ThreadReport::NotSpawned),
        Err("failed to spawn capture control thread".to_string())
    );
    assert_eq!(
        capture_started(ThreadReport::Lost),
        Err("capture control thread stopped before startup".to_string())
    );
    assert_eq!(
        stream_started(ThreadReport::NotSpawned),
        Err("failed to spawn native WASAPI loopback thread".to_string())
    );
    assert_eq!(
        stream_started(ThreadReport::Lost),
        Err("WASAPI loopback thread stopped before startup".to_string())
    );
}

#[test]
fn pipeline_starts_capture_and_sender() {
    let mut stats = AudioStats::new();
    let started = PipelineEvent::CaptureStarted { outcome: Ok(()) };
    let (state, action) = spawn_speaker_loopback_udp_pipeline(
        PipelineState::StartingCapture,
        started,
        &mut stats,
    );
    assert!(matches!(action, PipelineAction::StartSender));
    let (failed, action) = spawn_speaker_loopback_udp_pipeline(
        state,
        PipelineEvent::SenderStarted { started: false },
        &mut stats,
    );
    assert!(failed == PipelineState::Ended);
    assert!(matches!(
        action,
        PipelineAction::Refuse { message } if message == "failed to spawn UDP audio send thread"
    ));
    let (state, action) = spawn_speaker_loopback_udp_pipeline(
        state,
        PipelineEvent::SenderStarted { started: true },
        &mut stats,
    );
    assert!(state == PipelineState::Watching);
    assert!(matches!(action, PipelineAction::ReportStarted));
}

#[test]
fn capture_that_cannot_start_refuses_the_session() {
    let mut stats = AudioStats::new();
    stats.active = true;
    stats.target_addr = "10.0.0.9:1".to_string();
    stats.max_send_gap_us = 5;
    let outcome = Err("failed to initialize COM: no".to_string());
    let (state, action) = spawn_speaker_loopback_udp_pipeline(
        PipelineState::StartingCapture,
        PipelineEvent::CaptureStarted { outcome },
        &mut stats,
    );
    assert!(state == PipelineState::Ended);
    assert!(matches!(
        action,
        PipelineAction::Refuse { message } if message == "failed to initialize COM: no"
    ));
    let mut pipe = PcmPipe::new();
    match begin_pipeline(Host::Other, &mut pipe, &mut stats) {
        Err(PipelineAction::Refuse { message }) => assert_eq!(
            message,
            "native WASAPI loopback capture is only supported on Windows"
        ),
        _ => panic!("not refused"),
    }
    assert!(matches!(pipe.recv_pcm(), PipePoll::Closed));
    let shown = snapshot(&stats);
    assert!(shown.active && shown.max_send_gap_us == 5);
    assert_eq!(shown.target_addr, "10.0.0.9:1");
    let mut pipe = PcmPipe::new();
    let begun = begin_pipeline(Host::Windows, &mut pipe, &mut stats);
    assert!(matches!(begun, Ok(LoopbackStage::Open(OpenStep::InitializeCom))));
    assert!(matches!(pipe.recv_pcm(), PipePoll::Empty));
}

#[test]
fn pipeline_restarts_and_ends() {
    let mut stats = AudioStats::new();
    let watching = PipelineState::Watching;
    let changed = PipelineEvent::DeviceChanged { watched: true };
    let (state, action) = spawn_speaker_loopback_udp_pipeline(watching, changed, &mut stats);
    assert!(state == PipelineState::Restarting);
    assert!(matches!(action, PipelineAction::SendRestart));
    let sent = PipelineEvent::RestartSent { taken: true };
    let (state, action) = spawn_speaker_loopback_udp_pipeline(state, sent, &mut stats);
    assert!(state == PipelineState::Watching && matches!(action, PipelineAction::Wait));
    let kept = PipelineEvent::StopChanged { owned: true, stop: false };
    let (state, action) = spawn_speaker_loopback_udp_pipeline(watching, kept, &mut stats);
    assert!(state == PipelineState::Watching && matches!(action, PipelineAction::Wait));
    let ends = [
        PipelineEvent::SenderDone,
        PipelineEvent::DeviceChanged { watched: false },
        PipelineEvent::StopChanged { owned: true, stop: true },
        PipelineEvent::StopChanged { owned: false, stop: false },
    ];
    for end in ends {
        stats.active = true;
        let (state, action) = spawn_speaker_loopback_udp_pipeline(watching, end, &mut stats);
        assert!(state == PipelineState::Ended && matches!(action, PipelineAction::End));
        assert!(!snapshot(&stats).active);
    }
}

#[test]
fn capture_control_survives_a_failed_restart() {
    let mut pipe = PcmPipe::new();
    let (state, action) = spawn_capture_control_thread(
        CaptureControl::Starting,
        CaptureControlEvent::StreamStarted,
        &mut pipe,
    );
    assert!(matches!(action, CaptureControlAction::ReportStarted));
    let (state, action) =
        spawn_capture_control_thread(state, CaptureControlEvent::RestartRequested, &mut pipe);
    assert!(matches!(action, CaptureControlAction::ReplaceStream));
    let failed = CaptureControlEvent::StreamFailed { message: "busy".to_string() };
    let (state, action) = spawn_capture_control_thread(state, failed, &mut pipe);
    assert!(state == CaptureControl::Running { capturing: false });
    assert!(matches!(action, CaptureControlAction::Wait));
    assert!(matches!(pipe.recv_pcm(), PipePoll::Empty));
    let (state, action) =
        spawn_capture_control_thread(state, CaptureControlEvent::RequestsClosed, &mut pipe);
    assert!(state == CaptureControl::Ended && matches!(action, CaptureControlAction::End));
    assert!(matches!(pipe.recv_pcm(), PipePoll::Closed));
}

#[test]
fn first_stream_that_fails_ends_the_capture() {
    let mut pipe = PcmPipe::new();
    let failed = CaptureControlEvent::StreamFailed { message: "no device".to_string() };
    let (state, action) =
        spawn_capture_control_thread(CaptureControl::Starting, failed, &mut pipe);
    assert!(state == CaptureControl::Ended);
    assert!(matches!(
        action,
        CaptureControlAction::ReportFailed { message } if message == "no device"
    ));
    assert!(matches!(pipe.recv_pcm(), PipePoll::Closed));
}
