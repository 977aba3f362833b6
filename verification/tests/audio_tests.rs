use r_jellycli::audio::loop_runner::{direct_after_process, direct_finish, initial_device_spec, write_outcome, FlushOutcome};
use r_jellycli::audio::processor::direct_samples;
use r_jellycli::audio::alsa_handler::{
    has_pending_audio, rate_refused, start_threshold, write_result, AlsaPcmHandler, DeviceSpec,
    DeviceWrite, PcmStateKind,
};
use r_jellycli::audio::alsa_writer::{AlsaWriteProgress, WriteDecision};
use r_jellycli::audio::decoder::{
    complete_shape, select_track, shutdown_requested, DecodeResult, DecodeSession, DecodeStep,
    FrameOutcome, IoKind, MediaFailure, ReadResult, ReadStep, ShutdownPoll, SignalShape,
    TrackParams, CODEC_NULL,
};
use r_jellycli::audio::loop_runner::{
    deferred_channels, direct_step, finish_playback, needs_resampler, AlsaPauseAction,
    DecodeOutcome, DirectStep, LookaheadLoop, LoopStep, PauseTracker, PlaybackLoopExitReason,
    ProcessOutcome,
};
use r_jellycli::audio::processor::next_resample_chunk;
use r_jellycli::audio::sample_converter::{
    convert_buffer_to_s16, convert_ref_to_s16, s24_to_s16, s32_to_s16, u8_to_s16, IntPlanes,
};
use r_jellycli::audio::stream_wrapper::{ReqwestStreamWrapper, SeekFrom, StreamError};
use r_jellycli::audio::AudioError;

#[test]
fn test_audio_error_handling() {
    let error = AudioError::AlsaError("Test error".to_string());
    assert_eq!(error.message(), "ALSA error: Test error");
}

#[test]
fn audio_error_messages() {
    assert_eq!(AudioError::EmptyStream.message(), "Empty stream");
    assert_eq!(AudioError::MissingCodecParams("sample rate").message(), "Missing codec parameters: sample rate");
    assert_eq!(AudioError::TaskJoinError("x".to_string()).message(), "Async task join error: x");
}

#[test]
fn sample_conversions() {
    assert_eq!(u8_to_s16(0), -32768);
    assert_eq!(u8_to_s16(128), 0);
    assert_eq!(u8_to_s16(255), 32512);
    assert_eq!(s32_to_s16(i32::MAX), 32767);
    assert_eq!(s32_to_s16(i32::MIN), -32768);
    assert_eq!(s32_to_s16(-1), -1);
    assert_eq!(s32_to_s16(65536), 1);
    assert_eq!(s24_to_s16(0x7F_FFFF), 32767);
    assert_eq!(s24_to_s16(-0x80_0000), -32768);
    assert_eq!(s24_to_s16(256), 1);
}

#[test]
fn interleaving() {
    let planes = IntPlanes::S16(vec![vec![1, 2, 3], vec![10, 20, 30]]);
    assert_eq!(convert_ref_to_s16(&planes, 2, 3), Some(vec![1, 10, 2, 20, 3, 30]));
    assert_eq!(convert_ref_to_s16(&planes, 3, 3), None);
    assert_eq!(convert_ref_to_s16(&planes, 2, 2), None);
    assert_eq!(convert_ref_to_s16(&planes, 0, 3), Some(vec![]));
    let bytes = IntPlanes::U8(vec![vec![128, 255]]);
    assert_eq!(convert_buffer_to_s16(&bytes, 2), Ok(vec![0, 32512]));
    let wide = IntPlanes::S24(vec![vec![0]]);
    assert_eq!(
        convert_buffer_to_s16(&wide, 1),
        Err(AudioError::UnsupportedFormat("Cannot convert decoded format to S16".to_string()))
    );
}

#[test]
fn stream_reads_and_seeks() {
    assert_eq!(
        ReqwestStreamWrapper::new_from_buffer(Vec::new()).err(),
        Some(StreamError::UnexpectedEof("Downloaded stream was empty".to_string()))
    );
    let mut w = ReqwestStreamWrapper::new_from_buffer(vec![1, 2, 3, 4, 5]).ok().unwrap();
    assert!(w.is_seekable());
    assert_eq!(w.byte_len(), Some(5));
    let mut buf = [0u8; 3];
    assert_eq!(w.read(&mut buf), 3);
    assert_eq!(buf, [1, 2, 3]);
    assert_eq!(w.read(&mut buf), 2);
    assert_eq!(&buf[..2], &[4, 5]);
    assert_eq!(w.read(&mut buf), 0);
    assert_eq!(w.seek(SeekFrom::Start(1)), Ok(1));
    assert_eq!(w.seek(SeekFrom::Current(0)), Ok(1));
    assert_eq!(w.seek(SeekFrom::End(-1)), Ok(4));
    assert!(w.seek(SeekFrom::Current(-10)).is_err());
    assert_eq!(w.read(&mut buf), 1);
    assert_eq!(buf[0], 5);
}

#[test]
fn device_write_progress() {
    assert!(AlsaWriteProgress::new(0, 2).is_none());
    assert!(AlsaWriteProgress::new(10, 0).is_none());
    let mut p = AlsaWriteProgress::new(10_000, 2).unwrap();
    assert!(!p.is_done());
    assert_eq!(p.next_chunk(), (0, 8192));
    assert_eq!(p.record_write(0), WriteDecision::RetrySameChunk);
    assert_eq!(p.next_chunk(), (0, 8192));
    assert_eq!(p.record_write(5000), WriteDecision::Advanced);
    assert_eq!(p.next_chunk(), (8192, 10_000));
    assert_eq!(p.record_write(904), WriteDecision::Advanced);
    assert!(p.is_done());
}

#[test]
fn resample_chunks() {
    assert_eq!(next_resample_chunk(0, 1000, 256), Some((0, 256)));
    assert_eq!(next_resample_chunk(900, 1000, 256), Some((900, 1000)));
    assert_eq!(next_resample_chunk(1000, 1000, 256), None);
    assert_eq!(next_resample_chunk(0, 1000, 0), None);
}

#[test]
fn pause_tracking_acts_once() {
    let mut t = PauseTracker::new();
    assert_eq!(t.observe(false), AlsaPauseAction::NoChange);
    assert_eq!(t.observe(true), AlsaPauseAction::Pause);
    assert_eq!(t.observe(true), AlsaPauseAction::NoChange);
    assert_eq!(t.observe(false), AlsaPauseAction::Resume);
    assert_eq!(t.observe(false), AlsaPauseAction::NoChange);
}

#[test]
fn lookahead_loop_marks_the_last_buffer() {
    let mut l: LookaheadLoop<u32> = LookaheadLoop::new();
    assert!(matches!(l.begin(DecodeOutcome::Decoded(1)), LoopStep::Continue));
    match l.begin(DecodeOutcome::Decoded(2)) {
        LoopStep::Process { buffer, needs_init, is_last } => {
            assert_eq!(buffer, 1);
            assert!(needs_init);
            assert!(!is_last);
        }
        other => panic!("unexpected {:?}", other),
    }
    l.mark_initialized();
    assert!(matches!(l.finish(ProcessOutcome::Written), LoopStep::Continue));
    match l.begin(DecodeOutcome::EndOfStream) {
        LoopStep::Process { buffer, needs_init, is_last } => {
            assert_eq!(buffer, 2);
            assert!(!needs_init);
            assert!(is_last);
        }
        other => panic!("unexpected {:?}", other),
    }
    assert!(matches!(
        l.finish(ProcessOutcome::Written),
        LoopStep::Exit(Ok(PlaybackLoopExitReason::EndOfStream))
    ));
}

#[test]
fn lookahead_loop_empty_and_failures() {
    let mut empty: LookaheadLoop<u32> = LookaheadLoop::new();
    assert!(matches!(empty.begin(DecodeOutcome::EndOfStream), LoopStep::Exit(Err(AudioError::EmptyStream))));
    let mut shut: LookaheadLoop<u32> = LookaheadLoop::new();
    assert!(matches!(
        shut.begin(DecodeOutcome::Shutdown),
        LoopStep::Exit(Ok(PlaybackLoopExitReason::ShutdownSignal))
    ));
    let mut failing: LookaheadLoop<u32> = LookaheadLoop::new();
    assert!(matches!(failing.begin(DecodeOutcome::Failed(AudioError::EmptyStream)), LoopStep::Continue));
    assert!(matches!(
        failing.begin(DecodeOutcome::Decoded(3)),
        LoopStep::Exit(Err(AudioError::EmptyStream))
    ));
    let mut skipped: LookaheadLoop<u32> = LookaheadLoop::new();
    assert!(matches!(skipped.begin(DecodeOutcome::Decoded(1)), LoopStep::Continue));
    assert!(matches!(skipped.begin(DecodeOutcome::Decoded(2)), LoopStep::Process { .. }));
    assert!(matches!(skipped.finish(ProcessOutcome::Skipped), LoopStep::Continue));
}

#[test]
fn direct_loop_and_finish() {
    assert!(matches!(direct_step(DecodeOutcome::Decoded(7u8)), DirectStep::Process(7)));
    assert!(matches!(direct_step::<u8>(DecodeOutcome::EndOfStream), DirectStep::FlushAndFinish));
    assert!(matches!(direct_step::<u8>(DecodeOutcome::Skipped("x".to_string())), DirectStep::Continue));
    assert_eq!(finish_playback(Ok(PlaybackLoopExitReason::EndOfStream)), (true, Ok(())));
    assert_eq!(finish_playback(Ok(PlaybackLoopExitReason::ShutdownSignal)), (false, Ok(())));
    assert_eq!(finish_playback(Err(AudioError::EmptyStream)), (false, Err(AudioError::EmptyStream)));
    assert_eq!(deferred_channels(Some(2)), Ok(2));
    assert_eq!(
        deferred_channels(Some(0)),
        Err(AudioError::InitializationError("Decoder spec has zero channels".to_string()))
    );
    assert_eq!(
        deferred_channels(None),
        Err(AudioError::InitializationError("Decoder spec unavailable after first frame".to_string()))
    );
    assert!(needs_resampler(44100, 48000));
    assert!(!needs_resampler(48000, 48000));
}

fn track(id: u32, codec: u32, rate: Option<u32>, channels: Option<usize>) -> TrackParams {
    TrackParams { id, codec, sample_rate: rate, channels }
}

#[test]
fn track_selection() {
    let tracks = vec![track(1, CODEC_NULL, None, None), track(2, 7, Some(44100), Some(2))];
    let (i, s) = select_track(&tracks).ok().unwrap();
    assert_eq!(i, 1);
    assert_eq!(s.current_spec(), Some(SignalShape { rate: 44100, channels: 2 }));
    let no_rate = vec![track(3, 9, None, Some(2))];
    assert!(matches!(select_track(&no_rate), Err(AudioError::MissingCodecParams("sample rate"))));
    let none = vec![track(4, CODEC_NULL, Some(1), None)];
    assert!(matches!(
        select_track(&none),
        Err(AudioError::UnsupportedFormat(ref m)) if m == "No suitable audio track found"
    ));
}

#[test]
fn decode_session_steps() {
    assert!(shutdown_requested(ShutdownPoll::Received));
    assert!(shutdown_requested(ShutdownPoll::Closed));
    assert!(!shutdown_requested(ShutdownPoll::Empty));
    assert!(!shutdown_requested(ShutdownPoll::Lagged));

    let mut s = DecodeSession::new(5, None);
    assert!(s.begin().is_ok());
    assert!(matches!(s.after_read(ReadResult::Packet { track_id: 6, ts: 0 }), ReadStep::NextPacket));
    assert!(matches!(s.after_read(ReadResult::Packet { track_id: 5, ts: 42 }), ReadStep::Decode { ts: 42 }));
    assert!(matches!(
        s.after_decode(42, DecodeResult::CodecFailed(MediaFailure::Decode("bad".to_string()))),
        DecodeStep::NextPacket
    ));
    assert!(matches!(
        s.after_decode(42, DecodeResult::Decoded { rate: 48000, channels: 2 }),
        DecodeStep::Finish(Ok(FrameOutcome::Decoded(42)))
    ));
    assert_eq!(s.current_spec(), Some(SignalShape { rate: 48000, channels: 2 }));

    assert!(s.begin().is_ok());
    assert!(matches!(
        s.after_read(ReadResult::ReaderFailed(MediaFailure::Io(IoKind::UnexpectedEof, "eof".to_string()))),
        ReadStep::Finish(Ok(FrameOutcome::EndOfStream))
    ));
    assert!(s.begin().is_ok());
    assert!(matches!(s.after_read(ReadResult::ShutdownDuringRead), ReadStep::Finish(Ok(FrameOutcome::Shutdown))));
    assert!(matches!(
        s.begin(),
        Err(AudioError::InvalidState(ref m)) if m == "Format reader not available"
    ));

    let mut t = DecodeSession::new(1, None);
    assert!(t.begin().is_ok());
    assert!(matches!(
        t.after_read(ReadResult::ReaderFailed(MediaFailure::ResetRequired("r".to_string()))),
        ReadStep::Finish(Ok(FrameOutcome::Skipped(ref m))) if m == "Stream discontinuity (ResetRequired)"
    ));

    let mut u = DecodeSession::new(1, None);
    assert!(u.begin().is_ok());
    assert!(matches!(u.after_read(ReadResult::Packet { track_id: 1, ts: 0 }), ReadStep::Decode { .. }));
    assert!(matches!(u.after_decode(0, DecodeResult::ShutdownDuringDecode), DecodeStep::Finish(Ok(FrameOutcome::Shutdown))));
    assert!(matches!(
        u.begin(),
        Err(AudioError::InvalidState(ref m)) if m == "Decoder not available"
    ));
}

#[test]
fn signal_shape_completion() {
    let full = SignalShape { rate: 44100, channels: 2 };
    assert_eq!(complete_shape(None, 48000, 2), Some(SignalShape { rate: 48000, channels: 2 }));
    assert_eq!(complete_shape(None, 48000, 0), None);
    assert_eq!(complete_shape(Some(SignalShape { rate: 1, channels: 0 }), 48000, 1), Some(SignalShape { rate: 48000, channels: 1 }));
    assert_eq!(complete_shape(Some(full), 48000, 6), Some(full));
}

#[test]
fn device_bookkeeping() {
    let mut h = AlsaPcmHandler::new("hw:0");
    assert_eq!(h.device_name(), "hw:0");
    assert_eq!(h.get_actual_rate(), None);
    assert_eq!(h.frame_channels(), 2);
    h.record_initialized(DeviceSpec { rate: 44100, channels: 6 }, 48000);
    assert_eq!(h.get_actual_rate(), Some(48000));
    assert_eq!(h.frame_channels(), 6);
    h.close();
    assert_eq!(h.get_actual_rate(), None);
    assert!(has_pending_audio(PcmStateKind::Running));
    assert!(has_pending_audio(PcmStateKind::Prepared));
    assert!(!has_pending_audio(PcmStateKind::XRun));
    assert_eq!(write_result(DeviceWrite::Written(128)), Ok(128));
    assert_eq!(write_result(DeviceWrite::Underrun(Ok(()))), Ok(0));
    assert_eq!(
        write_result(DeviceWrite::Underrun(Err("busy".to_string()))),
        Err(AudioError::AlsaError("ALSA recovery failed: busy".to_string()))
    );
    assert_eq!(
        write_result(DeviceWrite::Failed("EIO".to_string())),
        Err(AudioError::AlsaError("EIO".to_string()))
    );
    assert_eq!(
        rate_refused(44100, "no"),
        AudioError::AlsaError("Failed to set sample rate 44100: no".to_string())
    );
    assert_eq!(start_threshold(4096, 1024), 3072);
}

#[test]
fn direct_loop_write_and_finish_steps() {
    assert!(matches!(write_outcome(Ok(())), ProcessOutcome::Written));
    assert!(matches!(write_outcome(Err(AudioError::ShutdownRequested)), ProcessOutcome::ShutdownDuringWrite));
    assert!(matches!(
        write_outcome(Err(AudioError::AlsaError("x".to_string()))),
        ProcessOutcome::Failed(AudioError::AlsaError(_))
    ));
    assert!(matches!(direct_after_process::<u8>(ProcessOutcome::Written), DirectStep::Continue));
    assert!(matches!(direct_after_process::<u8>(ProcessOutcome::Skipped), DirectStep::Continue));
    assert!(matches!(
        direct_after_process::<u8>(ProcessOutcome::ShutdownDuringWrite),
        DirectStep::Exit(Ok(PlaybackLoopExitReason::ShutdownSignal))
    ));
    assert!(matches!(
        direct_after_process::<u8>(ProcessOutcome::Failed(AudioError::EmptyStream)),
        DirectStep::Exit(Err(AudioError::EmptyStream))
    ));
    assert_eq!(direct_finish(FlushOutcome::NothingToWrite), Ok(PlaybackLoopExitReason::EndOfStream));
    assert_eq!(direct_finish(FlushOutcome::Written(Ok(()))), Ok(PlaybackLoopExitReason::EndOfStream));
    assert_eq!(
        direct_finish(FlushOutcome::Written(Err(AudioError::ShutdownRequested))),
        Err(AudioError::ShutdownRequested)
    );
    assert_eq!(
        direct_finish(FlushOutcome::ResampleFailed("short input".to_string())),
        Err(AudioError::ResamplingError("Resampler flush failed: short input".to_string()))
    );
    let shape = SignalShape { rate: 44100, channels: 2 };
    assert_eq!(initial_device_spec(Some(shape)), Ok(shape));
    assert_eq!(
        initial_device_spec(None),
        Err(AudioError::InitializationError("Decoder failed to provide initial spec".to_string()))
    );
}

#[test]
fn direct_samples_skip_what_cannot_be_written() {
    assert_eq!(direct_samples(&IntPlanes::S16(vec![vec![1, 2], vec![3, 4]]), 2), Some(vec![1, 3, 2, 4]));
    assert_eq!(direct_samples(&IntPlanes::S24(vec![vec![1]]), 1), None);
    assert_eq!(direct_samples(&IntPlanes::U8(vec![vec![], vec![]]), 0), None);
}
