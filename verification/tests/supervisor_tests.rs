use ffmpeg_sidecar::event::{FfmpegEvent, FfmpegProgress, LogLevel};
use timeline_video::error::EncodeError;
use timeline_video::fixed::Fixed;
use timeline_video::progress::{progress_percent, progress_sample};
use timeline_video::session::{timeline_session, EncodeSession};
use timeline_video::supervisor::{
    copy_strings, diagnostics_of, step, step_on_encoder, Action, EncoderEvent, SessionState,
    SupervisorEvent,
};
use timeline_video::timeline::{TimelineClip, TimelineData, TimelineTrack};

fn secs(x: f64) -> Fixed {
    Fixed::from_micros((x * 1e6).round() as i64)
}

fn session(duration: f64) -> EncodeSession {
    let timeline = TimelineData {
        tracks: vec![TimelineTrack {
            clips: vec![TimelineClip {
                source_file: "dir/a.mp3".to_string(),
                start_time: secs(0.0),
                duration: secs(duration),
                trim_start: secs(0.0),
                trim_end: secs(duration),
            }],
            volume: secs(1.0),
        }],
    };
    timeline_session("img.png".to_string(), &timeline, "cover", None, 50, 100, None).unwrap()
}

fn percent(elapsed: f64, total: f64) -> f64 {
    progress_percent(secs(elapsed), secs(total)).micros as f64 / 1e6
}

#[test]
fn percent_is_the_share_of_the_total() {
    assert_eq!(percent(5.0, 10.0), 50.0);
    assert_eq!(percent(0.0, 10.0), 0.0);
    assert_eq!(percent(2.5, 10.0), 25.0);
    assert_eq!(percent(10.0, 10.0), 100.0);
    assert_eq!(progress_percent(secs(1.0), secs(3.0)).micros, 33_333_333);
    assert_eq!(progress_percent(secs(2.0), secs(3.0)).micros, 66_666_666);
}

#[test]
fn percent_is_clamped_to_one_hundred() {
    assert_eq!(percent(10.000001, 10.0), 100.0);
    assert_eq!(percent(1e6, 10.0), 100.0);
    assert_eq!(progress_percent(Fixed::from_micros(i64::MAX), Fixed::from_micros(1)).micros, 100_000_000);
}

#[test]
fn percent_without_a_total_is_zero() {
    assert_eq!(percent(5.0, 0.0), 0.0);
    assert_eq!(percent(5.0, -1.0), 0.0);
    assert_eq!(percent(0.0, 0.0), 0.0);
}

#[test]
fn percent_follows_the_formula_below_zero() {
    assert_eq!(percent(-5.0, 10.0), -50.0);
    assert_eq!(progress_percent(secs(-1.0), secs(3.0)).micros, -33_333_333);
    assert_eq!(progress_percent(Fixed::from_micros(i64::MIN), Fixed::from_micros(1)).micros, i64::MIN);
}

#[test]
fn percent_never_falls_while_time_goes_on() {
    let total = secs(7.3);
    let mut last = i64::MIN;
    for step in -20..200 {
        let elapsed = Fixed::from_micros(step * 61_803);
        let now = progress_percent(elapsed, total).micros;
        assert!(now >= last);
        last = now;
    }
    assert_eq!(last, 100_000_000);
}

#[test]
fn sample_carries_the_report() {
    let sample = progress_sample(12, 25.0f32.to_bits(), "00:00:05.00".to_string(), secs(20.0));
    assert_eq!(sample.frame, 12);
    assert_eq!(f32::from_bits(sample.fps_bits), 25.0);
    assert_eq!(sample.time, "00:00:05.00");
    assert_eq!(sample.progress.micros, 25_000_000);
    let broken = progress_sample(0, 0, "N/A".to_string(), secs(20.0));
    assert_eq!(broken.progress.micros, 0);
}

#[test]
fn launch_starts_a_session() {
    let s = session(10.0);
    let (state, action) = step(SessionState::NotStarted, &s, SupervisorEvent::Launched);
    assert_eq!(state, SessionState::Running);
    assert!(matches!(action, Action::Continue));
}

#[test]
fn failed_launch_ends_a_session() {
    let s = session(10.0);
    let (state, action) =
        step(SessionState::NotStarted, &s, SupervisorEvent::LaunchFailed("no such file".to_string()));
    assert_eq!(state, SessionState::Failed);
    match action {
        Action::Fail(error, None) => {
            assert_eq!(error.message(), "Failed to spawn FFmpeg: no such file")
        }
        other => panic!("unexpected {:?}", other),
    }
}

#[test]
fn progress_is_told() {
    let s = session(10.0);
    let event = SupervisorEvent::Encoder(EncoderEvent::Progress {
        frame: 7,
        fps_bits: 30.0f32.to_bits(),
        time: "00:00:02.50".to_string(),
    });
    let (state, action) = step(SessionState::Running, &s, event);
    assert_eq!(state, SessionState::Running);
    match action {
        Action::Emit(sample) => {
            assert_eq!(sample.frame, 7);
            assert_eq!(f32::from_bits(sample.fps_bits), 30.0);
            assert_eq!(sample.time, "00:00:02.50");
            assert_eq!(sample.progress.micros, 25_000_000);
        }
        other => panic!("unexpected {:?}", other),
    }
}

#[test]
fn malformed_progress_does_not_end_a_session() {
    let s = session(10.0);
    let event = SupervisorEvent::Encoder(EncoderEvent::Progress {
        frame: 0,
        fps_bits: 0,
        time: "garbage".to_string(),
    });
    let (state, action) = step(SessionState::Running, &s, event);
    assert_eq!(state, SessionState::Running);
    match action {
        Action::Emit(sample) => assert_eq!(sample.progress.micros, 0),
        other => panic!("unexpected {:?}", other),
    }
}

#[test]
fn log_lines_are_kept_and_change_nothing() {
    let s = session(10.0);
    let event = SupervisorEvent::Encoder(EncoderEvent::Log("Press [q] to stop".to_string()));
    let (state, action) = step(SessionState::Running, &s, event);
    assert_eq!(state, SessionState::Running);
    match action {
        Action::Record(line) => assert_eq!(line, "Press [q] to stop"),
        other => panic!("unexpected {:?}", other),
    }
    let (state, action) =
        step(SessionState::Running, &s, SupervisorEvent::Encoder(EncoderEvent::Other));
    assert_eq!(state, SessionState::Running);
    assert!(matches!(action, Action::Continue));
}

#[test]
fn success_ends_with_the_output_path() {
    let s = session(10.0);
    let (state, action) =
        step(SessionState::Running, &s, SupervisorEvent::Exited { success: true, code: Some(0) });
    assert_eq!(state, SessionState::Succeeded);
    match action {
        Action::Succeed(path) => assert_eq!(path, "dir/output.mp4"),
        other => panic!("unexpected {:?}", other),
    }
}

#[test]
fn failure_ends_with_what_the_encoder_ran_with() {
    let s = session(10.0);
    let (state, action) =
        step(SessionState::Running, &s, SupervisorEvent::Exited { success: false, code: Some(1) });
    assert_eq!(state, SessionState::Failed);
    match action {
        Action::Fail(error, Some(diagnostics)) => {
            assert!(matches!(error, EncodeError::EncodingFailed));
            assert_eq!(error.message(), "FFmpeg encoding failed");
            assert_eq!(diagnostics.image_path, "img.png");
            assert_eq!(diagnostics.unique_sources, vec!["dir/a.mp3".to_string()]);
            assert_eq!(diagnostics.fit_mode, s.fit_mode);
            assert_eq!(diagnostics.video_filter, s.video_filter);
            assert_eq!(diagnostics.audio_filter, s.audio_filter);
            assert!(!diagnostics.has_bg_music);
            assert_eq!(diagnostics.exit_code, Some(1));
        }
        other => panic!("unexpected {:?}", other),
    }
    let killed = diagnostics_of(&s, None);
    assert_eq!(killed.exit_code, None);
}

#[test]
fn stream_and_wait_errors_end_a_running_session() {
    let s = session(10.0);
    let (state, action) =
        step(SessionState::Running, &s, SupervisorEvent::StreamFailed("closed".to_string()));
    assert_eq!(state, SessionState::Failed);
    match action {
        Action::Fail(error, None) => {
            assert_eq!(error.message(), "Failed to get FFmpeg iterator: closed")
        }
        other => panic!("unexpected {:?}", other),
    }
    let (state, action) =
        step(SessionState::Running, &s, SupervisorEvent::WaitFailed("gone".to_string()));
    assert_eq!(state, SessionState::Failed);
    match action {
        Action::Fail(error, None) => assert_eq!(error.message(), "Failed to execute FFmpeg: gone"),
        other => panic!("unexpected {:?}", other),
    }
}

#[test]
fn ended_sessions_stay_as_they_are() {
    let s = session(10.0);
    for state in [SessionState::Succeeded, SessionState::Failed] {
        let events = vec![
            SupervisorEvent::Launched,
            SupervisorEvent::LaunchFailed("x".to_string()),
            SupervisorEvent::StreamFailed("x".to_string()),
            SupervisorEvent::WaitFailed("x".to_string()),
            SupervisorEvent::Exited { success: true, code: Some(0) },
            SupervisorEvent::Exited { success: false, code: None },
            SupervisorEvent::Encoder(EncoderEvent::Log("x".to_string())),
        ];
        for event in events {
            let (next, action) = step(state, &s, event);
            assert_eq!(next, state);
            assert!(matches!(action, Action::Continue));
        }
    }
}

#[test]
fn events_out_of_turn_change_nothing() {
    let s = session(10.0);
    let (state, action) =
        step(SessionState::NotStarted, &s, SupervisorEvent::Exited { success: true, code: Some(0) });
    assert_eq!(state, SessionState::NotStarted);
    assert!(matches!(action, Action::Continue));
    let (state, action) = step(SessionState::Running, &s, SupervisorEvent::Launched);
    assert_eq!(state, SessionState::Running);
    assert!(matches!(action, Action::Continue));
    let (state, action) =
        step(SessionState::Running, &s, SupervisorEvent::LaunchFailed("x".to_string()));
    assert_eq!(state, SessionState::Running);
    assert!(matches!(action, Action::Continue));
}

fn report(frame: u32, fps: f32, time: &str) -> FfmpegEvent {
    FfmpegEvent::Progress(FfmpegProgress {
        frame,
        fps,
        q: -1.0,
        size_kb: 10,
        time: time.to_string(),
        bitrate_kbps: 27.2,
        speed: 2.0,
        raw_log_message: String::new(),
    })
}

#[test]
fn the_readers_progress_event_becomes_a_sample() {
    let s = session(8.0);
    let (state, action) = step_on_encoder(SessionState::Running, &s, report(5, 23.976, "00:00:03.00"));
    assert_eq!(state, SessionState::Running);
    match action {
        Action::Emit(sample) => {
            assert_eq!(sample.frame, 5);
            assert_eq!(f32::from_bits(sample.fps_bits), 23.976);
            assert_eq!(sample.time, "00:00:03.00");
            assert_eq!(sample.progress.micros, 37_500_000);
        }
        other => panic!("unexpected {:?}", other),
    }
}

#[test]
fn the_readers_other_events() {
    let s = session(8.0);
    let (state, action) = step_on_encoder(
        SessionState::Running,
        &s,
        FfmpegEvent::Log(LogLevel::Warning, "deprecated pixel format".to_string()),
    );
    assert_eq!(state, SessionState::Running);
    match action {
        Action::Record(line) => assert_eq!(line, "deprecated pixel format"),
        other => panic!("unexpected {:?}", other),
    }
    for event in [FfmpegEvent::Done, FfmpegEvent::LogEOF, FfmpegEvent::Error("x".to_string())] {
        let (state, action) = step_on_encoder(SessionState::Running, &s, event);
        assert_eq!(state, SessionState::Running);
        assert!(matches!(action, Action::Continue));
    }
    let (state, action) = step_on_encoder(SessionState::NotStarted, &s, report(1, 1.0, "1"));
    assert_eq!(state, SessionState::NotStarted);
    assert!(matches!(action, Action::Continue));
}

#[test]
fn error_texts() {
    let cause = || "because".to_string();
    assert_eq!(EncodeError::Download(cause()).message(), "Failed to download FFmpeg: because");
    assert_eq!(EncodeError::NoClips.message(), "No audio clips in timeline");
    assert_eq!(EncodeError::NoAudioFiles.message(), "No audio files provided");
    assert_eq!(EncodeError::NoAudioDirectory.message(), "Could not determine audio directory");
    assert_eq!(EncodeError::Spawn(cause()).message(), "Failed to spawn FFmpeg: because");
    assert_eq!(EncodeError::Stream(cause()).message(), "Failed to get FFmpeg iterator: because");
    assert_eq!(EncodeError::Wait(cause()).message(), "Failed to execute FFmpeg: because");
    assert_eq!(EncodeError::EncodingFailed.message(), "FFmpeg encoding failed");
    assert_eq!(EncodeError::ConcatList(cause()).message(), "Failed to create concat list: because");
    assert_eq!(EncodeError::ConcatSpawn(cause()).message(), "Failed to spawn FFmpeg concat: because");
    assert_eq!(EncodeError::ConcatWait(cause()).message(), "Failed to concatenate audio: because");
    assert_eq!(EncodeError::ConcatFailed.message(), "FFmpeg concatenation failed");
    assert_eq!(
        EncodeError::EncodingFailedWithMusic.message(),
        "FFmpeg encoding failed (with background music)"
    );
    assert_eq!(
        EncodeError::EncodingFailedWithoutMusic.message(),
        "FFmpeg encoding failed (without background music)"
    );
}

#[test]
fn copies_of_string_lists() {
    let list = vec!["a".to_string(), "".to_string(), "c".to_string()];
    assert_eq!(copy_strings(&list), list);
    assert_eq!(copy_strings(&Vec::new()), Vec::<String>::new());
}
