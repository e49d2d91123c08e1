//! Transport state machine behaviour: load, pause, resume, stop, and the
//! worker events, observed through the shared playback state.

use rusic::PlaybackEngine;
use rusic::SharedPlaybackState;
use rusic::Transport;

fn playing_engine(path: &str) -> (PlaybackEngine, SharedPlaybackState) {
    let mut engine = PlaybackEngine::new();
    let mut state = SharedPlaybackState::new();
    engine.load(&mut state, path.to_string());
    (engine, state)
}

#[test]
fn fresh_engine_is_idle_and_stopped() {
    let engine = PlaybackEngine::new();
    let state = SharedPlaybackState::new();
    assert!(matches!(engine.transport, Transport::Idle));
    assert!(engine.current_path.is_none());
    assert!(!engine.device_open);
    assert_eq!(state.snapshot(), (0, true));
}

#[test]
fn load_starts_a_playing_session() {
    let (engine, state) = playing_engine("a.mp3");
    assert!(matches!(engine.transport, Transport::Playing));
    assert_eq!(engine.current_path.as_deref(), Some("a.mp3"));
    assert!(engine.device_open);
    assert_eq!(state.snapshot(), (0, false));
}

#[test]
fn superseding_load_leaves_only_the_second_session() {
    let (mut engine, mut state) = playing_engine("a.mp3");
    engine.on_frame_written(&mut state, 500);
    engine.load(&mut state, "b.mp3".to_string());
    assert!(matches!(engine.transport, Transport::Playing));
    assert_eq!(engine.current_path.as_deref(), Some("b.mp3"));
    assert!(engine.device_open);
    assert_eq!(state.snapshot(), (0, false));
}

#[test]
fn pause_then_resume_keeps_position() {
    let (mut engine, mut state) = playing_engine("a.mp3");
    engine.on_frame_written(&mut state, 1234);
    engine.pause(&mut state);
    assert!(engine.is_paused());
    assert!(!engine.device_open);
    assert_eq!(state.snapshot().0, 1234);
    engine.resume(&mut state);
    assert!(matches!(engine.transport, Transport::Playing));
    assert!(engine.device_open);
    assert_eq!(state.snapshot().0, 1234);
}

#[test]
fn stop_always_resets_position_and_sets_stopped() {
    let (mut engine, mut state) = playing_engine("a.mp3");
    engine.on_frame_written(&mut state, 900);
    engine.stop(&mut state);
    assert_eq!(state.snapshot(), (0, true));
    assert!(matches!(engine.transport, Transport::Idle));

    let (mut engine, mut state) = playing_engine("a.mp3");
    engine.pause(&mut state);
    engine.stop(&mut state);
    assert_eq!(state.snapshot(), (0, true));

    let mut engine = PlaybackEngine::new();
    let mut state = SharedPlaybackState::new();
    engine.stop(&mut state);
    assert_eq!(state.snapshot(), (0, true));
}

#[test]
fn pause_without_a_session_is_a_no_op() {
    let mut engine = PlaybackEngine::new();
    let mut state = SharedPlaybackState::new();
    engine.pause(&mut state);
    assert!(matches!(engine.transport, Transport::Idle));
    assert!(!engine.is_paused());
    assert_eq!(state.snapshot(), (0, true));
}

#[test]
fn resume_without_a_paused_session_is_a_no_op() {
    let (mut engine, mut state) = playing_engine("a.mp3");
    engine.resume(&mut state);
    assert!(matches!(engine.transport, Transport::Playing));
    let mut idle = PlaybackEngine::new();
    let mut idle_state = SharedPlaybackState::new();
    idle.resume(&mut idle_state);
    assert!(matches!(idle.transport, Transport::Idle));
}

#[test]
fn play_resumes_same_path_and_loads_another() {
    let (mut engine, mut state) = playing_engine("a.mp3");
    engine.on_frame_written(&mut state, 777);
    engine.pause(&mut state);
    engine.play(&mut state, "a.mp3".to_string());
    assert!(matches!(engine.transport, Transport::Playing));
    assert_eq!(state.snapshot().0, 777);

    engine.pause(&mut state);
    engine.play(&mut state, "b.mp3".to_string());
    assert!(matches!(engine.transport, Transport::Playing));
    assert_eq!(engine.current_path.as_deref(), Some("b.mp3"));
    assert_eq!(state.snapshot().0, 0);
}

#[test]
fn position_updates_are_monotone_and_saturate() {
    let (engine, mut state) = playing_engine("a.mp3");
    engine.on_frame_written(&mut state, 26);
    engine.on_frame_written(&mut state, 26);
    assert_eq!(state.snapshot().0, 52);
    engine.on_frame_written(&mut state, u64::MAX);
    assert_eq!(state.snapshot().0, u64::MAX);
    engine.on_frame_written(&mut state, 1);
    assert_eq!(state.snapshot().0, u64::MAX);
}

#[test]
fn device_failure_ends_the_session_with_an_error() {
    let (mut engine, mut state) = playing_engine("a.mp3");
    engine.on_frame_written(&mut state, 100);
    engine.on_session_error(&mut state, rusic::AudioError::DeviceError);
    assert!(matches!(engine.transport, Transport::Idle));
    assert_eq!(state.snapshot(), (0, true));
    assert_eq!(state.last_error, Some(rusic::AudioError::DeviceError));
}
