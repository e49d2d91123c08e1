//! Frame decoder behaviour over raw decode results: bad-frame skipping,
//! parameter fixing, interleaving, and the worker's decisions — plus a
//! playback run to the natural end of a stream.

use rusic::worker_decide;
use rusic::AudioError;
use rusic::FrameDecoder;
use rusic::FrameStep;
use rusic::PlaybackEngine;
use rusic::RawFrame;
use rusic::SharedPlaybackState;
use rusic::Transport;
use rusic::WorkerAction;

fn audio_frame(duration_ms: u64, samples: Vec<Vec<i32>>) -> RawFrame {
    RawFrame::Audio { sample_rate: 44100, channels: samples.len() as u32, duration_ms, samples }
}

#[test]
fn empty_stream_is_unsupported() {
    let r = FrameDecoder::from_frames(Vec::new());
    assert!(matches!(r, Err(AudioError::UnsupportedFormat)));
}

#[test]
fn stream_with_no_usable_frame_is_corrupt() {
    let r = FrameDecoder::from_frames(vec![RawFrame::Bad, RawFrame::Bad]);
    assert!(matches!(r, Err(AudioError::CorruptStream)));
}

#[test]
fn one_bad_frame_is_skipped_and_the_stream_still_ends() {
    let frames = vec![
        audio_frame(26, vec![vec![1], vec![2]]),
        RawFrame::Bad,
        audio_frame(26, vec![vec![3], vec![4]]),
    ];
    let mut dec = FrameDecoder::from_frames(frames).unwrap();
    assert!(matches!(dec.next_frame(), FrameStep::Block(_)));
    assert!(matches!(dec.next_frame(), FrameStep::DecodeError));
    assert!(matches!(dec.next_frame(), FrameStep::Block(_)));
    assert!(matches!(dec.next_frame(), FrameStep::EndOfStream));
    assert!(matches!(dec.next_frame(), FrameStep::EndOfStream));
}

#[test]
fn samples_are_interleaved_across_channels() {
    let frames = vec![audio_frame(26, vec![vec![1, 3, 5], vec![2, 4, 6]])];
    let mut dec = FrameDecoder::from_frames(frames).unwrap();
    match dec.next_frame() {
        FrameStep::Block(b) => {
            assert_eq!(b.sample_rate, 44100);
            assert_eq!(b.channels, 2);
            assert_eq!(b.duration_ms, 26);
            assert_eq!(b.samples, vec![1, 2, 3, 4, 5, 6]);
        }
        other => panic!("expected a block, got {:?}", other),
    }
}

#[test]
fn parameter_change_mid_stream_is_fatal() {
    let frames = vec![
        audio_frame(26, vec![vec![1], vec![2]]),
        audio_frame(26, vec![vec![1]]),
        audio_frame(26, vec![vec![9], vec![9]]),
    ];
    let mut dec = FrameDecoder::from_frames(frames).unwrap();
    assert!(matches!(dec.next_frame(), FrameStep::Block(_)));
    assert!(matches!(dec.next_frame(), FrameStep::Corrupt));
    assert!(matches!(dec.next_frame(), FrameStep::EndOfStream));
}

#[test]
fn worker_obeys_a_stop_request_before_anything_else() {
    let a = worker_decide(true, FrameStep::Block(make_block()));
    assert!(matches!(a, WorkerAction::Halt));
    let a = worker_decide(true, FrameStep::EndOfStream);
    assert!(matches!(a, WorkerAction::Halt));
}

#[test]
fn worker_maps_each_decode_step_to_its_action() {
    assert!(matches!(worker_decide(false, FrameStep::Block(make_block())), WorkerAction::Write(_)));
    assert!(matches!(worker_decide(false, FrameStep::EndOfStream), WorkerAction::Finish));
    assert!(matches!(worker_decide(false, FrameStep::DecodeError), WorkerAction::Skip));
    assert!(matches!(
        worker_decide(false, FrameStep::Corrupt),
        WorkerAction::Abort(AudioError::CorruptStream)
    ));
}

fn make_block() -> rusic::PcmBlock {
    let frames = vec![audio_frame(26, vec![vec![1], vec![2]])];
    let mut dec = FrameDecoder::from_frames(frames).unwrap();
    match dec.next_frame() {
        FrameStep::Block(b) => b,
        other => panic!("expected a block, got {:?}", other),
    }
}

#[test]
fn playback_runs_to_the_natural_end_and_auto_stops() {
    // a 3000 ms stream: three blocks of 1000 ms
    let frames = vec![
        audio_frame(1000, vec![vec![0], vec![0]]),
        audio_frame(1000, vec![vec![0], vec![0]]),
        audio_frame(1000, vec![vec![0], vec![0]]),
    ];
    let mut dec = FrameDecoder::from_frames(frames).unwrap();
    let mut engine = PlaybackEngine::new();
    let mut state = SharedPlaybackState::new();
    engine.load(&mut state, "three-seconds.mp3".to_string());

    // the worker loop, run unattended past the stream's end on a
    // simulated clock
    let mut simulated_clock_ms: u64 = 0;
    while simulated_clock_ms < 3100 {
        match worker_decide(false, dec.next_frame()) {
            WorkerAction::Write(b) => {
                simulated_clock_ms += b.duration_ms;
                engine.on_frame_written(&mut state, b.duration_ms);
            }
            WorkerAction::Skip => {}
            WorkerAction::Finish => {
                engine.on_end_of_stream(&mut state);
                simulated_clock_ms = 3100;
            }
            WorkerAction::Halt | WorkerAction::Abort(_) => break,
        }
    }

    assert!(matches!(engine.transport, Transport::Idle));
    assert_eq!(state.snapshot(), (0, true));
    assert_eq!(state.last_error, None);
}
