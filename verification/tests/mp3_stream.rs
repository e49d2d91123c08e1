//! The probe run over real MPEG byte streams, decoded by libmad through
//! the `simplemad` crate.

use rusic::probe;

/// One MPEG-1 Layer III frame: 44.1 kHz, 128 kbit/s, stereo, no padding.
/// The frame is 417 bytes long and carries 1152 samples, 26.122 ms of
/// audio; an all-zero payload decodes as silence.
fn silent_frame() -> Vec<u8> {
    let mut frame = vec![0u8; 417];
    frame[0] = 0xFF;
    frame[1] = 0xFB;
    frame[2] = 0x90;
    frame[3] = 0x00;
    frame
}

#[test]
fn probing_silence_sums_the_frame_durations() {
    let mut bytes = Vec::new();
    for _ in 0..6 {
        bytes.extend_from_slice(&silent_frame());
    }
    // each frame plays for 26.122 ms, reported as 26 whole milliseconds;
    // libmad holds back the final frame until it sees a successor's
    // header, so six frames decode as five
    assert_eq!(probe(&bytes), Ok(5 * 26));
}

#[test]
fn probing_an_empty_stream_fails() {
    assert!(probe(&Vec::new()).is_err());
}

#[test]
fn probing_a_non_mpeg_stream_fails() {
    let bytes = vec![0x11u8; 2048];
    assert!(probe(&bytes).is_err());
}

#[test]
fn opening_silence_yields_stereo_blocks() {
    let mut bytes = Vec::new();
    for _ in 0..3 {
        bytes.extend_from_slice(&silent_frame());
    }
    let mut dec = rusic::FrameDecoder::open(&bytes).unwrap();
    match dec.next_frame() {
        rusic::FrameStep::Block(b) => {
            assert_eq!(b.sample_rate, 44100);
            assert_eq!(b.channels, 2);
            assert_eq!(b.duration_ms, 26);
            // 1152 samples per channel, interleaved across two channels
            assert_eq!(b.samples.len(), 2304);
        }
        other => panic!("expected a block, got {:?}", other),
    }
}
