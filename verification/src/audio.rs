//! Common types of the playback engine: stream parameters, decode results,
//! and the error taxonomy.

use vstd::prelude::*;

verus! {

/// The errors the engine can report.  A bad frame inside an otherwise
/// readable stream is not here: it is recoverable and shows up as
/// `FrameStep::DecodeError` instead.
#[derive(Clone, Copy, Debug, PartialEq, Eq, Structural)]
pub enum AudioError {
    /// The byte stream holds no audio frames at all.
    UnsupportedFormat,
    /// The stream is fatally corrupt: no frame decodes, or the stream
    /// parameters change mid-stream.
    CorruptStream,
    /// The audio device could not be opened.
    DeviceUnavailable,
    /// The audio device failed while a session was writing to it.
    DeviceError,
    /// The file could not be read.
    UnreadableFile,
}

/// The parameters fixed by the first valid frame of a stream.
#[derive(Clone, Copy, Debug, PartialEq, Eq, Structural)]
pub struct StreamParams {
    /// Samples per second, per channel.
    pub sample_rate: u32,
    /// Number of audio channels.
    pub channels: u32,
}

/// One raw decode result: either a decoded audio frame, with its samples
/// kept channel-major, or a frame the decoder could not make sense of.
#[derive(Debug)]
pub enum RawFrame {
    /// A decoded frame: fixed-point samples per channel, and the frame's
    /// length in milliseconds.
    Audio {
        sample_rate: u32,
        channels: u32,
        duration_ms: u64,
        samples: Vec<Vec<i32>>,
    },
    /// A frame that failed to decode.
    Bad,
}

/// The mathematical content of one raw decode result.
pub struct FrameView {
    /// Whether the frame decoded at all.
    pub valid: bool,
    pub sample_rate: u32,
    pub channels: u32,
    pub duration_ms: u64,
    /// Channel-major samples.
    pub samples: Seq<Seq<i32>>,
}

impl View for RawFrame {
    type V = FrameView;

    open spec fn view(&self) -> FrameView {
        match self {
            RawFrame::Audio { sample_rate, channels, duration_ms, samples } => FrameView {
                valid: true,
                sample_rate: *sample_rate,
                channels: *channels,
                duration_ms: *duration_ms,
                samples: vecs_view(samples@),
            },
            RawFrame::Bad => FrameView {
                valid: false,
                sample_rate: 0,
                channels: 0,
                duration_ms: 0,
                samples: Seq::empty(),
            },
        }
    }
}

/// The sample matrix of a frame, each channel's vector seen as a sequence.
pub open spec fn vecs_view(s: Seq<Vec<i32>>) -> Seq<Seq<i32>> {
    s.map_values(|v: Vec<i32>| v@)
}

/// The views of a whole decode result.
pub open spec fn frames_view(frames: Seq<RawFrame>) -> Seq<FrameView> {
    frames.map_values(|f: RawFrame| f@)
}

/// A frame the engine can play: it decoded, and its channels agree in
/// number and length.
pub open spec fn frame_usable(f: FrameView) -> bool {
    &&& f.valid
    &&& f.channels > 0
    &&& f.samples.len() == f.channels
    &&& forall|c: int| 0 <= c < f.samples.len() ==> (#[trigger] f.samples[c]).len() == f.samples[0].len()
}

/// The stream parameters a frame carries.
pub open spec fn params_of(f: FrameView) -> StreamParams {
    StreamParams { sample_rate: f.sample_rate, channels: f.channels }
}

/// Whether any frame of the stream is usable.
pub open spec fn has_usable(fs: Seq<FrameView>) -> bool {
    exists|i: int| 0 <= i < fs.len() && frame_usable(fs[i])
}

/// Whether every usable frame of the stream carries the same parameters.
pub open spec fn params_consistent(fs: Seq<FrameView>) -> bool {
    forall|i: int, j: int|
        0 <= i < fs.len() && 0 <= j < fs.len() && frame_usable(fs[i]) && frame_usable(fs[j])
            ==> params_of(fs[i]) == params_of(fs[j])
}

/// Runtime check matching `frame_usable`.
pub fn frame_is_usable(f: &RawFrame) -> (b: bool)
    ensures
        b == frame_usable(f@),
{
    match f {
        RawFrame::Audio { channels, samples, .. } => {
            if *channels == 0 {
                return false;
            }
            if samples.len() != *channels as usize {
                return false;
            }
            let first_len: usize = samples[0].len();
            let mut c: usize = 1;
            while c < samples.len()
                invariant
                    1 <= c <= samples.len(),
                    f@.samples == vecs_view(samples@),
                    f@.samples.len() == samples.len(),
                    first_len == f@.samples[0].len(),
                    forall|k: int| 0 <= k < c ==> (#[trigger] f@.samples[k]).len() == f@.samples[0].len(),
                decreases samples.len() - c,
            {
                assert(f@.samples[c as int] == samples@[c as int]@);
                if samples[c].len() != first_len {
                    return false;
                }
                c += 1;
            }
            true
        },
        RawFrame::Bad => false,
    }
}

} // verus!
