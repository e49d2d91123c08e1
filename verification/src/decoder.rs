//! The frame decoder: it turns a compressed audio byte stream into a
//! sequence of PCM blocks plus the stream's parameters.
//!
//! The raw per-frame decode is done by the `simplemad` crate; everything
//! around it — fixing the stream parameters at the first usable frame,
//! skipping bad frames, detecting a mid-stream parameter change, and
//! interleaving the channel-major samples — is verified here.

use vstd::prelude::*;

use crate::audio::frame_is_usable;
use crate::audio::frame_usable;
use crate::audio::frames_view;
use crate::audio::has_usable;
use crate::audio::params_of;
use crate::audio::vecs_view;
use crate::audio::AudioError;
use crate::audio::FrameView;
use crate::audio::RawFrame;
use crate::audio::StreamParams;

verus! {

/// What `simplemad` decodes out of a byte stream.  The decode is a pure
/// function of the bytes, so its result can be named without being spelled
/// out.
pub uninterp spec fn decoded_frames(bytes: Seq<u8>) -> Seq<FrameView>;

/// Relies on `simplemad::Decoder::decode`: iterating the decoder yields one
/// `Result<Frame, SimplemadError>` per MPEG frame found in the byte stream,
/// a decoded frame's samples channel-major in `Frame::samples`, its length
/// in `Frame::duration`; a frame libmad rejects is yielded as an `Err`
/// item.  Also relies on `simplemad::MadFixed32::to_raw`, which hands back
/// the raw fixed-point sample value.
#[verifier::external_body]
pub(crate) fn decode_bytes(bytes: &Vec<u8>) -> (r: Vec<RawFrame>)
    ensures
        frames_view(r@) == decoded_frames(bytes@),
{
    let reader = std::io::Cursor::new(bytes.clone());
    let decoder = match simplemad::Decoder::decode(reader) {
        Ok(decoder) => decoder,
        Err(_) => return Vec::new(),
    };
    decoder.map(|item| match item {
        Ok(f) => RawFrame::Audio {
            sample_rate: f.sample_rate,
            channels: f.samples.len() as u32,
            duration_ms: crate::timefmt::to_millis(f.duration.as_secs(), f.duration.subsec_nanos()),
            samples: f.samples.iter().map(|ch| ch.iter().map(|s| s.to_raw()).collect()).collect(),
        },
        Err(_) => RawFrame::Bad,
    }).collect()
}

/// One decoded block of PCM audio, ready for the output device.
#[derive(Debug)]
pub struct PcmBlock {
    pub sample_rate: u32,
    pub channels: u32,
    /// How long the block plays for.
    pub duration_ms: u64,
    /// The samples, interleaved across channels.
    pub samples: Vec<i32>,
}

/// The outcome of asking the decoder for the next frame.
#[derive(Debug)]
pub enum FrameStep {
    /// A decoded block.
    Block(PcmBlock),
    /// The stream is exhausted.
    EndOfStream,
    /// One frame could not be decoded; the caller may simply ask again.
    DecodeError,
    /// The stream parameters changed mid-stream: the stream is fatally
    /// corrupt and the decoder yields nothing further.
    Corrupt,
}

/// The interleaving of a channel-major sample matrix: sample `i` of
/// channel `c` lands at position `i * channels + c`.
pub open spec fn interleaved(samples: Seq<Seq<i32>>) -> Seq<i32>
    recommends
        samples.len() > 0,
{
    Seq::new(
        samples.len() * samples[0].len(),
        |k: int| samples[k % samples.len() as int][k / samples.len() as int],
    )
}

/// Interleaves equally long channels into one sample vector.
fn interleave(samples: &Vec<Vec<i32>>) -> (r: Vec<i32>)
    requires
        samples@.len() > 0,
        forall|c: int|
            0 <= c < samples@.len() ==> (#[trigger] samples@[c])@.len() == samples@[0]@.len(),
    ensures
        r@ == interleaved(vecs_view(samples@)),
{
    let ghost sv = vecs_view(samples@);
    let channels: usize = samples.len();
    let per_channel: usize = samples[0].len();
    let mut r: Vec<i32> = Vec::new();
    let mut i: usize = 0;
    while i < per_channel
        invariant
            sv == vecs_view(samples@),
            sv.len() == samples@.len() == channels,
            channels > 0,
            forall|c: int| 0 <= c < sv.len() ==> (#[trigger] sv[c]).len() == per_channel,
            0 <= i <= per_channel,
            r@.len() == i * channels,
            forall|k: int|
                0 <= k < r@.len() ==> r@[k] == sv[k % channels as int][k / channels as int],
        decreases per_channel - i,
    {
        let mut c: usize = 0;
        while c < channels
            invariant
                sv == vecs_view(samples@),
                sv.len() == samples@.len() == channels,
                channels > 0,
                forall|cc: int| 0 <= cc < sv.len() ==> (#[trigger] sv[cc]).len() == per_channel,
                0 <= i < per_channel,
                0 <= c <= channels,
                r@.len() == i * channels + c,
                forall|k: int|
                    0 <= k < r@.len() ==> r@[k] == sv[k % channels as int][k / channels as int],
            decreases channels - c,
        {
            assert(samples@[c as int]@ == sv[c as int]);
            r.push(samples[c][i]);
            proof {
                let k0: int = i as int * channels as int + c as int;
                assert(k0 % channels as int == c as int && k0 / channels as int == i as int)
                    by (nonlinear_arith)
                    requires
                        0 <= c < channels,
                        0 <= i as int,
                        k0 == i as int * channels as int + c as int,
                ;
            }
            c += 1;
        }
        proof {
            assert((i as int + 1) * channels as int == i as int * channels as int
                + channels as int) by (nonlinear_arith);
        }
        i += 1;
    }
    proof {
        assert(per_channel as int * channels as int == channels as int * per_channel as int)
            by (nonlinear_arith);
        assert(r@ =~= interleaved(sv));
    }
    r
}

/// A decode session over one stream: the raw frames, a cursor, the
/// parameters fixed by the first usable frame, and whether the session
/// has ended (by exhaustion or fatally).
pub struct FrameDecoder {
    pub frames: Vec<RawFrame>,
    pub idx: usize,
    pub params: Option<StreamParams>,
    pub finished: bool,
}

impl FrameDecoder {
    /// The decoder's cursor never passes the end of the stream.
    pub open spec fn wf(self) -> bool {
        self.idx <= self.frames@.len()
    }

    /// The views of the frames the decoder still works through.
    pub open spec fn frames_seq(self) -> Seq<FrameView> {
        frames_view(self.frames@)
    }

    /// Starts a decode session over raw decode results.  Fails with
    /// `UnsupportedFormat` when the stream holds no frames at all, and
    /// with `CorruptStream` when not a single frame is usable.
    pub fn from_frames(frames: Vec<RawFrame>) -> (r: Result<FrameDecoder, AudioError>)
        ensures
            ({
                let fs = frames_view(frames@);
                &&& fs.len() == 0 ==> r == Result::<FrameDecoder, AudioError>::Err(
                    AudioError::UnsupportedFormat,
                )
                &&& fs.len() > 0 && !has_usable(fs) ==> r == Result::<
                    FrameDecoder,
                    AudioError,
                >::Err(AudioError::CorruptStream)
                &&& has_usable(fs) ==> (r matches Ok(d) && d.wf() && d.frames_seq() == fs
                    && d.idx == 0 && d.params is None && !d.finished)
            }),
    {
        if frames.len() == 0 {
            return Err(AudioError::UnsupportedFormat);
        }
        let mut i: usize = 0;
        let mut found: bool = false;
        while i < frames.len() && !found
            invariant
                0 <= i <= frames@.len(),
                found ==> has_usable(frames_view(frames@)),
                !found ==> forall|j: int|
                    0 <= j < i ==> !frame_usable(#[trigger] frames_view(frames@)[j]),
            decreases frames@.len() - i + (if found { 0int } else { 1int }),
        {
            if frame_is_usable(&frames[i]) {
                assert(frames_view(frames@)[i as int] == frames@[i as int]@);
                found = true;
            } else {
                i += 1;
            }
        }
        if !found {
            assert(!has_usable(frames_view(frames@)));
            return Err(AudioError::CorruptStream);
        }
        Ok(FrameDecoder { frames, idx: 0, params: None, finished: false })
    }

    /// Starts a decode session over a compressed byte stream.
    pub fn open(bytes: &Vec<u8>) -> (r: Result<FrameDecoder, AudioError>)
        ensures
            ({
                let fs = decoded_frames(bytes@);
                &&& fs.len() == 0 ==> r == Result::<FrameDecoder, AudioError>::Err(
                    AudioError::UnsupportedFormat,
                )
                &&& fs.len() > 0 && !has_usable(fs) ==> r == Result::<
                    FrameDecoder,
                    AudioError,
                >::Err(AudioError::CorruptStream)
                &&& has_usable(fs) ==> (r matches Ok(d) && d.wf() && d.frames_seq() == fs
                    && d.idx == 0 && d.params is None && !d.finished)
            }),
    {
        FrameDecoder::from_frames(decode_bytes(bytes))
    }

    /// Hands out the next decode step.  A bad frame is reported and
    /// skipped; the first usable frame fixes the stream parameters; a
    /// usable frame whose parameters differ from the fixed ones ends the
    /// session fatally.
    pub fn next_frame(&mut self) -> (r: FrameStep)
        requires
            old(self).wf(),
        ensures
            final(self).wf(),
            final(self).frames == old(self).frames,
            old(self).finished ==> r matches FrameStep::EndOfStream,
            old(self).finished ==> *final(self) == *old(self),
            !old(self).finished && old(self).idx == old(self).frames_seq().len() ==> ({
                &&& r matches FrameStep::EndOfStream
                &&& final(self).finished
                &&& final(self).idx == old(self).idx
                &&& final(self).params == old(self).params
            }),
            !old(self).finished && old(self).idx < old(self).frames_seq().len() ==> ({
                let f = old(self).frames_seq()[old(self).idx as int];
                &&& !frame_usable(f) ==> ({
                    &&& r matches FrameStep::DecodeError
                    &&& final(self).idx == old(self).idx + 1
                    &&& final(self).params == old(self).params
                    &&& !final(self).finished
                })
                &&& (frame_usable(f) && (old(self).params matches Some(p) && p != params_of(f)))
                    ==> ({
                    &&& r matches FrameStep::Corrupt
                    &&& final(self).finished
                    &&& final(self).idx == old(self).idx + 1
                    &&& final(self).params == old(self).params
                })
                &&& (frame_usable(f) && (old(self).params is None || old(self).params
                    == Some(params_of(f)))) ==> ({
                    &&& r matches FrameStep::Block(b) && b.sample_rate == f.sample_rate
                        && b.channels == f.channels && b.duration_ms == f.duration_ms
                        && b.samples@ == interleaved(f.samples)
                    &&& final(self).idx == old(self).idx + 1
                    &&& final(self).params == Some(params_of(f))
                    &&& !final(self).finished
                })
            }),
    {
        if self.finished {
            return FrameStep::EndOfStream;
        }
        if self.idx >= self.frames.len() {
            self.finished = true;
            return FrameStep::EndOfStream;
        }
        let at: usize = self.idx;
        self.idx = at + 1;
        assert(self.frames_seq()[at as int] == self.frames@[at as int]@);
        if !frame_is_usable(&self.frames[at]) {
            return FrameStep::DecodeError;
        }
        match &self.frames[at] {
            RawFrame::Audio { sample_rate, channels, duration_ms, samples } => {
                let p = StreamParams { sample_rate: *sample_rate, channels: *channels };
                match self.params {
                    Some(fixed) => {
                        if !(fixed == p) {
                            self.finished = true;
                            return FrameStep::Corrupt;
                        }
                    },
                    None => {
                        self.params = Some(p);
                    },
                }
                proof {
                    let f = old(self).frames_seq()[at as int];
                    assert(f.samples == vecs_view(samples@));
                    assert forall|c: int|
                        0 <= c < samples@.len() implies (
                    #[trigger] samples@[c])@.len() == samples@[0]@.len() by {
                        assert(vecs_view(samples@)[c] == samples@[c]@);
                        assert(vecs_view(samples@)[0] == samples@[0]@);
                        assert(f.samples[c].len() == f.samples[0].len());
                    }
                }
                let block = PcmBlock {
                    sample_rate: *sample_rate,
                    channels: *channels,
                    duration_ms: *duration_ms,
                    samples: interleave(samples),
                };
                FrameStep::Block(block)
            },
            RawFrame::Bad => {
                // a usable frame is always an audio frame
                proof {
                    assert(false);
                }
                FrameStep::DecodeError
            },
        }
    }
}

} // verus!
