//! The duration probe: a decode pass over a whole stream, without any
//! device output, that sums the playable frames' durations.

use vstd::prelude::*;

use crate::audio::frame_usable;
use crate::audio::frames_view;
use crate::audio::has_usable;
use crate::audio::params_consistent;
use crate::audio::params_of;
use crate::audio::AudioError;
use crate::audio::FrameView;
use crate::audio::RawFrame;
use crate::decoder::decoded_frames;
use crate::decoder::FrameDecoder;
use crate::decoder::FrameStep;

verus! {

/// The total playable milliseconds of a stream: the sum of the usable
/// frames' durations.  Bad frames contribute nothing.
pub open spec fn sum_ms(fs: Seq<FrameView>) -> nat
    decreases fs.len(),
{
    if fs.len() == 0 {
        0
    } else {
        sum_ms(fs.drop_last()) + if frame_usable(fs.last()) {
            fs.last().duration_ms as nat
        } else {
            0nat
        }
    }
}

/// A natural number clamped into `u64`.
pub open spec fn sat64(n: nat) -> u64 {
    if n <= u64::MAX {
        n as u64
    } else {
        u64::MAX
    }
}

/// What probing a stream yields: `UnsupportedFormat` for an empty stream,
/// `CorruptStream` when no frame is usable or the stream parameters change
/// mid-stream, and otherwise the total duration.
pub open spec fn spec_probe(fs: Seq<FrameView>) -> Result<u64, AudioError> {
    if fs.len() == 0 {
        Err(AudioError::UnsupportedFormat)
    } else if !has_usable(fs) {
        Err(AudioError::CorruptStream)
    } else if !params_consistent(fs) {
        Err(AudioError::CorruptStream)
    } else {
        Ok(sat64(sum_ms(fs)))
    }
}

/// Extending a stream by one frame adds that frame's duration if it is
/// usable and nothing otherwise.
proof fn lemma_sum_ms_step(fs: Seq<FrameView>, i: int)
    requires
        0 <= i < fs.len(),
    ensures
        frame_usable(fs[i]) ==> sum_ms(fs.take(i + 1)) == sum_ms(fs.take(i)) + fs[i].duration_ms,
        !frame_usable(fs[i]) ==> sum_ms(fs.take(i + 1)) == sum_ms(fs.take(i)),
{
    assert(fs.take(i + 1).drop_last() =~= fs.take(i));
    assert(fs.take(i + 1).last() == fs[i]);
}

/// Sums the playable duration of already decoded frames, by running a
/// decode session over them to its end.
pub fn duration_of_frames(frames: Vec<RawFrame>) -> (r: Result<u64, AudioError>)
    ensures
        r == spec_probe(frames_view(frames@)),
{
    let ghost fs = frames_view(frames@);
    let mut dec = match FrameDecoder::from_frames(frames) {
        Err(e) => {
            return Err(e);
        },
        Ok(d) => d,
    };
    let mut acc: u64 = 0;
    loop
        invariant
            fs == frames_view(frames@),
            dec.wf(),
            !dec.finished,
            dec.frames_seq() == fs,
            0 <= dec.idx <= fs.len(),
            has_usable(fs),
            acc == sat64(sum_ms(fs.take(dec.idx as int))),
            dec.params is None ==> forall|j: int|
                0 <= j < dec.idx ==> !frame_usable(#[trigger] fs[j]),
            dec.params matches Some(p) ==> ({
                &&& exists|j: int|
                    0 <= j < dec.idx && frame_usable(#[trigger] fs[j]) && params_of(fs[j]) == p
                &&& forall|j: int|
                    0 <= j < dec.idx && frame_usable(#[trigger] fs[j]) ==> params_of(fs[j]) == p
            }),
        decreases fs.len() - dec.idx,
    {
        let ghost prev = dec;
        match dec.next_frame() {
            FrameStep::Block(b) => {
                proof {
                    lemma_sum_ms_step(fs, prev.idx as int);
                }
                let d: u64 = b.duration_ms;
                acc = if acc <= u64::MAX - d {
                    acc + d
                } else {
                    u64::MAX
                };
            },
            FrameStep::DecodeError => {
                proof {
                    lemma_sum_ms_step(fs, prev.idx as int);
                }
            },
            FrameStep::Corrupt => {
                proof {
                    let f = fs[prev.idx as int];
                    let p = prev.params->Some_0;
                    let j = choose|j: int|
                        0 <= j < prev.idx && frame_usable(#[trigger] fs[j]) && params_of(fs[j])
                            == p;
                    assert(frame_usable(fs[j]) && frame_usable(f) && params_of(fs[j])
                        != params_of(f));
                    assert(!params_consistent(fs));
                }
                return Err(AudioError::CorruptStream);
            },
            FrameStep::EndOfStream => {
                proof {
                    assert(dec.idx == fs.len());
                    assert(fs.take(dec.idx as int) =~= fs);
                    if prev.params is None {
                        let w = choose|j: int| 0 <= j < fs.len() && frame_usable(fs[j]);
                        assert(!frame_usable(fs[w]));
                        assert(false);
                    }
                    let p = prev.params->Some_0;
                    assert forall|i: int, j: int|
                        0 <= i < fs.len() && 0 <= j < fs.len() && frame_usable(fs[i])
                            && frame_usable(fs[j]) implies params_of(fs[i]) == params_of(
                        fs[j],
                    ) by {
                        assert(params_of(fs[i]) == p && params_of(fs[j]) == p);
                    }
                }
                return Ok(acc);
            },
        }
    }
}

/// Probes a compressed byte stream for its total playable duration.
/// The caller publishes a successful result into the shared playback
/// state and drops a failure silently.
pub fn probe(bytes: &Vec<u8>) -> (r: Result<u64, AudioError>)
    ensures
        r == spec_probe(decoded_frames(bytes@)),
{
    duration_of_frames(crate::decoder::decode_bytes(bytes))
}

/// One bad frame never ends a stream early: as long as at least one frame
/// is usable and the usable frames agree on their parameters, the probe
/// runs the stream to its end and reports the usable frames' total
/// duration — bad frames are skipped, withholding only their own length.
pub proof fn lemma_bad_frames_recoverable(fs: Seq<FrameView>)
    requires
        has_usable(fs),
        params_consistent(fs),
    ensures
        spec_probe(fs) == Ok::<u64, AudioError>(sat64(sum_ms(fs))),
{
}

} // verus!
