//! The playback engine's transport state machine.
//!
//! The engine owns at most one session at a time.  Each transport command
//! and worker event is one atomic step of a single transition function,
//! `spec_step`, over the engine and the shared playback state.  The real
//! worker thread, the audio device and the blocking writes live in the
//! embedding application; the decisions they act on are all taken here.

use vstd::prelude::*;

use crate::audio::AudioError;
use crate::decoder::FrameStep;
use crate::decoder::PcmBlock;
use crate::state::SharedPlaybackState;

verus! {

/// The transport state of the engine.
#[derive(Clone, Copy, Debug, PartialEq, Eq, Structural)]
pub enum Transport {
    /// No session is active.
    Idle,
    /// The active session's worker is streaming to the device.
    Playing,
    /// The active session stands suspended; its position is retained.
    Paused,
}

/// A transport command or worker event: one step of the state machine.
pub enum EngineEvent {
    /// A caller starts (or supersedes) a session for a path.
    Load(String),
    /// A caller suspends the active session.
    Pause,
    /// A caller resumes the suspended session.
    Resume,
    /// A caller ends the active session.
    Stop,
    /// The worker wrote a block of this many milliseconds to the device.
    FrameWritten(u64),
    /// The worker reached the natural end of the stream.
    EndOfStream,
    /// A fatal session error: the device failed under the worker, or the
    /// stream proved fatally corrupt.  The session dies.
    SessionFailed(AudioError),
}

/// The engine: the transport state, the active session's path, and
/// whether that session holds the audio device open.  Pausing releases
/// the device; resuming reopens it.
pub struct PlaybackEngine {
    pub transport: Transport,
    pub current_path: Option<String>,
    pub device_open: bool,
}

/// `a + b` clamped into `u64`.
pub open spec fn sat_add64(a: u64, b: u64) -> u64 {
    if a + b <= u64::MAX {
        (a + b) as u64
    } else {
        u64::MAX
    }
}

impl PlaybackEngine {
    /// The device is held open exactly while playing, and a session —
    /// hence a path — exists exactly while not idle.
    pub open spec fn wf(self) -> bool {
        &&& self.device_open <==> self.transport is Playing
        &&& self.current_path is Some <==> !(self.transport is Idle)
    }
}

/// The engine and the shared state agree: the stopped flag is set exactly
/// when no session is active.
pub open spec fn in_sync(e: PlaybackEngine, s: SharedPlaybackState) -> bool {
    s.stopped <==> e.transport is Idle
}

/// One atomic step of the playback system.
pub open spec fn spec_step(
    e: PlaybackEngine,
    s: SharedPlaybackState,
    ev: EngineEvent,
) -> (PlaybackEngine, SharedPlaybackState) {
    match ev {
        EngineEvent::Load(path) => (
            PlaybackEngine {
                transport: Transport::Playing,
                current_path: Some(path),
                device_open: true,
            },
            SharedPlaybackState {
                current_time_ms: 0,
                stopped: false,
                durations: s.durations,
                last_error: None,
            },
        ),
        EngineEvent::Pause => if e.transport is Playing {
            (
                PlaybackEngine {
                    transport: Transport::Paused,
                    current_path: e.current_path,
                    device_open: false,
                },
                s,
            )
        } else {
            (e, s)
        },
        EngineEvent::Resume => if e.transport is Paused {
            (
                PlaybackEngine {
                    transport: Transport::Playing,
                    current_path: e.current_path,
                    device_open: true,
                },
                s,
            )
        } else {
            (e, s)
        },
        EngineEvent::Stop => (
            PlaybackEngine { transport: Transport::Idle, current_path: None, device_open: false },
            SharedPlaybackState {
                current_time_ms: 0,
                stopped: true,
                durations: s.durations,
                last_error: s.last_error,
            },
        ),
        EngineEvent::FrameWritten(d) => (
            e,
            SharedPlaybackState {
                current_time_ms: sat_add64(s.current_time_ms, d),
                stopped: s.stopped,
                durations: s.durations,
                last_error: s.last_error,
            },
        ),
        EngineEvent::EndOfStream => (
            PlaybackEngine { transport: Transport::Idle, current_path: None, device_open: false },
            SharedPlaybackState {
                current_time_ms: 0,
                stopped: true,
                durations: s.durations,
                last_error: s.last_error,
            },
        ),
        EngineEvent::SessionFailed(err) => (
            PlaybackEngine { transport: Transport::Idle, current_path: None, device_open: false },
            SharedPlaybackState {
                current_time_ms: 0,
                stopped: true,
                durations: s.durations,
                last_error: Some(err),
            },
        ),
    }
}

impl PlaybackEngine {
    /// An engine with no session.
    pub fn new() -> (r: PlaybackEngine)
        ensures
            r.transport is Idle,
            r.current_path is None,
            !r.device_open,
            r.wf(),
    {
        PlaybackEngine { transport: Transport::Idle, current_path: None, device_open: false }
    }

    /// Starts a session for `path`, superseding any active one.  The old
    /// session's device is released before the new session's opens; the
    /// position restarts at zero and the stopped flag clears.
    pub fn load(&mut self, state: &mut SharedPlaybackState, path: String)
        ensures
            (*final(self), *final(state)) == spec_step(
                *old(self),
                *old(state),
                EngineEvent::Load(path),
            ),
            final(self).wf(),
            in_sync(*final(self), *final(state)),
    {
        // tear down first: the previous session's device handle is
        // released before the new one is acquired
        self.device_open = false;
        self.transport = Transport::Playing;
        self.current_path = Some(path);
        self.device_open = true;
        state.current_time_ms = 0;
        state.stopped = false;
        state.last_error = None;
    }

    /// Suspends the active session, releasing the device but keeping the
    /// path and the published position.  Without an active session this
    /// is a no-op, not an error.
    #[allow(unused_variables)]
    pub fn pause(&mut self, state: &mut SharedPlaybackState)
        ensures
            (*final(self), *final(state)) == spec_step(
                *old(self),
                *old(state),
                EngineEvent::Pause,
            ),
            old(self).wf() ==> final(self).wf(),
            in_sync(*old(self), *old(state)) ==> in_sync(*final(self), *final(state)),
    {
        if let Transport::Playing = self.transport {
            self.transport = Transport::Paused;
            self.device_open = false;
        }
    }

    /// Resumes the suspended session for its own path.  Without a
    /// suspended session this is a no-op.
    #[allow(unused_variables)]
    pub fn resume(&mut self, state: &mut SharedPlaybackState)
        ensures
            (*final(self), *final(state)) == spec_step(
                *old(self),
                *old(state),
                EngineEvent::Resume,
            ),
            old(self).wf() ==> final(self).wf(),
            in_sync(*old(self), *old(state)) ==> in_sync(*final(self), *final(state)),
    {
        if let Transport::Paused = self.transport {
            self.transport = Transport::Playing;
            self.device_open = true;
        }
    }

    /// Ends any active session: the device is released, the position
    /// resets to zero and the stopped flag is set — whatever the prior
    /// transport state.
    pub fn stop(&mut self, state: &mut SharedPlaybackState)
        ensures
            (*final(self), *final(state)) == spec_step(*old(self), *old(state), EngineEvent::Stop),
            final(state).current_time_ms == 0,
            final(state).stopped,
            final(self).wf(),
            in_sync(*final(self), *final(state)),
    {
        self.transport = Transport::Idle;
        self.current_path = None;
        self.device_open = false;
        state.current_time_ms = 0;
        state.stopped = true;
    }

    /// Whether the active session stands suspended.
    pub fn is_paused(&self) -> (r: bool)
        ensures
            r == (self.transport is Paused),
    {
        matches!(self.transport, Transport::Paused)
    }

    /// The resume-or-load decision a caller's play command takes: resume
    /// when the selected path is the suspended session's own, otherwise
    /// start a fresh session for it.
    pub fn play(&mut self, state: &mut SharedPlaybackState, path: String)
        ensures
            ({
                let resumes = old(self).transport is Paused && (old(self).current_path matches Some(
                    cur,
                ) && cur@ == path@);
                if resumes {
                    (*final(self), *final(state)) == spec_step(
                        *old(self),
                        *old(state),
                        EngineEvent::Resume,
                    )
                } else {
                    (*final(self), *final(state)) == spec_step(
                        *old(self),
                        *old(state),
                        EngineEvent::Load(path),
                    )
                }
            }),
            old(self).wf() ==> final(self).wf(),
            in_sync(*old(self), *old(state)) ==> in_sync(*final(self), *final(state)),
    {
        let same: bool = match (&self.transport, &self.current_path) {
            (Transport::Paused, Some(cur)) => *cur == path,
            _ => false,
        };
        if same {
            self.resume(state);
        } else {
            self.load(state, path);
        }
    }

    /// The worker finished writing one block: the published position
    /// advances by the block's duration, never backwards, and nothing
    /// else changes.  Only a playing session's worker writes.
    pub fn on_frame_written(&self, state: &mut SharedPlaybackState, duration_ms: u64)
        requires
            self.transport is Playing,
        ensures
            *final(state) == spec_step(*self, *old(state), EngineEvent::FrameWritten(
                duration_ms,
            )).1,
            final(state).current_time_ms >= old(state).current_time_ms,
            final(state).stopped == old(state).stopped,
            final(state).durations == old(state).durations,
    {
        let t: u64 = state.current_time_ms;
        state.current_time_ms = if t <= u64::MAX - duration_ms {
            t + duration_ms
        } else {
            u64::MAX
        };
    }

    /// The worker reached the stream's natural end: the session retires
    /// as a stop does — position zero, stopped set — with no error.
    pub fn on_end_of_stream(&mut self, state: &mut SharedPlaybackState)
        requires
            old(self).transport is Playing,
        ensures
            (*final(self), *final(state)) == spec_step(
                *old(self),
                *old(state),
                EngineEvent::EndOfStream,
            ),
            final(state).current_time_ms == 0,
            final(state).stopped,
            final(self).wf(),
            in_sync(*final(self), *final(state)),
    {
        self.transport = Transport::Idle;
        self.current_path = None;
        self.device_open = false;
        state.current_time_ms = 0;
        state.stopped = true;
    }

    /// A fatal session error — a device failure or fatal stream
    /// corruption — ends the session as a stop does, and the error is
    /// kept for diagnostics.
    pub fn on_session_error(&mut self, state: &mut SharedPlaybackState, err: AudioError)
        requires
            old(self).transport is Playing,
        ensures
            (*final(self), *final(state)) == spec_step(
                *old(self),
                *old(state),
                EngineEvent::SessionFailed(err),
            ),
            final(state).stopped,
            final(state).current_time_ms == 0,
            final(state).last_error == Some(err),
            final(self).wf(),
            in_sync(*final(self), *final(state)),
    {
        self.transport = Transport::Idle;
        self.current_path = None;
        self.device_open = false;
        state.current_time_ms = 0;
        state.stopped = true;
        state.last_error = Some(err);
    }
}

/// What the playback worker does with one decode step: a requested stop
/// wins over everything; otherwise a block is written, a bad frame is
/// skipped, the stream's end finishes the session and a fatal corruption
/// aborts it.
pub enum WorkerAction {
    /// Cancellation was requested: the worker exits without another write.
    Halt,
    /// Write this block to the output sink, then report `FrameWritten`.
    Write(PcmBlock),
    /// A bad frame: ask the decoder for the next one.
    Skip,
    /// The stream ended: report `EndOfStream`.
    Finish,
    /// The stream is fatally corrupt: report it and end the session.
    Abort(AudioError),
}

/// The worker's decision for one iteration: the cancellation flag is
/// checked before anything is written, so a worker told to stop writes
/// no further frame.
pub fn worker_decide(stop_requested: bool, step: FrameStep) -> (a: WorkerAction)
    ensures
        stop_requested ==> a is Halt,
        !stop_requested ==> match step {
            FrameStep::Block(b) => a matches WorkerAction::Write(w) && w == b,
            FrameStep::EndOfStream => a is Finish,
            FrameStep::DecodeError => a is Skip,
            FrameStep::Corrupt => (a matches WorkerAction::Abort(e) && e
                == AudioError::CorruptStream),
        },
{
    if stop_requested {
        return WorkerAction::Halt;
    }
    match step {
        FrameStep::Block(b) => WorkerAction::Write(b),
        FrameStep::EndOfStream => WorkerAction::Finish,
        FrameStep::DecodeError => WorkerAction::Skip,
        FrameStep::Corrupt => WorkerAction::Abort(AudioError::CorruptStream),
    }
}

/// A superseding load leaves exactly one active session, the second
/// load's: its path is the one playing, its device the one open.  The
/// first session's device is released in the second load's teardown
/// before the new device opens.
pub proof fn lemma_load_supersedes(
    e: PlaybackEngine,
    s: SharedPlaybackState,
    first: String,
    second: String,
)
    ensures
        ({
            let (e1, s1) = spec_step(e, s, EngineEvent::Load(first));
            let (e2, s2) = spec_step(e1, s1, EngineEvent::Load(second));
            &&& e2.transport is Playing
            &&& e2.current_path == Some(second)
            &&& e2.device_open
            &&& s2.current_time_ms == 0
            &&& !s2.stopped
        }),
{
}

/// Pausing and then resuming never resets the published position: the
/// two transitions leave `current_time_ms` exactly as it stood, and a
/// playing session is playing again, for the same path.
pub proof fn lemma_pause_resume_keeps_position(e: PlaybackEngine, s: SharedPlaybackState)
    ensures
        ({
            let (e1, s1) = spec_step(e, s, EngineEvent::Pause);
            let (e2, s2) = spec_step(e1, s1, EngineEvent::Resume);
            &&& s2.current_time_ms == s.current_time_ms
            &&& s2 == s
            &&& e.transport is Playing ==> (e2.transport is Playing && e2.current_path
                == e.current_path)
        }),
{
}

} // verus!
