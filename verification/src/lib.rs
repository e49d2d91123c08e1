//! The playback engine of a small desktop audio player: a verified frame
//! decoder over MPEG streams, a duration probe, a transport state machine
//! for one playback session at a time, and the shared state structure the
//! worker and the duration probes publish to and a UI poll reads.
//!
//! The raw per-frame decode is the `simplemad` crate's; the audio device,
//! the worker thread and the blocking writes belong to the embedding
//! application.  Everything that decides — parameter fixing, bad-frame
//! skipping, duration summing, transport transitions, position publishing
//! and the duration cache — is stated in contracts and proved.

pub mod audio;
pub mod decoder;
pub mod engine;
pub mod probe;
pub mod state;
pub mod timefmt;

pub use audio::AudioError;
pub use audio::RawFrame;
pub use audio::StreamParams;
pub use decoder::FrameDecoder;
pub use decoder::FrameStep;
pub use decoder::PcmBlock;
pub use engine::worker_decide;
pub use engine::EngineEvent;
pub use engine::PlaybackEngine;
pub use engine::Transport;
pub use engine::WorkerAction;
pub use probe::duration_of_frames;
pub use probe::probe;
pub use state::SharedPlaybackState;
pub use timefmt::millis_to_minutes;
pub use timefmt::to_millis;
