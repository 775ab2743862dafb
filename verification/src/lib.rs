//! A small playback facade over the rodio audio library.
//!
//! The facade keeps an explicit model of each playback queue — its pause and
//! stop flags and the backlog of decoded sources — and every control
//! operation states in its contract exactly how it moves that model.
//! Failures are reported in-band through [`AudioError`] instead of aborting.
//!
//! This build leaves out rodio's device backend, so nothing here opens a
//! real audio device: the output endpoint instead hands its mixed sample
//! feed to whoever renders it.

mod backend;
mod errors;
mod queue;
pub mod riff;
mod source;
mod state;

pub use errors::AudioError;
pub use queue::{
    init, new_sink, pause_audio, play_audio, resume_audio, stop_audio, AudioQueue,
    OutputEndpoint, DEFAULT_CHANNELS, DEFAULT_SAMPLE_RATE,
};
pub use source::{decode_source, AudioSource};
pub use state::{
    lemma_pause_idempotent, lemma_resume_idempotent, lemma_stop_append_round_trip, PlayState,
    QueueView, SourceMeta, UNITY_VOLUME_BITS,
};
