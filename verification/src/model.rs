//! The plain values that the controller works on.

pub mod ids;
pub mod library;
pub mod source;
pub mod settings;
pub mod lyrics;
pub mod queue;
pub mod playback;
pub mod snapshot;
pub mod activation;
pub mod waveform;
pub mod store;
pub mod events;
pub mod readiness;
