//! Core structures for a buffer-at-a-time audio processing engine: a timing
//! and playback-state context, an effect capability, an ordered effect rack,
//! and an engine that drives processing cycles and the sample clock.

pub mod context;
pub mod effect;
pub mod engine;
pub mod rack;

pub use context::AudioContext;
pub use context::AudioContextState;
pub use context::Timestamp;
pub use effect::Effect;
pub use engine::AudioEngine;
pub use rack::Rack;
pub use rack::RackEffect;
pub use rack::RackError;
