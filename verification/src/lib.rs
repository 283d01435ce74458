//! A polyphonic tone engine driven by note-control events.
//!
//! The crate has three parts: a stateless event decoder that classifies a raw
//! 1-3 byte message into a typed event, a voice engine that keeps one voice
//! per held note together with a global pitch-bend offset, and the pitch
//! arithmetic that both share.  Pitch is measured in integer units of 1/4096
//! of an equal-tempered semitone above note 69 (A4, 440 Hz), so every pitch
//! computation is exact; callers that render audio turn a pitch `p` into a
//! frequency with `440 * 2^(p / 49152)` Hz.

pub mod decoder;
pub mod engine;
pub mod pitch;
