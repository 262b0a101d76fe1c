//! Verified core of a speech-boundary recorder.
//!
//! A live audio stream grows a shared sample buffer; a hysteresis state
//! machine, polled on coarse intervals with a speech probability per poll,
//! decides when an utterance has definitively ended; while idle, the buffer
//! is trimmed to a bounded lookback so silence cannot grow memory without
//! bound. Once the boundary is reached the session drains the buffer and
//! quantizes the samples for the sink.
//!
//! Samples are fixed-point mono amplitudes: an `i32` holding
//! `amplitude * 32768`, so `32768` stands for full scale `1.0`.
//! Probabilities are parts-per-million: a `u32` in `0 ..= 1_000_000`.
pub mod buffer;
pub mod codec;
pub mod detector;
pub mod session;
pub mod transcript;
