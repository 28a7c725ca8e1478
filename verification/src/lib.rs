//! Core of a streaming chat generation pipeline: an admission-controlled
//! request queue of depth one, a single-worker generation loop with polled
//! cancellation, an ordered per-request token stream, and a rate-limited
//! renderer that strips the echoed prompt from the accumulated output.

pub mod channel;
pub mod config;
pub mod model;
pub mod queue;
pub mod registry;
pub mod renderer;
pub mod stream;
pub mod text;
pub mod worker;

pub use model::GenerationError;
pub use model::Token;
