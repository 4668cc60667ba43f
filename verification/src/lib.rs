//! A vendor-neutral model of hardware video encoding and decoding: the shared
//! formats and contexts, the per-vendor call tables, the marshaling of native
//! output into owned frames, the encoder and decoder lifecycles, and the
//! capability prober that turns probe outcomes into verified contexts.
//!
//! The native SDK calls themselves are made by the program around this
//! library. Every function here takes what a native call returned as a plain
//! value and decides what follows from it.

pub mod common;
pub mod context;
pub mod mfx;
pub mod decode;
pub mod encode;
pub mod text;
