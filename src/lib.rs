//! A checked layer over a native speech-synthesis engine that is loaded at
//! run time.
//!
//! The engine itself is reached through raw function pointers, which a caller
//! resolves and invokes. This library holds the decisions around those calls:
//! whether a loaded library exposes every required symbol, which lifecycle
//! state permits which call, whether the caller's buffers cover the lengths a
//! call declares, how the engine's C text is decoded, and how the speaker
//! metadata it returns is read into records.
pub mod engine;
pub mod json;
pub mod meta;
pub mod symbols;
pub mod text;
