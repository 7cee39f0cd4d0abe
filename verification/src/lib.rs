//! OpenAI-compatible chat types and the chat parser protocol of llama.cpp,
//! with machine-checked contracts.
//!
//! * [`openai`] holds the tool definitions, the chat template options, the
//!   parsed messages and deltas, their wire form, and the protocol by which a
//!   streaming parse session drives the native library.
//! * [`sampling`] holds the parameters of a sampler chain.
//! * [`json`] takes JSON values apart and puts them together.
//! * [`trusted`] holds what is assumed of the crates around the library.
pub mod json;
pub mod openai;
pub mod sampling;
pub mod trusted;
