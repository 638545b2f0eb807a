//! Verified core of an autoregressive text-completion engine.
//!
//! The library owns the generation loop: it encodes a prompt, repeatedly
//! obtains next-token scores from a model, filters them with a repeat
//! penalty, samples the next token, and streams decoded text fragments.
//! The neural network, the tokenizer and the tensor arithmetic live in
//! outside crates and are reached only through trusted wrappers whose
//! contracts are stated here.

pub mod engine;
pub mod entities;
pub mod error;
pub mod meta;
pub mod model;
pub mod penalty;
pub mod sampler;
pub mod stream;
pub mod tensor_ext;
pub mod tokenizer_ext;
