//! Failures a generation request can report.
//!
//! Every failure point of a request is surfaced as a typed value instead of
//! aborting the process: a prompt that cannot be encoded, a stop token
//! missing from the vocabulary, a failed forward evaluation, and a token
//! sequence the tokenizer cannot decode.

use vstd::prelude::*;

verus! {

#[derive(Clone, Copy, Debug, PartialEq, Eq, Structural)]
pub enum GenerationError {
    /// The prompt could not be tokenized.
    Tokenization,
    /// The configured end-of-sequence token is absent from the vocabulary.
    Vocabulary,
    /// The model failed to produce next-token scores.
    ModelInference,
    /// The accumulated token ids could not be decoded to text.
    Detokenization,
}

} // verus!
