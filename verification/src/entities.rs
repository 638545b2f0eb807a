//! Data carried between the service edge and the engine.

use vstd::prelude::*;

verus! {

/// The wire-level completion object: an identifier, a payload, a creation
/// time in seconds since the Unix epoch, and the model's name.
pub struct CompletionResponse {
    pub id: String,
    pub object: String,
    pub created: i64,
    pub model: String,
}

impl CompletionResponse {
    pub fn new(id: String, object: String, created: i64, model: String) -> (r: CompletionResponse)
        ensures
            r.id@ == id@,
            r.object@ == object@,
            r.created == created,
            r.model@ == model@,
    {
        CompletionResponse { id, object, created, model }
    }
}

/// The long-lived, read-mostly handle loaded once at startup: the model,
/// the device it lives on, the tokenizer, and the default temperature as
/// the bit pattern of a 64-bit IEEE 754 float.
pub struct AppState {
    pub model: candle_transformers::models::phi3::Model,
    pub device: candle_core::Device,
    pub tokenizer: tokenizers::Tokenizer,
    pub temperature_bits: Option<u64>,
}

impl AppState {
    pub fn new(
        model: candle_transformers::models::phi3::Model,
        device: candle_core::Device,
        tokenizer: tokenizers::Tokenizer,
        temperature_bits: Option<u64>,
    ) -> (r: AppState)
        ensures
            r.model == model,
            r.device == device,
            r.tokenizer == tokenizer,
            r.temperature_bits == temperature_bits,
    {
        AppState { model, device, tokenizer, temperature_bits }
    }
}

} // verus!
