//! Trusted view of the `tokenizers` crate.
//!
//! A `tokenizers::Tokenizer` is opaque here. What its deterministic
//! operations return is given names: encoding and decoding are pure
//! functions of the tokenizer value and of the plain inputs, so the
//! wrappers below pin their results to those names.

use vstd::prelude::*;

verus! {

#[verifier::external_type_specification]
#[verifier::external_body]
pub struct ExTokenizer(tokenizers::Tokenizer);

/// Whether encoding a text with the tokenizer's default special-token
/// policy succeeds.
pub uninterp spec fn tok_encode_ok(t: tokenizers::Tokenizer, text: Seq<char>) -> bool;

/// Whether encoding with this tokenizer is a pure function of the text.
/// This holds of every tokenizer whose model draws no randomness while
/// encoding; the one exception in the crate's version is a byte-pair
/// model with merge dropout enabled, which consults the thread's random
/// generator at every merge, so nothing relates two of its encodings.
pub uninterp spec fn tok_encode_deterministic(t: tokenizers::Tokenizer) -> bool;

/// The token ids that encoding a text yields when it succeeds, for a
/// tokenizer that encodes deterministically.
pub uninterp spec fn tok_encode(t: tokenizers::Tokenizer, text: Seq<char>) -> Seq<u32>;

/// Whether decoding a sequence of token ids succeeds.
pub uninterp spec fn tok_decode_ok(t: tokenizers::Tokenizer, ids: Seq<u32>) -> bool;

/// The text that decoding a sequence of token ids yields when it succeeds,
/// with special tokens skipped.
pub uninterp spec fn tok_decode(t: tokenizers::Tokenizer, ids: Seq<u32>) -> Seq<char>;

/// The id under which the vocabulary lists a token, if any.
pub uninterp spec fn tok_token_id(t: tokenizers::Tokenizer, token: Seq<char>) -> Option<u32>;

/// Relies on `tokenizers::Tokenizer::encode` with the tokenizer's default
/// special-token policy enabled. Whether it succeeds depends on the
/// tokenizer and the text alone; the returned ids do so too only for a
/// tokenizer without encode-time randomness (no merge dropout), so the ids
/// are pinned only under that condition.
#[verifier::external_body]
pub fn encode_text(t: &tokenizers::Tokenizer, text: &str) -> (r: Option<Vec<u32>>)
    ensures
        r is Some <==> tok_encode_ok(*t, text@),
        tok_encode_deterministic(*t) && r is Some ==> r.unwrap()@ == tok_encode(*t, text@),
{
    match t.encode(text, true) {
        Ok(enc) => Some(enc.get_ids().to_vec()),
        Err(_) => None,
    }
}

/// Relies on `tokenizers::Tokenizer::decode` with special tokens skipped;
/// success and the returned text depend on the tokenizer and the ids alone.
#[verifier::external_body]
pub fn decode_ids(t: &tokenizers::Tokenizer, ids: &Vec<u32>) -> (r: Option<String>)
    ensures
        r is Some <==> tok_decode_ok(*t, ids@),
        r is Some ==> r.unwrap()@ == tok_decode(*t, ids@),
{
    t.decode(ids.as_slice(), true).ok()
}

/// Relies on `tokenizers::Tokenizer::token_to_id`: a vocabulary lookup,
/// a pure function of the tokenizer and the token text.
#[verifier::external_body]
pub fn token_id(t: &tokenizers::Tokenizer, token: &str) -> (r: Option<u32>)
    ensures
        r == tok_token_id(*t, token@),
{
    t.token_to_id(token)
}

} // verus!
