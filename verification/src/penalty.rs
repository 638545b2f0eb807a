//! Repeat penalty filter: rescales the logits of recently emitted tokens.
//!
//! Every token id that occurs in the trailing window of the sequence has
//! its score divided by the penalty when positive and multiplied by it when
//! negative — both directions lower the chance of picking it again for a
//! penalty above one. Entries of tokens outside the window are untouched.

use vstd::prelude::*;

use crate::tensor_ext::{is_logits_vector, logits_bits};

verus! {

/// The IEEE 754 bit pattern of a penalty of exactly one, which disables
/// the filter.
pub const UNIT_PENALTY_BITS: u32 = 0x3F80_0000;

/// The bit pattern of a penalized score: the 32-bit float it denotes is
/// divided by the penalty when at least zero and multiplied by it
/// otherwise. A pure function of the two bit patterns.
pub uninterp spec fn penalized_bits(score_bits: u32, penalty_bits: u32) -> u32;

/// What one entry of the filtered logits vector must be: rescaled when its
/// index is a token id of the trailing window, unchanged otherwise.
pub open spec fn penalized_entry(
    entries: Seq<u32>,
    i: int,
    window: Seq<u32>,
    penalty_bits: u32,
) -> u32 {
    if i < 0x1_0000_0000 && window.contains(i as u32) {
        penalized_bits(entries[i], penalty_bits)
    } else {
        entries[i]
    }
}

/// Relies on `candle_transformers::utils::apply_repeat_penalty`: each entry
/// whose index occurs among `recent` (once, however often it occurs) is
/// rescaled by the penalty, every other entry is returned unchanged, and the
/// length is kept. The penalty bit pattern is rebuilt into a 32-bit float
/// through a raw single-entry tensor before the call.
#[verifier::external_body]
fn apply_penalty_raw(
    logits: &candle_core::Tensor,
    penalty_bits: u32,
    recent: &Vec<u32>,
) -> (r: Option<candle_core::Tensor>)
    ensures
        is_logits_vector(*logits) ==> r is Some,
        r is Some ==> is_logits_vector(*logits) && is_logits_vector(r.unwrap()),
        r is Some ==> logits_bits(r.unwrap()).len() == logits_bits(*logits).len(),
        r is Some ==> forall|i: int|
            0 <= i < logits_bits(*logits).len() ==> logits_bits(r.unwrap())[i] == (
            if i < 0x1_0000_0000 && recent@.contains(i as u32) {
                penalized_bits(logits_bits(*logits)[i], penalty_bits)
            } else {
                logits_bits(*logits)[i]
            }),
{
    let penalty = match candle_core::Tensor::from_raw_buffer(
        &penalty_bits.to_le_bytes(),
        logits.dtype(),
        &[],
        logits.device(),
    ).and_then(|t| t.to_scalar()) {
        Ok(p) => p,
        Err(_) => return None,
    };
    candle_transformers::utils::apply_repeat_penalty(logits, penalty, recent.as_slice()).ok()
}

/// The trailing window of the last `window` tokens of a sequence.
pub open spec fn trailing_window(tokens: Seq<u32>, window: nat) -> Seq<u32> {
    if window >= tokens.len() {
        tokens
    } else {
        tokens.skip(tokens.len() - window)
    }
}

/// Filter a logits vector against the trailing `window` tokens of
/// `tokens`: scores of tokens present in that window are rescaled by the
/// penalty, all others are returned unchanged.
pub fn apply_repeat_penalty(
    logits: &candle_core::Tensor,
    penalty_bits: u32,
    tokens: &Vec<u32>,
    window: usize,
) -> (r: Option<candle_core::Tensor>)
    ensures
        is_logits_vector(*logits) ==> r is Some,
        r is Some ==> is_logits_vector(*logits) && is_logits_vector(r.unwrap()),
        r is Some ==> logits_bits(r.unwrap()).len() == logits_bits(*logits).len(),
        r is Some ==> forall|i: int|
            0 <= i < logits_bits(*logits).len() ==> logits_bits(r.unwrap())[i]
                == penalized_entry(
                logits_bits(*logits),
                i,
                trailing_window(tokens@, window as nat),
                penalty_bits,
            ),
{
    let len = tokens.len();
    let start = if window >= len {
        0
    } else {
        len - window
    };
    let mut recent: Vec<u32> = Vec::new();
    let mut j = start;
    while j < len
        invariant
            start <= j <= len,
            len == tokens@.len(),
            recent@ =~= tokens@.subrange(start as int, j as int),
        decreases len - j,
    {
        recent.push(tokens[j]);
        j += 1;
    }
    proof {
        assert(recent@ =~= trailing_window(tokens@, window as nat));
    }
    apply_penalty_raw(logits, penalty_bits, &recent)
}

} // verus!
