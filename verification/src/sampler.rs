//! Sampler: turns a logits vector into the next token id.
//!
//! With the temperature absent or numerically zero the choice is greedy —
//! the lowest index of a maximal entry — and therefore a pure function of
//! the logits. With a positive temperature the choice is drawn from the
//! temperature-scaled distribution by a seeded generator owned by this
//! sampler, optionally restricted to a top-p nucleus; nothing is promised
//! of a drawn token beyond the call returning one.

use vstd::prelude::*;

use crate::tensor_ext::{argmax_cpu, argmax_of, is_logits_vector, logits_bits};

verus! {

#[verifier::external_type_specification]
#[verifier::external_body]
pub struct ExLogitsProcessor(candle_transformers::generation::LogitsProcessor);

/// A temperature is zero when it is absent or its 64-bit IEEE 754 bit
/// pattern is one of the two zero values.
pub open spec fn is_zero_temperature(bits: Option<u64>) -> bool {
    match bits {
        None => true,
        Some(b) => b == 0u64 || b == 0x8000_0000_0000_0000u64,
    }
}

/// Relies on `candle_transformers::generation::LogitsProcessor::new`; the
/// temperature and top-p bit patterns are rebuilt into 64-bit floats through
/// a raw single-entry tensor before the call.
#[verifier::external_body]
fn lp_from_config(seed: u64, temperature_bits: Option<u64>, top_p_bits: Option<u64>) -> (r:
    candle_transformers::generation::LogitsProcessor) {
    let scalar = |b: u64| {
        candle_core::Tensor::from_raw_buffer(
            &b.to_le_bytes(),
            candle_core::DType::F64,
            &[],
            &candle_core::Device::Cpu,
        ).and_then(|t| t.to_scalar()).ok()
    };
    let temperature = temperature_bits.and_then(scalar);
    let top_p = top_p_bits.and_then(scalar);
    candle_transformers::generation::LogitsProcessor::new(seed, temperature, top_p)
}

/// Relies on `candle_transformers::generation::LogitsProcessor::sample`: a
/// draw from the seeded generator, so no two calls need agree; but every
/// strategy of the crate's version picks an index of the vector, so a drawn
/// id from a logits vector is always in range.
#[verifier::external_body]
fn lp_sample(
    lp: &mut candle_transformers::generation::LogitsProcessor,
    logits: &candle_core::Tensor,
) -> (r: Option<u32>)
    ensures
        is_logits_vector(*logits) && r is Some ==> (r.unwrap() as int) < logits_bits(
            *logits,
        ).len(),
{
    lp.sample(logits).ok()
}

pub struct Sampler {
    greedy: bool,
    processor: candle_transformers::generation::LogitsProcessor,
}

impl Sampler {
    /// Whether this sampler always takes the greedy choice.
    pub closed spec fn greedy_mode(&self) -> bool {
        self.greedy
    }

    /// Build a sampler from the generation configuration: the seed of the
    /// random generator and the IEEE 754 bit patterns of the optional
    /// temperature and top-p values.
    pub fn new(seed: u64, temperature_bits: Option<u64>, top_p_bits: Option<u64>) -> (r: Sampler)
        ensures
            r.greedy_mode() == is_zero_temperature(temperature_bits),
    {
        let greedy = match temperature_bits {
            None => true,
            Some(b) => b == 0u64 || b == 0x8000_0000_0000_0000u64,
        };
        Sampler { greedy, processor: lp_from_config(seed, temperature_bits, top_p_bits) }
    }

    /// Pick the next token id from a logits vector. In greedy mode the
    /// result is the lowest index of a maximal entry, a pure function of
    /// the logits; otherwise it is a seeded draw. Either way a token drawn
    /// from a logits vector is an index into it.
    pub fn sample(&mut self, logits: &candle_core::Tensor) -> (r: Option<u32>)
        ensures
            final(self).greedy_mode() == old(self).greedy_mode(),
            old(self).greedy_mode() && is_logits_vector(*logits) && logits_bits(*logits).len() > 0
                ==> r == Some(argmax_of(logits_bits(*logits))),
            old(self).greedy_mode() && is_logits_vector(*logits) && logits_bits(*logits).len() == 0
                ==> r is None,
            is_logits_vector(*logits) && r is Some ==> (r.unwrap() as int) < logits_bits(
                *logits,
            ).len(),
    {
        if self.greedy {
            argmax_cpu(logits)
        } else {
            lp_sample(&mut self.processor, logits)
        }
    }
}

/// With the temperature unset or zero, sampling is a pure function of the
/// logits: two greedy picks from logits vectors with identical contents are
/// the same token id.
pub proof fn lemma_greedy_sample_deterministic(b1: Seq<u32>, b2: Seq<u32>)
    requires
        b1 == b2,
    ensures
        argmax_of(b1) == argmax_of(b2),
{
}

} // verus!
