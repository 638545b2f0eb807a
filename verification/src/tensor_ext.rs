//! Trusted view of `candle_core` tensors.
//!
//! A logits vector is carried through the library as an opaque
//! `candle_core::Tensor`. Its contents are reflected into specifications
//! as the sequence of the IEEE 754 bit patterns of its 32-bit entries.

use vstd::prelude::*;

verus! {

#[verifier::external_type_specification]
#[verifier::external_body]
pub struct ExTensor(candle_core::Tensor);

#[verifier::external_type_specification]
#[verifier::external_body]
pub struct ExDevice(candle_core::Device);

#[verifier::external_type_specification]
#[verifier::external_body]
pub struct ExCandleError(candle_core::Error);

/// The bit patterns of the 32-bit float entries of a rank-one tensor.
pub uninterp spec fn logits_bits(t: candle_core::Tensor) -> Seq<u32>;

/// Whether a tensor is a rank-one vector of 32-bit floats.
pub uninterp spec fn is_logits_vector(t: candle_core::Tensor) -> bool;

/// The index of the greatest entry of a logits vector, given by its bit
/// patterns; the lowest such index when several entries are equal.
pub uninterp spec fn argmax_of(bits: Seq<u32>) -> u32;

/// Relies on `candle_core::Tensor::argmax`, run on the CPU backend, whose
/// kernel scans the entries in index order and replaces the running maximum
/// only on a strictly greater entry, so ties keep the lowest index. The
/// result is a pure function of the entries alone and always an index into
/// the vector.
#[verifier::external_body]
pub fn argmax_cpu(t: &candle_core::Tensor) -> (r: Option<u32>)
    ensures
        is_logits_vector(*t) && logits_bits(*t).len() > 0 ==> r == Some(argmax_of(logits_bits(*t)))
            && (r.unwrap() as int) < logits_bits(*t).len(),
        is_logits_vector(*t) && logits_bits(*t).len() == 0 ==> r is None,
{
    let t = match t.to_device(&candle_core::Device::Cpu) {
        Ok(t) => t,
        Err(_) => return None,
    };
    match t.argmax(0).and_then(|i| i.to_scalar()) {
        Ok(i) => Some(i),
        Err(_) => None,
    }
}

/// Relies on `candle_core::Tensor::to_dtype(DType::F32)`: converts the
/// entries of a tensor to 32-bit floats without changing its shape.
#[verifier::external_body]
pub fn to_single_precision(t: &candle_core::Tensor) -> (r: Option<candle_core::Tensor>)
    ensures
        is_logits_vector(*t) ==> r is Some,
        is_logits_vector(*t) && r is Some ==> is_logits_vector(r.unwrap())
            && logits_bits(r.unwrap()) == logits_bits(*t),
{
    t.to_dtype(candle_core::DType::F32).ok()
}

} // verus!
