//! Model interface: the boundary to the neural network.
//!
//! The engine sees the model only as a capability that maps a context
//! window and its start position to next-token scores for the last
//! position. The model may cache computation for all positions before the
//! start position, so callers must pass the full sequence on the first call
//! and exactly the newly appended token afterwards.

use vstd::prelude::*;

verus! {

#[verifier::external_type_specification]
#[verifier::external_body]
pub struct ExPhi3Model(candle_transformers::models::phi3::Model);

/// A capability producing unnormalized next-token scores. Nothing is
/// assumed of the scores themselves: the engine is verified for every
/// value an implementation may return.
pub trait ModelInterface {
    /// Scores for the position after the last token of `ctxt`, whose first
    /// token stands at `start_pos` of the conceptual full sequence; `None`
    /// reports a failed forward evaluation.
    fn forward_logits(&mut self, ctxt: &Vec<u32>, start_pos: usize) -> Option<
        candle_core::Tensor,
    >;
}

/// The phi-3 transformer of `candle_transformers`, bound to its device.
pub struct CandlePhi3 {
    model: candle_transformers::models::phi3::Model,
    device: candle_core::Device,
}

impl CandlePhi3 {
    /// The transformer this binding evaluates.
    pub closed spec fn model_spec(&self) -> candle_transformers::models::phi3::Model {
        self.model
    }

    /// The device the transformer is bound to.
    pub closed spec fn device_spec(&self) -> candle_core::Device {
        self.device
    }

    pub fn new(model: candle_transformers::models::phi3::Model, device: candle_core::Device) -> (r:
        CandlePhi3)
        ensures
            r.model_spec() == model,
            r.device_spec() == device,
    {
        CandlePhi3 { model, device }
    }
}

/// Relies on `candle_transformers::models::phi3::Model::forward`, which
/// returns scores of shape batch by one by vocabulary for the last
/// position; the batch and position axes are squeezed away here. The
/// context must be non-empty: on a zero-length window the forward pass
/// computes the window length minus one, which underflows.
#[verifier::external_body]
fn phi3_forward(
    model: &mut candle_transformers::models::phi3::Model,
    device: &candle_core::Device,
    ctxt: &Vec<u32>,
    start_pos: usize,
) -> (r: Option<candle_core::Tensor>)
    requires
        ctxt@.len() > 0,
{
    let input = match candle_core::Tensor::new(ctxt.as_slice(), device).and_then(
        |t| t.unsqueeze(0),
    ) {
        Ok(t) => t,
        Err(_) => return None,
    };
    let logits = match model.forward(&input, start_pos) {
        Ok(t) => t,
        Err(_) => return None,
    };
    logits.squeeze(0).and_then(|t| t.squeeze(0)).ok()
}

impl ModelInterface for CandlePhi3 {
    fn forward_logits(&mut self, ctxt: &Vec<u32>, start_pos: usize) -> Option<
        candle_core::Tensor,
    > {
        if ctxt.len() == 0 {
            None
        } else {
            phi3_forward(&mut self.model, &self.device, ctxt, start_pos)
        }
    }
}

} // verus!
