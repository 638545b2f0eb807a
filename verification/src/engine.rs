//! Generation engine: the autoregressive loop.
//!
//! One engine instance serves one request: it encodes the prompt, resolves
//! the end-of-sequence token, and then repeatedly asks the model for
//! next-token scores, filters them with the repeat penalty, samples the
//! next id, and streams freshly completed text fragments, stopping on the
//! end-of-sequence token or after the token budget.

use vstd::prelude::*;

use crate::entities::AppState;
use crate::error::GenerationError;
use crate::meta::{fresh_request_id, unix_time_seconds};
use crate::model::{CandlePhi3, ModelInterface};
use crate::penalty::{apply_repeat_penalty, UNIT_PENALTY_BITS};
use crate::sampler::{is_zero_temperature, Sampler};
use crate::stream::{emitted_text, TokenOutputStream};
use crate::tensor_ext::to_single_precision;
use crate::tokenizer_ext::{
    encode_text,
    tok_encode,
    tok_encode_deterministic,
    tok_encode_ok,
    tok_token_id,
};
use vstd::string::StringExecFns;

verus! {

/// Everything one finished generation produced: the aggregated text, the
/// sampled token ids (the terminal end-of-sequence token excluded), usage
/// counts, whether the end-of-sequence token ended the loop (as opposed to
/// the token budget), and request metadata.
#[derive(Debug)]
pub struct CompletionResult {
    pub id: String,
    pub created: i64,
    pub model: String,
    pub text: String,
    pub gen_tokens: Vec<u32>,
    pub prompt_tokens: usize,
    pub completion_tokens: usize,
    pub total_tokens: u128,
    pub finished_by_eos: bool,
}

/// What a successful completion must satisfy: encoding succeeded, the
/// end-of-sequence token exists, the text is exactly what the streaming
/// detokenizer emits for the kept ids, the end-of-sequence token is never
/// among them, and the usage counts are the prompt length, the number of
/// kept ids (at most the budget), and their sum. The prompt count equals
/// the encoding's length outright only for a tokenizer that encodes
/// deterministically: with encode-time randomness no spec value names the
/// ids a particular call returned.
pub open spec fn completion_matches(
    t: tokenizers::Tokenizer,
    prompt: Seq<char>,
    sample_len: usize,
    o: CompletionResult,
) -> bool {
    let eos = tok_token_id(t, "</s>"@);
    &&& tok_encode_ok(t, prompt)
    &&& eos is Some
    &&& o.completion_tokens == o.gen_tokens@.len()
    &&& o.completion_tokens <= sample_len
    &&& (tok_encode_deterministic(t) ==> o.prompt_tokens == tok_encode(t, prompt).len())
    &&& o.total_tokens == o.prompt_tokens + o.completion_tokens
    &&& o.text@ == emitted_text(t, o.gen_tokens@)
    &&& (forall|i: int| 0 <= i < o.gen_tokens@.len() ==> o.gen_tokens@[i] != eos.unwrap())
    &&& (o.finished_by_eos ==> o.completion_tokens < sample_len)
    &&& (!o.finished_by_eos ==> o.completion_tokens == sample_len)
    &&& o.id@.len() == 36
}

/// The incremental-context protocol of the model interface: the first step
/// hands the model the whole sequence so far at position zero; every later
/// step hands exactly the most recently appended token, at the position
/// just before the end of the sequence at call time.
pub fn context_window(tokens: &Vec<u32>, step: usize) -> (r: (Vec<u32>, usize))
    requires
        step > 0 ==> tokens@.len() > 0,
    ensures
        step == 0 ==> r.0@ == tokens@ && r.1 == 0,
        step > 0 ==> r.0@ == seq![tokens@[tokens@.len() - 1]] && r.1 == tokens@.len() - 1,
{
    let mut ctxt: Vec<u32> = Vec::new();
    if step == 0 {
        let mut k: usize = 0;
        while k < tokens.len()
            invariant
                k <= tokens@.len(),
                ctxt@ =~= tokens@.subrange(0, k as int),
            decreases tokens@.len() - k,
        {
            ctxt.push(tokens[k]);
            k += 1;
        }
        proof {
            assert(ctxt@ =~= tokens@);
        }
        (ctxt, 0)
    } else {
        ctxt.push(tokens[tokens.len() - 1]);
        proof {
            assert(ctxt@ =~= seq![tokens@[tokens@.len() - 1]]);
        }
        (ctxt, tokens.len() - 1)
    }
}

/// One in-flight generation: the model capability, the streaming
/// detokenizer around the tokenizer, the sampler, and the repeat-penalty
/// configuration.
pub struct TextGeneration<M: ModelInterface> {
    model: M,
    stream: TokenOutputStream,
    sampler: Sampler,
    repeat_penalty_bits: u32,
    repeat_last_n: usize,
}

impl<M: ModelInterface> TextGeneration<M> {
    /// The tokenizer this generation decodes with.
    pub closed spec fn tokenizer_spec(&self) -> tokenizers::Tokenizer {
        self.stream.tok()
    }

    pub closed spec fn wf(&self) -> bool {
        self.stream.wf()
    }

    /// Whether sampling is greedy: the temperature was absent or zero.
    pub closed spec fn greedy_spec(&self) -> bool {
        self.sampler.greedy_mode()
    }

    /// The repeat-penalty strength, as the bit pattern of a 32-bit float.
    pub closed spec fn repeat_penalty_spec(&self) -> u32 {
        self.repeat_penalty_bits
    }

    /// The length of the trailing window the repeat penalty looks at.
    pub closed spec fn repeat_window_spec(&self) -> usize {
        self.repeat_last_n
    }

    /// The model capability this generation queries.
    pub closed spec fn model_spec(&self) -> M {
        self.model
    }

    /// Bind a model, a tokenizer and the sampling configuration to one
    /// generation. Temperature and top-p cross as the bit patterns of
    /// 64-bit IEEE 754 floats, the repeat penalty as the bit pattern of a
    /// 32-bit one; `repeat_last_n` is the length of the trailing window the
    /// penalty looks at. The seed's effect lives inside the opaque sampling
    /// processor, so no contract can speak of it.
    pub fn new(
        model: M,
        tokenizer: tokenizers::Tokenizer,
        seed: u64,
        temperature_bits: Option<u64>,
        top_p_bits: Option<u64>,
        repeat_penalty_bits: u32,
        repeat_last_n: usize,
    ) -> (r: TextGeneration<M>)
        ensures
            r.tokenizer_spec() == tokenizer,
            r.wf(),
            r.model_spec() == model,
            r.greedy_spec() == is_zero_temperature(temperature_bits),
            r.repeat_penalty_spec() == repeat_penalty_bits,
            r.repeat_window_spec() == repeat_last_n,
    {
        TextGeneration {
            model,
            stream: TokenOutputStream::new(tokenizer),
            sampler: Sampler::new(seed, temperature_bits, top_p_bits),
            repeat_penalty_bits,
            repeat_last_n,
        }
    }

    /// Run the loop: generate at most `sample_len` tokens for `prompt`.
    ///
    /// The prompt is rejected exactly when the tokenizer cannot encode it;
    /// the vocabulary is rejected exactly when it lacks the end-of-sequence
    /// token; inference and detokenization failures can be reported only
    /// once those two checks passed and at least one step was asked for, so
    /// a zero budget with a well-formed prompt and vocabulary is owed a
    /// completion. On success the text is exactly what the streaming
    /// detokenizer emits for the sampled ids, the end-of-sequence token is
    /// excluded and never among them, and the usage counts are the prompt
    /// length, the number of sampled ids kept, and their sum.
    pub fn run(&mut self, prompt: &str, sample_len: usize) -> (r: Result<
        CompletionResult,
        GenerationError,
    >)
        requires
            old(self).wf(),
        ensures
            final(self).tokenizer_spec() == old(self).tokenizer_spec(),
            final(self).wf(),
            ({
                let t = old(self).tokenizer_spec();
                let enc_ok = tok_encode_ok(t, prompt@);
                let eos = tok_token_id(t, "</s>"@);
                &&& ((r is Err && r->Err_0 == GenerationError::Tokenization) <==> !enc_ok)
                &&& ((r is Err && r->Err_0 == GenerationError::Vocabulary) <==> (enc_ok
                    && eos is None))
                &&& (r is Err && (r->Err_0 == GenerationError::ModelInference || r->Err_0
                    == GenerationError::Detokenization) ==> enc_ok && eos is Some && sample_len
                    > 0)
                &&& (enc_ok && eos is Some && sample_len == 0 ==> r is Ok)
                &&& (r is Ok ==> completion_matches(t, prompt@, sample_len, r.unwrap()))
            }),
    {
        let ghost t_spec = self.stream.tok();
        self.stream.clear();
        let prompt_ids = match encode_text(self.stream.tokenizer(), prompt) {
            Some(ids) => ids,
            None => return Err(GenerationError::Tokenization),
        };
        let eos_token = match self.stream.get_token("</s>") {
            Some(id) => id,
            None => return Err(GenerationError::Vocabulary),
        };
        let mut tokens = prompt_ids;
        let ghost prompt_seq = tokens@;
        let prompt_len = tokens.len();
        let mut gen: Vec<u32> = Vec::new();
        let mut text = String::new();
        let mut index: usize = 0;
        let mut stopped = false;
        while index < sample_len && !stopped
            invariant
                index <= sample_len,
                t_spec == old(self).tokenizer_spec(),
                tok_encode_ok(t_spec, prompt@),
                tok_encode_deterministic(t_spec) ==> tok_encode(t_spec, prompt@) == prompt_seq,
                tok_token_id(t_spec, "</s>"@) == Some(eos_token),
                self.stream.wf(),
                self.stream.tok() == t_spec,
                self.stream.ids() == gen@,
                text@ == emitted_text(t_spec, gen@),
                gen@.len() <= index,
                stopped || gen@.len() == index,
                stopped ==> gen@.len() < index,
                tokens@ == prompt_seq + gen@,
                prompt_len == prompt_seq.len(),
                forall|i: int| 0 <= i < gen@.len() ==> gen@[i] != eos_token,
            decreases sample_len - index,
        {
            let (ctxt, start_pos) = context_window(&tokens, index);
            let logits = match self.model.forward_logits(&ctxt, start_pos) {
                Some(l) => l,
                None => return Err(GenerationError::ModelInference),
            };
            let logits = match to_single_precision(&logits) {
                Some(l) => l,
                None => return Err(GenerationError::ModelInference),
            };
            let logits = if self.repeat_penalty_bits == UNIT_PENALTY_BITS {
                logits
            } else {
                match apply_repeat_penalty(
                    &logits,
                    self.repeat_penalty_bits,
                    &tokens,
                    self.repeat_last_n,
                ) {
                    Some(l) => l,
                    None => return Err(GenerationError::ModelInference),
                }
            };
            let next = match self.sampler.sample(&logits) {
                Some(n) => n,
                None => return Err(GenerationError::ModelInference),
            };
            if next == eos_token {
                stopped = true;
            } else {
                tokens.push(next);
                match self.stream.next_token(next) {
                    Ok(Some(fragment)) => {
                        text.append(fragment.as_str());
                    },
                    Ok(None) => {},
                    Err(e) => return Err(e),
                }
                let ghost prior_gen = gen@;
                gen.push(next);
                proof {
                    assert(gen@ =~= prior_gen.push(next));
                    assert(gen@.drop_last() =~= prior_gen);
                }
            }
            index += 1;
        }
        let completion_tokens = gen.len();
        let total_tokens = prompt_len as u128 + completion_tokens as u128;
        let id = fresh_request_id();
        let created = unix_time_seconds();
        Ok(
            CompletionResult {
                id,
                created,
                model: String::from_str("Phi-3"),
                text,
                gen_tokens: gen,
                prompt_tokens: prompt_len,
                completion_tokens,
                total_tokens,
                finished_by_eos: stopped,
            },
        )
    }
}

/// Build the engine the service uses: the phi-3 model from the shared
/// handle, the fixed sampling seed, the handle's default temperature, no
/// top-p restriction, a repeat penalty of 1.1 (as its IEEE 754 bit
/// pattern) over the last 64 tokens.
pub fn engine_from_state(state: AppState) -> (r: TextGeneration<CandlePhi3>)
    ensures
        r.tokenizer_spec() == state.tokenizer,
        r.wf(),
        r.model_spec().model_spec() == state.model,
        r.model_spec().device_spec() == state.device,
        r.greedy_spec() == is_zero_temperature(state.temperature_bits),
        r.repeat_penalty_spec() == 0x3F8C_CCCDu32,
        r.repeat_window_spec() == 64usize,
{
    TextGeneration::new(
        CandlePhi3::new(state.model, state.device),
        state.tokenizer,
        299792458u64,
        state.temperature_bits,
        None,
        0x3F8C_CCCDu32,
        64,
    )
}

} // verus!
