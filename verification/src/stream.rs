//! Streaming detokenizer.
//!
//! Token vocabularies may split a printable unit across several ids, so
//! decoding one freshly produced id on its own can yield broken text. The
//! stream keeps every id seen so far and the number of characters already
//! handed out; after each new id it re-decodes the whole sequence and emits
//! the new suffix only when the rendering has grown past what was already
//! emitted and ends on a complete character.

use vstd::prelude::*;

use crate::error::GenerationError;
use crate::tokenizer_ext::{decode_ids, tok_decode, tok_decode_ok, tok_token_id, token_id};
use vstd::string::StrSliceExecFns;
use vstd::string::StringExecFns;

verus! {

/// A rendering ends cleanly when it is non-empty and its last character is
/// a complete one, not the replacement character left by a truncated
/// multi-byte unit.
pub open spec fn clean_end(s: Seq<char>) -> bool {
    s.len() > 0 && s.last() != '\u{FFFD}'
}

/// The number of characters the stream has emitted after being fed `ids`
/// from a fresh state.
pub open spec fn emitted_len(t: tokenizers::Tokenizer, ids: Seq<u32>) -> nat
    decreases ids.len(),
{
    if ids.len() == 0 {
        0
    } else {
        let prev = emitted_len(t, ids.drop_last());
        let full = tok_decode(t, ids);
        if full.len() > prev && clean_end(full) {
            full.len()
        } else {
            prev
        }
    }
}

/// The text the stream has emitted, as the concatenation of all fragments,
/// after being fed `ids` from a fresh state.
pub open spec fn emitted_text(t: tokenizers::Tokenizer, ids: Seq<u32>) -> Seq<char>
    decreases ids.len(),
{
    if ids.len() == 0 {
        Seq::empty()
    } else {
        let prev = emitted_len(t, ids.drop_last());
        let prev_text = emitted_text(t, ids.drop_last());
        let full = tok_decode(t, ids);
        if full.len() > prev && clean_end(full) {
            prev_text + full.skip(prev as int)
        } else {
            prev_text
        }
    }
}

/// The fragment a stream that has already seen `prior` emits for `id`.
pub open spec fn step_fragment(t: tokenizers::Tokenizer, prior: Seq<u32>, id: u32) -> Option<
    Seq<char>,
> {
    let full = tok_decode(t, prior.push(id));
    let prev = emitted_len(t, prior);
    if full.len() > prev && clean_end(full) {
        Some(full.skip(prev as int))
    } else {
        None
    }
}

/// Decoding is prefix-stable for an id sequence when, at every step, the
/// text already emitted is a prefix of the new rendering: growing the
/// sequence never retracts text that was already handed out.
pub open spec fn prefix_stable(t: tokenizers::Tokenizer, ids: Seq<u32>) -> bool {
    forall|i: int|
        1 <= i <= ids.len() ==> {
            let prev = emitted_len(t, ids.take(i - 1));
            let cur = tok_decode(t, #[trigger] ids.take(i));
            prev <= cur.len() && emitted_text(t, ids.take(i - 1)) == cur.take(prev as int)
        }
}

/// Under prefix-stable decoding the text emitted so far is exactly the
/// prefix, of the emitted length, of the current rendering.
pub proof fn lemma_stream_prefix_invariant(t: tokenizers::Tokenizer, ids: Seq<u32>)
    requires
        ids.len() > 0,
        prefix_stable(t, ids),
    ensures
        emitted_len(t, ids) <= tok_decode(t, ids).len(),
        emitted_text(t, ids) == tok_decode(t, ids).take(emitted_len(t, ids) as int),
{
    let n = ids.len() as int;
    let prior = ids.drop_last();
    assert(ids.take(n) =~= ids);
    assert(ids.take(n - 1) =~= prior);
    let prev = emitted_len(t, prior);
    let cur = tok_decode(t, ids);
    assert(prev <= cur.len() && emitted_text(t, prior) == cur.take(prev as int));
    if cur.len() > prev && clean_end(cur) {
        assert(emitted_text(t, ids) =~= cur.take(cur.len() as int));
    }
}

/// Feeding a sequence of ids one at a time and concatenating every emitted
/// fragment recovers the decoding of the whole sequence at once, whenever
/// decoding is prefix-stable over the sequence and the full rendering ends
/// on a complete character (no incomplete trailing multi-byte unit).
pub proof fn lemma_stream_round_trip(t: tokenizers::Tokenizer, ids: Seq<u32>)
    requires
        ids.len() > 0,
        prefix_stable(t, ids),
        clean_end(tok_decode(t, ids)),
    ensures
        emitted_text(t, ids) == tok_decode(t, ids),
{
    lemma_stream_prefix_invariant(t, ids);
    let n = ids.len() as int;
    let prior = ids.drop_last();
    assert(ids.take(n) =~= ids);
    assert(ids.take(n - 1) =~= prior);
    let prev = emitted_len(t, prior);
    let cur = tok_decode(t, ids);
    if cur.len() > prev {
        assert(emitted_len(t, ids) == cur.len());
    } else {
        assert(prev <= cur.len());
        assert(emitted_len(t, ids) == prev);
    }
    assert(emitted_text(t, ids) =~= cur);
}

/// The fragment a stream emits for an id is a function of the tokenizer and
/// the ids fed so far alone: two streams in the same abstract state — as
/// after clearing and replaying one and the same sequence — have emitted
/// equally much and emit identical fragments from then on.
pub proof fn lemma_replay_reproduces_fragments(a: &TokenOutputStream, b: &TokenOutputStream)
    requires
        a.wf(),
        b.wf(),
        a.tok() == b.tok(),
        a.ids() == b.ids(),
    ensures
        a.emitted_count() == b.emitted_count(),
        forall|id: u32|
            #[trigger] step_fragment(a.tok(), a.ids(), id) == step_fragment(b.tok(), b.ids(), id),
{
}

/// Fragments are determined by the ids fed so far alone: feeding further
/// ids later never changes what an earlier step emitted, so replaying a
/// prefix reproduces its fragments exactly.
pub proof fn lemma_fragment_depends_on_prefix(
    t: tokenizers::Tokenizer,
    ids: Seq<u32>,
    more: Seq<u32>,
    i: int,
)
    requires
        0 <= i < ids.len(),
    ensures
        step_fragment(t, (ids + more).take(i), (ids + more)[i]) == step_fragment(
            t,
            ids.take(i),
            ids[i],
        ),
{
    assert((ids + more).take(i) =~= ids.take(i));
}

pub struct TokenOutputStream {
    tokenizer: tokenizers::Tokenizer,
    tokens: Vec<u32>,
    emitted: usize,
}

impl TokenOutputStream {
    /// The tokenizer this stream decodes with.
    pub closed spec fn tok(&self) -> tokenizers::Tokenizer {
        self.tokenizer
    }

    /// Every token id fed since the last reset.
    pub closed spec fn ids(&self) -> Seq<u32> {
        self.tokens@
    }

    /// How many characters have been handed out since the last reset.
    pub closed spec fn emitted_count(&self) -> nat {
        self.emitted as nat
    }

    /// The stream's emitted count always matches a replay of its ids from a
    /// fresh state.
    pub open spec fn wf(&self) -> bool {
        self.emitted_count() == emitted_len(self.tok(), self.ids())
    }

    pub fn new(tokenizer: tokenizers::Tokenizer) -> (r: TokenOutputStream)
        ensures
            r.tok() == tokenizer,
            r.ids() == Seq::<u32>::empty(),
            r.emitted_count() == 0,
            r.wf(),
    {
        TokenOutputStream { tokenizer, tokens: Vec::new(), emitted: 0 }
    }

    /// Forget all ids and emitted text; must be called before reuse, or the
    /// next request's output would be mixed with the previous one's.
    pub fn clear(&mut self)
        ensures
            final(self).tok() == old(self).tok(),
            final(self).ids() == Seq::<u32>::empty(),
            final(self).emitted_count() == 0,
            final(self).wf(),
    {
        self.tokens.clear();
        self.emitted = 0;
    }

    /// The tokenizer this stream decodes with.
    pub fn tokenizer(&self) -> (r: &tokenizers::Tokenizer)
        ensures
            *r == self.tok(),
    {
        &self.tokenizer
    }

    /// Look a token's id up in the vocabulary.
    pub fn get_token(&self, token: &str) -> (r: Option<u32>)
        ensures
            r == tok_token_id(self.tok(), token@),
    {
        token_id(&self.tokenizer, token)
    }

    /// Feed one freshly produced token id and return the text fragment it
    /// completes, if any. When decoding fails the id is not recorded and the
    /// stream is unchanged.
    pub fn next_token(&mut self, token: u32) -> (r: Result<Option<String>, GenerationError>)
        requires
            old(self).wf(),
        ensures
            final(self).wf(),
            final(self).tok() == old(self).tok(),
            tok_decode_ok(old(self).tok(), old(self).ids().push(token)) ==> {
                &&& final(self).ids() == old(self).ids().push(token)
                &&& r is Ok
                &&& (r.unwrap() is Some <==> step_fragment(old(self).tok(), old(self).ids(), token) is Some)
                &&& (r.unwrap() is Some ==> r.unwrap().unwrap()@ == step_fragment(
                    old(self).tok(),
                    old(self).ids(),
                    token,
                ).unwrap())
                &&& final(self).emitted_count() == emitted_len(
                    old(self).tok(),
                    old(self).ids().push(token),
                )
            },
            !tok_decode_ok(old(self).tok(), old(self).ids().push(token)) ==> {
                &&& r is Err && r.unwrap_err() == GenerationError::Detokenization
                &&& final(self).ids() == old(self).ids()
                &&& final(self).emitted_count() == old(self).emitted_count()
            },
    {
        let ghost prior = self.tokens@;
        self.tokens.push(token);
        let full = match decode_ids(&self.tokenizer, &self.tokens) {
            Some(s) => s,
            None => {
                let _dropped = self.tokens.pop();
                proof {
                    assert(prior.push(token).drop_last() =~= prior);
                }
                return Err(GenerationError::Detokenization);
            },
        };
        proof {
            assert(self.tokens@.drop_last() =~= prior);
        }
        let full_len = full.as_str().unicode_len();
        if full_len > self.emitted && full.as_str().get_char(full_len - 1) != '\u{FFFD}' {
            proof {
                assert(full@.last() == full@[full_len - 1]);
                assert(full@.skip(self.emitted as int) =~= full@.subrange(
                    self.emitted as int,
                    full_len as int,
                ));
            }
            let frag = full.as_str().substring_char(self.emitted, full_len);
            let out = String::from_str(frag);
            self.emitted = full_len;
            Ok(Some(out))
        } else {
            Ok(None)
        }
    }
}

} // verus!
