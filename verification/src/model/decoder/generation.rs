//! Autoregressive generation: when generation stops, what it returns and which
//! logits the next token is selected from.
//!
//! Running the decoder and the embedding model happens outside the library; a
//! [`Generation`] records each selected token and says whether to continue.

use vstd::prelude::*;

use crate::model::decoder::attention::AttentionMask;
use crate::model::decoder::config::GenerationConfig;
use crate::util::text::{decimal, with_number};
use crate::Error;

verus! {

/// Reason an autoregressive generation run stopped.
#[derive(Debug, Clone, Copy, PartialEq, Eq, Structural)]
pub enum FinishReason {
    /// Generation produced a configured end-of-sequence token.
    EndOfSequence,
    /// Generation reached the configured maximum number of new tokens.
    Length,
}

/// Output of an autoregressive generation run.
#[derive(Debug, Clone, PartialEq, Eq)]
pub struct GenerationOutput {
    token_ids: Vec<i64>,
    finish_reason: FinishReason,
}

impl View for GenerationOutput {
    type V = (Seq<i64>, FinishReason);

    closed spec fn view(&self) -> (Seq<i64>, FinishReason) {
        (self.token_ids@, self.finish_reason)
    }
}

impl GenerationOutput {
    /// Creates a generation output.
    pub fn new(token_ids: Vec<i64>, finish_reason: FinishReason) -> (o: Self)
        ensures
            o@ == (token_ids@, finish_reason),
    {
        GenerationOutput { token_ids, finish_reason }
    }

    /// The generated token IDs.
    pub fn token_ids(&self) -> (s: &[i64])
        ensures
            s@ == self@.0,
    {
        self.token_ids.as_slice()
    }

    /// The reason generation stopped.
    pub fn finish_reason(&self) -> (r: FinishReason)
        ensures
            r == self@.1,
    {
        self.finish_reason
    }
}

/// Whether `token` is one of the end-of-sequence tokens.
pub open spec fn is_eos_token(eos: Seq<i64>, token: i64) -> bool {
    eos.contains(token)
}

/// Whether `token_id` is one of the configured end-of-sequence tokens.
pub fn is_eos(config: &GenerationConfig, token_id: i64) -> (b: bool)
    ensures
        b == is_eos_token(config.eos_token_ids@, token_id),
{
    let mut i: usize = 0;
    while i < config.eos_token_ids.len()
        invariant
            i <= config.eos_token_ids@.len(),
            forall|k: int| 0 <= k < i ==> config.eos_token_ids@[k] != token_id,
        decreases config.eos_token_ids@.len() - i,
    {
        if config.eos_token_ids[i] == token_id {
            assert(config.eos_token_ids@[i as int] == token_id);
            return true;
        }
        i += 1;
    }
    false
}

/// The tokens a run keeps from the stream of selected tokens `stream`: up to
/// and including the first end-of-sequence token, and at most `max` tokens.
pub open spec fn generated_tokens(stream: Seq<i64>, eos: Seq<i64>, max: nat) -> Seq<i64>
    decreases stream.len(),
{
    if max == 0 || stream.len() == 0 {
        Seq::empty()
    } else if is_eos_token(eos, stream[0]) {
        seq![stream[0]]
    } else {
        seq![stream[0]] + generated_tokens(stream.drop_first(), eos, (max - 1) as nat)
    }
}

/// State of one autoregressive generation run.
#[derive(Debug)]
pub struct Generation {
    generated: Vec<i64>,
    eos_token_ids: Vec<i64>,
    max_new_tokens: usize,
    finished: Option<FinishReason>,
}

/// What happens after a token has been recorded.
#[derive(Debug, Clone, Copy, PartialEq, Eq, Structural)]
pub enum GenerationStep {
    /// Embed the token and run the decoder again.
    Continue,
    /// Generation is over.
    Finished(FinishReason),
}

/// Abstract state of a run: tokens so far, stop tokens, limit and outcome.
pub struct GenerationView {
    pub generated: Seq<i64>,
    pub eos: Seq<i64>,
    pub max_new_tokens: nat,
    pub finished: Option<FinishReason>,
}

/// Whether no token of `s` is an end-of-sequence token.
pub open spec fn free_of_eos(s: Seq<i64>, eos: Seq<i64>) -> bool {
    forall|i: int| 0 <= i < s.len() ==> !is_eos_token(eos, #[trigger] s[i])
}

/// The invariant every run keeps: the limit is never exceeded, only the last
/// token may stop generation, and the outcome matches the tokens.
pub open spec fn generation_consistent(v: GenerationView) -> bool {
    &&& v.generated.len() <= v.max_new_tokens
    &&& match v.finished {
        None => v.generated.len() < v.max_new_tokens && free_of_eos(v.generated, v.eos),
        Some(FinishReason::EndOfSequence) => v.generated.len() > 0
            && is_eos_token(v.eos, v.generated.last())
            && free_of_eos(v.generated.drop_last(), v.eos),
        Some(FinishReason::Length) => v.generated.len() == v.max_new_tokens
            && free_of_eos(v.generated, v.eos),
    }
}

impl View for Generation {
    type V = GenerationView;

    closed spec fn view(&self) -> GenerationView {
        GenerationView {
            generated: self.generated@,
            eos: self.eos_token_ids@,
            max_new_tokens: self.max_new_tokens as nat,
            finished: self.finished,
        }
    }
}

impl Generation {
    #[verifier::type_invariant]
    spec fn consistent(self) -> bool {
        generation_consistent(self@)
    }

    /// Starts a run; with a limit of zero it is over at once.
    pub fn start(config: &GenerationConfig) -> (g: Self)
        ensures
            g@.generated.len() == 0,
            g@.eos == config.eos_token_ids@,
            g@.max_new_tokens == config.max_new_tokens,
            g@.finished == (if config.max_new_tokens == 0 {
                Some(FinishReason::Length)
            } else {
                None::<FinishReason>
            }),
    {
        let finished = if config.max_new_tokens == 0 {
            Some(FinishReason::Length)
        } else {
            None
        };
        Generation {
            generated: Vec::new(),
            eos_token_ids: config.eos_token_ids.clone(),
            max_new_tokens: config.max_new_tokens,
            finished,
        }
    }

    /// Whether the run is over.
    pub fn is_finished(&self) -> (b: bool)
        ensures
            b == (self@.finished is Some),
    {
        self.finished.is_some()
    }

    /// Records the selected token and decides whether to continue.
    pub fn accept(&mut self, token_id: i64) -> (step: GenerationStep)
        requires
            old(self)@.finished is None,
        ensures
            final(self)@.generated == old(self)@.generated.push(token_id),
            final(self)@.eos == old(self)@.eos,
            final(self)@.max_new_tokens == old(self)@.max_new_tokens,
            step == (if is_eos_token(old(self)@.eos, token_id) {
                GenerationStep::Finished(FinishReason::EndOfSequence)
            } else if old(self)@.generated.len() + 1 == old(self)@.max_new_tokens {
                GenerationStep::Finished(FinishReason::Length)
            } else {
                GenerationStep::Continue
            }),
            final(self)@.finished == match step {
                GenerationStep::Finished(r) => Some(r),
                GenerationStep::Continue => None::<FinishReason>,
            },
    {
        proof {
            use_type_invariant(&*self);
        }
        let mut eos = false;
        let mut i: usize = 0;
        while i < self.eos_token_ids.len()
            invariant
                i <= self.eos_token_ids@.len(),
                !eos ==> forall|k: int| 0 <= k < i ==> self.eos_token_ids@[k] != token_id,
                eos ==> self.eos_token_ids@.contains(token_id),
            decreases self.eos_token_ids@.len() - i,
        {
            if self.eos_token_ids[i] == token_id {
                assert(self.eos_token_ids@[i as int] == token_id);
                eos = true;
            }
            i += 1;
        }
        let ghost before = self.generated@;
        let step = if eos {
            GenerationStep::Finished(FinishReason::EndOfSequence)
        } else if self.generated.len() + 1 == self.max_new_tokens {
            GenerationStep::Finished(FinishReason::Length)
        } else {
            GenerationStep::Continue
        };
        let finished = match step {
            GenerationStep::Finished(r) => Some(r),
            GenerationStep::Continue => None,
        };
        let mut generated = Vec::new();
        std::mem::swap(&mut generated, &mut self.generated);
        generated.push(token_id);
        proof {
            let after = generated@;
            assert(after.drop_last() =~= before);
            assert forall|k: int| 0 <= k < after.len() && !eos implies !is_eos_token(self.eos_token_ids@, #[trigger] after[k]) by {
                if k < before.len() {
                    assert(after[k] == before[k]);
                }
            }
        }
        *self = Generation {
            generated,
            eos_token_ids: self.eos_token_ids.clone(),
            max_new_tokens: self.max_new_tokens,
            finished,
        };
        step
    }

    /// The output of a finished run.
    pub fn into_output(self) -> (o: GenerationOutput)
        requires
            self@.finished is Some,
        ensures
            o@ == (self@.generated, self@.finished->0),
            forall|later: Seq<i64>|
                generated_tokens(#[trigger] (self@.generated + later), self@.eos, self@.max_new_tokens)
                    == self@.generated,
    {
        proof {
            use_type_invariant(&self);
            assert forall|later: Seq<i64>|
                generated_tokens(#[trigger] (self@.generated + later), self@.eos, self@.max_new_tokens)
                    == self@.generated by {
                lemma_finished_run_is_generated_tokens(self@, later);
            }
        }
        let reason = match self.finished {
            Some(r) => r,
            None => FinishReason::Length,
        };
        GenerationOutput::new(self.generated, reason)
    }
}

/// Extends the attention mask after a token was generated: the first step also
/// marks the whole prompt visible.
pub fn extend_attention_mask(mask: &mut AttentionMask, first_step: bool)
    ensures
        final(mask)@ == (if first_step {
            Seq::new(old(mask)@.len(), |i: int| 1i64)
        } else {
            old(mask)@
        }).push(1i64),
{
    if first_step {
        mask.fill_visible();
    }
    mask.push_visible();
}

/// The `[start, end)` range of the last sequence position's scores in a
/// `(batch, sequence, vocab)` logits buffer; only batch size 1 is supported.
pub fn final_position_range(batch_size: usize, sequence_length: usize, vocab_size: usize) -> (r: Result<(usize, usize), Error>)
    requires
        batch_size * sequence_length * vocab_size <= usize::MAX,
    ensures
        r is Ok <==> batch_size == 1 && sequence_length > 0 && vocab_size > 0,
        r matches Ok((start, end)) ==> start == (sequence_length - 1) * vocab_size
            && end == start + vocab_size && end == batch_size * sequence_length * vocab_size,
        r matches Err(e) ==> e matches Error::Inference { reason } && reason@ == (if batch_size != 1 {
            "only batch size 1 is supported, found "@ + decimal(batch_size as nat) + ""@
        } else if sequence_length == 0 {
            "logits sequence length must be greater than zero"@
        } else {
            "logits vocabulary size must be greater than zero"@
        }),
{
    if batch_size != 1 {
        return Err(Error::Inference { reason: with_number("only batch size 1 is supported, found ", batch_size as u64, "") });
    }
    if sequence_length == 0 {
        return Err(Error::Inference { reason: "logits sequence length must be greater than zero".to_owned() });
    }
    if vocab_size == 0 {
        return Err(Error::Inference { reason: "logits vocabulary size must be greater than zero".to_owned() });
    }
    assert((sequence_length - 1) * vocab_size + vocab_size == sequence_length * vocab_size) by (nonlinear_arith);
    let start = (sequence_length - 1) * vocab_size;
    Ok((start, start + vocab_size))
}

/// The token chosen by greedy decoding: the position of the highest score,
/// the last such position when several scores tie. Scores are given as keys
/// whose integer order is the order of the model's scores.
pub fn greedy_index(keys: &[i64]) -> (index: usize)
    requires
        keys@.len() > 0,
    ensures
        index < keys@.len(),
        forall|i: int| 0 <= i < keys@.len() ==> keys@[i] <= keys@[index as int],
        forall|i: int| index < i < keys@.len() ==> keys@[i] < keys@[index as int],
{
    let mut best: usize = 0;
    let mut i: usize = 1;
    while i < keys.len()
        invariant
            1 <= i <= keys@.len(),
            best < i,
            forall|k: int| 0 <= k < i ==> keys@[k] <= keys@[best as int],
            forall|k: int| best < k < i ==> keys@[k] < keys@[best as int],
        decreases keys@.len() - i,
    {
        if keys[i] >= keys[best] {
            best = i;
        }
        i += 1;
    }
    best
}

/// Converts a vocabulary position into a model token ID.
pub fn token_id_to_i64(token_id: usize) -> (r: Result<i64, Error>)
    ensures
        r is Ok <==> token_id <= i64::MAX,
        r matches Ok(t) ==> t == token_id,
        r matches Err(e) ==> e matches Error::Inference { reason }
            && reason@ == "selected token id "@ + decimal(token_id as nat) + " does not fit in i64"@,
{
    if token_id as u64 > i64::MAX as u64 {
        return Err(Error::Inference {
            reason: with_number("selected token id ", token_id as u64, " does not fit in i64"),
        });
    }
    Ok(token_id as i64)
}

proof fn lemma_generated_prefix(prefix: Seq<i64>, rest: Seq<i64>, eos: Seq<i64>, max: nat)
    requires
        free_of_eos(prefix, eos),
        prefix.len() <= max,
    ensures
        generated_tokens(prefix + rest, eos, max) == prefix + generated_tokens(rest, eos, (max - prefix.len()) as nat),
    decreases prefix.len(),
{
    if prefix.len() > 0 {
        let tail = prefix.drop_first();
        assert((prefix + rest).drop_first() =~= tail + rest);
        assert(!is_eos_token(eos, prefix[0]));
        assert forall|i: int| 0 <= i < tail.len() implies !is_eos_token(eos, #[trigger] tail[i]) by {
            assert(tail[i] == prefix[i + 1]);
        }
        lemma_generated_prefix(tail, rest, eos, (max - 1) as nat);
        assert(seq![prefix[0]] + (tail + generated_tokens(rest, eos, (max - prefix.len()) as nat)) =~= prefix
            + generated_tokens(rest, eos, (max - prefix.len()) as nat));
    } else {
        assert(prefix + rest =~= rest);
        assert(prefix + generated_tokens(rest, eos, max) =~= generated_tokens(rest, eos, max));
    }
}

/// A finished run produced exactly the tokens that generation keeps from the
/// stream of selected tokens: whatever the model would have selected next,
/// `generated_tokens` of a stream that starts with the run's tokens is the run.
pub proof fn lemma_finished_run_is_generated_tokens(v: GenerationView, later: Seq<i64>)
    requires
        generation_consistent(v),
        v.finished is Some,
    ensures
        generated_tokens(v.generated + later, v.eos, v.max_new_tokens) == v.generated,
{
    match v.finished {
        Some(FinishReason::Length) => {
            lemma_generated_prefix(v.generated, later, v.eos, v.max_new_tokens);
            assert(v.generated + Seq::<i64>::empty() =~= v.generated);
        },
        Some(FinishReason::EndOfSequence) => {
            let body = v.generated.drop_last();
            let last = v.generated.last();
            assert(v.generated + later =~= body + (seq![last] + later));
            lemma_generated_prefix(body, seq![last] + later, v.eos, v.max_new_tokens);
            assert((seq![last] + later)[0] == last);
            assert(body + seq![last] =~= v.generated);
        },
        None => {},
    }
}

} // verus!
