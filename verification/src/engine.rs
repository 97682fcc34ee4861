//! One inference request as a verified state machine. The engine owns the
//! per-request decoding state (position counter, iteration budget, raw
//! output) and makes every decision of the generate cycle: what the model
//! runtime should do next, which token greedy sampling selects, when
//! generation stops, and how each runtime failure maps into the error
//! taxonomy. The caller performs the runtime calls (context allocation,
//! tokenization, batched decode, token-to-bytes) and reports each outcome
//! back through exactly one event method.

use vstd::prelude::*;
use vstd::string::StringExecFns;

use crate::api::Message;
use crate::error::ServiceError;
use crate::prompt::{build_prompt_from_messages, prompt_of};
use crate::sampling::{argmax_idx, greedy_argmax, lemma_argmax_first_max};
use crate::thoughts::{split_matches, split_thoughts, ThoughtAnswerSplit};

verus! {

/// What `String::from_utf8_lossy` returns for a byte sequence: UTF-8
/// decoding in which invalid sequences are replaced, never an error.
/// A pure function of the bytes alone.
pub uninterp spec fn lossy_utf8(bytes: Seq<u8>) -> Seq<char>;

/// Relies on std's `String::from_utf8_lossy`: decodes the bytes as UTF-8,
/// replacing invalid sequences with U+FFFD; the result depends on the
/// bytes alone.
#[verifier::external_body]
fn bytes_to_string_lossy(bytes: &[u8]) -> (r: String)
    ensures
        r@ == lossy_utf8(bytes@),
{
    String::from_utf8_lossy(bytes).into_owned()
}

/// Where one request stands in its generate cycle.
#[derive(Clone, Copy, PartialEq, Eq, Structural, Debug)]
pub enum Phase {
    /// Waiting for the runtime to allocate the decoding context.
    AwaitContext,
    /// Waiting for the prompt to be tokenized.
    AwaitTokens,
    /// Waiting for the batched prefill decode of all prompt tokens.
    AwaitPrefill,
    /// Waiting for the logits of the last decoded position.
    AwaitLogits,
    /// Waiting for the selected token's textual bytes.
    AwaitBytes,
    /// Waiting for the decode of the token just fed back.
    AwaitFeed,
    /// Generation completed cleanly.
    Finished,
    /// The request failed; no result will be produced.
    Failed,
}

/// The next call the caller must make against the model runtime, or the
/// terminal outcome of the request.
pub enum GenCommand {
    /// Allocate a fresh decoding context of `context_size` tokens with the
    /// given micro-batch capacity.
    CreateContext { context_size: u32, batch_capacity: u32 },
    /// Tokenize this prompt without an implicit beginning-of-sequence
    /// token, then report the token count.
    TokenizePrompt(String),
    /// Feed all prompt tokens in one batched decode call, requesting
    /// logits only for the last token.
    PrefillDecode,
    /// Read the logits of the last decoded position and report them as
    /// order-preserving integer keys.
    ReadLogits,
    /// Convert this token to its textual byte representation.
    ConvertToken(i32),
    /// Feed `token` back into the context at position `pos`, requesting
    /// its logits, and decode.
    FeedAndDecode { token: i32, pos: usize },
    /// Generation is complete: the split of the raw output into an
    /// optional thought segment and the final answer.
    Finish(ThoughtAnswerSplit),
    /// The request failed terminally with this error.
    Abort(ServiceError),
}

/// The decoding state of one request. Exclusively owned by that request;
/// never shared, never reused.
pub struct InferenceEngine {
    /// Protocol position; decides which event method may be called next.
    pub phase: Phase,
    /// The rendered prompt for this request.
    pub prompt: String,
    /// The model's end-of-sequence token id.
    pub eos_token: i32,
    /// Upper bound on generation-loop iterations.
    pub max_new_tokens: u32,
    /// Generation-loop iterations begun so far.
    pub produced: u32,
    /// Number of prompt tokens, fixed at tokenization.
    pub prompt_len: usize,
    /// Position at which the next generated token is fed back.
    pub next_pos: usize,
    /// Token selected this iteration, awaiting its bytes.
    pub pending_token: i32,
    /// Accumulated raw output text for this request.
    pub output: String,
    /// Context window size, in tokens.
    pub context_size: u32,
    /// Micro-batch capacity of the context.
    pub batch_capacity: u32,
}

/// The per-request configuration never changes after construction.
pub open spec fn config_unchanged(a: InferenceEngine, b: InferenceEngine) -> bool {
    &&& a.prompt == b.prompt
    &&& a.eos_token == b.eos_token
    &&& a.max_new_tokens == b.max_new_tokens
    &&& a.context_size == b.context_size
    &&& a.batch_capacity == b.batch_capacity
}

impl InferenceEngine {
    /// Well-formedness: the budget bounds the iteration count, positions
    /// cannot overflow, and the position counter agrees with how far the
    /// current iteration has come.
    pub open spec fn wf(&self) -> bool {
        &&& self.produced <= self.max_new_tokens
        &&& self.prompt_len as int + self.max_new_tokens as int <= usize::MAX as int
        &&& ((self.phase is AwaitContext || self.phase is AwaitTokens
            || self.phase is AwaitPrefill) ==> (self.produced == 0 && self.output@
            == Seq::<char>::empty()))
        &&& (self.phase is AwaitPrefill ==> self.next_pos == self.prompt_len)
        &&& (self.phase is AwaitLogits ==> (self.produced < self.max_new_tokens && self.next_pos
            as int == self.prompt_len as int + self.produced as int))
        &&& (self.phase is AwaitBytes ==> (self.produced >= 1 && self.next_pos as int
            == self.prompt_len as int + self.produced as int - 1))
        &&& (self.phase is AwaitFeed ==> self.next_pos as int == self.prompt_len as int
            + self.produced as int)
    }

    /// Starts one request: renders the history into the prompt and asks
    /// the caller to allocate a fresh decoding context.
    pub fn new(
        messages: &[Message],
        eos_token: i32,
        context_size: u32,
        batch_capacity: u32,
        max_new_tokens: u32,
    ) -> (r: (InferenceEngine, GenCommand))
        ensures
            r.0.wf(),
            r.0.phase is AwaitContext,
            r.0.prompt@ == prompt_of(messages@),
            r.0.eos_token == eos_token,
            r.0.max_new_tokens == max_new_tokens,
            r.0.context_size == context_size,
            r.0.batch_capacity == batch_capacity,
            r.0.produced == 0,
            r.0.output@ == Seq::<char>::empty(),
            r.1 matches GenCommand::CreateContext { context_size: cs, batch_capacity: bc }
                && cs == context_size && bc == batch_capacity,
    {
        let engine = InferenceEngine {
            phase: Phase::AwaitContext,
            prompt: build_prompt_from_messages(messages),
            eos_token,
            max_new_tokens,
            produced: 0,
            prompt_len: 0,
            next_pos: 0,
            pending_token: 0,
            output: String::new(),
            context_size,
            batch_capacity,
        };
        let cmd = GenCommand::CreateContext { context_size, batch_capacity };
        (engine, cmd)
    }

    /// The context was allocated: have the prompt tokenized next.
    pub fn on_context_created(&mut self) -> (c: GenCommand)
        requires
            old(self).wf(),
            old(self).phase is AwaitContext,
        ensures
            final(self).wf(),
            final(self).phase is AwaitTokens,
            config_unchanged(*old(self), *final(self)),
            final(self).produced == old(self).produced,
            final(self).output == old(self).output,
            c matches GenCommand::TokenizePrompt(p) && p@ == final(self).prompt@,
    {
        self.phase = Phase::AwaitTokens;
        GenCommand::TokenizePrompt(self.prompt.clone())
    }

    /// The context could not be allocated: the request fails.
    pub fn on_context_failed(&mut self, msg: String) -> (c: GenCommand)
        requires
            old(self).phase is AwaitContext,
        ensures
            final(self).phase is Failed,
            c matches GenCommand::Abort(e) && e == ServiceError::LlamaContext(msg),
    {
        self.phase = Phase::Failed;
        GenCommand::Abort(ServiceError::LlamaContext(msg))
    }

    /// The prompt was tokenized into `n_tokens` tokens: have them all fed
    /// in one batched prefill decode. The bound on `n_tokens` only keeps
    /// later positions within `usize`.
    pub fn on_tokens(&mut self, n_tokens: usize) -> (c: GenCommand)
        requires
            old(self).wf(),
            old(self).phase is AwaitTokens,
            n_tokens as int + old(self).max_new_tokens as int <= usize::MAX as int,
        ensures
            final(self).wf(),
            final(self).phase is AwaitPrefill,
            config_unchanged(*old(self), *final(self)),
            final(self).prompt_len == n_tokens,
            final(self).next_pos == n_tokens,
            final(self).produced == 0,
            final(self).output == old(self).output,
            c is PrefillDecode,
    {
        self.prompt_len = n_tokens;
        self.next_pos = n_tokens;
        self.phase = Phase::AwaitPrefill;
        GenCommand::PrefillDecode
    }

    /// The prompt could not be tokenized: the request fails.
    pub fn on_tokenize_failed(&mut self, msg: String) -> (c: GenCommand)
        requires
            old(self).phase is AwaitTokens,
        ensures
            final(self).phase is Failed,
            c matches GenCommand::Abort(e) && e == ServiceError::LlamaTokenize(msg),
    {
        self.phase = Phase::Failed;
        GenCommand::Abort(ServiceError::LlamaTokenize(msg))
    }

    /// The prefill decode succeeded: begin the generation loop, or finish
    /// at once when the budget is zero.
    pub fn on_prefill_ok(&mut self) -> (c: GenCommand)
        requires
            old(self).wf(),
            old(self).phase is AwaitPrefill,
        ensures
            final(self).wf(),
            config_unchanged(*old(self), *final(self)),
            final(self).produced == old(self).produced,
            final(self).output == old(self).output,
            old(self).max_new_tokens == 0 ==> (final(self).phase is Finished && (c matches
                GenCommand::Finish(sp) && split_matches(old(self).output@, sp))),
            old(self).max_new_tokens > 0 ==> (final(self).phase is AwaitLogits && c is ReadLogits),
    {
        if self.max_new_tokens == 0 {
            self.phase = Phase::Finished;
            GenCommand::Finish(split_thoughts(self.output.as_str()))
        } else {
            self.phase = Phase::AwaitLogits;
            GenCommand::ReadLogits
        }
    }

    /// The prefill decode failed: the request fails with a decode error
    /// and never yields a partial result.
    pub fn on_prefill_failed(&mut self, msg: String) -> (c: GenCommand)
        requires
            old(self).phase is AwaitPrefill,
        ensures
            final(self).phase is Failed,
            c matches GenCommand::Abort(e) && e == ServiceError::LlamaDecode(msg),
    {
        self.phase = Phase::Failed;
        GenCommand::Abort(ServiceError::LlamaDecode(msg))
    }

    /// Logits arrived for the last decoded position, as order-preserving
    /// integer keys, one per vocabulary entry. One generation iteration
    /// begins: greedy selection picks the first occurrence of the maximum
    /// key; the end-of-sequence token finishes generation cleanly, any
    /// other token is sent off for byte conversion. Empty logits cannot
    /// come from a real vocabulary and fail the request.
    pub fn on_logits(&mut self, keys: &[i64]) -> (c: GenCommand)
        requires
            old(self).wf(),
            old(self).phase is AwaitLogits,
            keys@.len() <= i32::MAX,
        ensures
            final(self).wf(),
            config_unchanged(*old(self), *final(self)),
            keys@.len() == 0 ==> (final(self).phase is Failed && (c matches GenCommand::Abort(e)
                && e is InternalError)),
            keys@.len() > 0 ==> {
                &&& final(self).produced == old(self).produced + 1
                &&& final(self).output == old(self).output
                &&& final(self).next_pos == old(self).next_pos
                &&& final(self).prompt_len == old(self).prompt_len
                &&& (argmax_idx(keys@) == old(self).eos_token as int ==> (final(self).phase is Finished
                    && (c matches GenCommand::Finish(sp) && split_matches(
                    old(self).output@,
                    sp,
                ))))
                &&& (argmax_idx(keys@) != old(self).eos_token as int ==> (final(self).phase is AwaitBytes
                    && final(self).pending_token as int == argmax_idx(keys@) && (c matches
                GenCommand::ConvertToken(t) && t as int == argmax_idx(keys@))))
            },
    {
        match greedy_argmax(keys) {
            None => {
                self.phase = Phase::Failed;
                GenCommand::Abort(ServiceError::InternalError)
            },
            Some(i) => {
                proof {
                    lemma_argmax_first_max(keys@);
                }
                let token = i as i32;
                self.produced = self.produced + 1;
                if token == self.eos_token {
                    self.phase = Phase::Finished;
                    GenCommand::Finish(split_thoughts(self.output.as_str()))
                } else {
                    self.pending_token = token;
                    self.phase = Phase::AwaitBytes;
                    GenCommand::ConvertToken(token)
                }
            },
        }
    }

    /// The selected token's bytes arrived: append their lossy UTF-8
    /// decoding to the raw output and have the token fed back at the next
    /// sequential position.
    pub fn on_token_bytes(&mut self, bytes: &[u8]) -> (c: GenCommand)
        requires
            old(self).wf(),
            old(self).phase is AwaitBytes,
        ensures
            final(self).wf(),
            final(self).phase is AwaitFeed,
            config_unchanged(*old(self), *final(self)),
            final(self).produced == old(self).produced,
            final(self).output@ == old(self).output@ + lossy_utf8(bytes@),
            final(self).next_pos == old(self).next_pos + 1,
            c matches GenCommand::FeedAndDecode { token, pos } && token == old(self).pending_token && pos == old(self).next_pos,
    {
        let text = bytes_to_string_lossy(bytes);
        self.output.append(text.as_str());
        let pos = self.next_pos;
        self.next_pos = self.next_pos + 1;
        self.phase = Phase::AwaitFeed;
        GenCommand::FeedAndDecode { token: self.pending_token, pos }
    }

    /// The selected token could not be converted to bytes: the request
    /// fails.
    pub fn on_token_bytes_failed(&mut self, msg: String) -> (c: GenCommand)
        requires
            old(self).phase is AwaitBytes,
        ensures
            final(self).phase is Failed,
            c matches GenCommand::Abort(e) && e == ServiceError::LlamaTokenProcess(msg),
    {
        self.phase = Phase::Failed;
        GenCommand::Abort(ServiceError::LlamaTokenProcess(msg))
    }

    /// The fed-back token decoded successfully. With budget remaining the
    /// loop continues at the next position; once exactly `max_new_tokens`
    /// iterations have run, generation stops and the truncated output is
    /// still returned as a success.
    pub fn on_decode_ok(&mut self) -> (c: GenCommand)
        requires
            old(self).wf(),
            old(self).phase is AwaitFeed,
        ensures
            final(self).wf(),
            config_unchanged(*old(self), *final(self)),
            final(self).produced == old(self).produced,
            final(self).output == old(self).output,
            old(self).produced == old(self).max_new_tokens ==> (final(self).phase is Finished && (c
                matches GenCommand::Finish(sp) && split_matches(old(self).output@, sp))),
            old(self).produced < old(self).max_new_tokens ==> (final(self).phase is AwaitLogits
                && c is ReadLogits),
    {
        if self.produced == self.max_new_tokens {
            self.phase = Phase::Finished;
            GenCommand::Finish(split_thoughts(self.output.as_str()))
        } else {
            self.phase = Phase::AwaitLogits;
            GenCommand::ReadLogits
        }
    }

    /// An incremental decode failed: the request fails with a decode
    /// error, discarding the partial output.
    pub fn on_decode_failed(&mut self, msg: String) -> (c: GenCommand)
        requires
            old(self).phase is AwaitFeed,
        ensures
            final(self).phase is Failed,
            c matches GenCommand::Abort(e) && e == ServiceError::LlamaDecode(msg),
    {
        self.phase = Phase::Failed;
        GenCommand::Abort(ServiceError::LlamaDecode(msg))
    }
}

/// The token budget always bounds generation: no well-formed engine state
/// has run more iterations than `max_new_tokens`, and logits are only
/// ever requested while budget remains.
pub proof fn lemma_budget_bound(e: InferenceEngine)
    requires
        e.wf(),
    ensures
        e.produced <= e.max_new_tokens,
        e.phase is AwaitLogits ==> e.produced < e.max_new_tokens,
{
}

} // verus!
