use vstd::prelude::*;

use crate::error::EngineError;
use crate::sizing::{spec_kv_cache_size, kv_cache_size, MAX_BATCH_WIDTH};
use crate::state::{ModelState, StateView, initial_state};

verus! {

/// One token submitted to the runtime: its id, the position it occupies
/// in the KV cache, and whether the runtime must produce output logits
/// for it.
#[derive(Debug, Clone, Copy, PartialEq, Eq, Structural)]
pub struct BatchItem {
    /// Token id.
    pub token: i32,
    /// Position in the KV cache.
    pub pos: u64,
    /// Whether output logits are requested for this position.
    pub wants_logits: bool,
}

/// Why a generation run stopped.
#[derive(Debug, Clone, Copy, PartialEq, Eq, Structural)]
pub enum FinishReason {
    /// The runtime offered no candidate distribution: a natural end, not
    /// an error.
    NoCandidates,
    /// The sampled token was the architecture's end-of-generation marker.
    EndMarker,
    /// The requested token budget was exhausted.
    MaxTokens,
}

/// Where a generation run currently stands.
#[derive(Debug, Clone, Copy, PartialEq, Eq, Structural)]
pub enum GenStatus {
    /// Prompt tokens are still being fed to the runtime.
    Prefilling,
    /// The decode loop is producing tokens.
    Decoding,
    /// The run is over.
    Finished(FinishReason),
}

/// What the embedding program observed at one decode step.
#[derive(Debug, Clone, Copy, PartialEq, Eq, Structural)]
pub enum DecodeEvent {
    /// No candidate token distribution was available.
    NoCandidates,
    /// The greedy sampler picked `token`; `end_marker` says whether the
    /// model declares it an end-of-generation marker.
    Sampled { token: i32, end_marker: bool },
}

/// Mathematical image of a [`Generation`].
pub ghost struct GenView {
    pub prompt: Seq<i32>,
    pub context_size: u32,
    pub max_tokens: u32,
    pub batch_width: int,
    pub cursor: int,
    pub produced: Seq<i32>,
    pub status: GenStatus,
}

/// A generation run is well formed: the batch width is positive, the
/// prompt fits the context, no more than `max_tokens` tokens have been
/// produced, and the position cursor tracks exactly how many tokens have
/// been submitted to the runtime.
pub open spec fn gen_wf(v: GenView) -> bool {
    &&& v.batch_width >= 1
    &&& v.prompt.len() <= v.context_size
    &&& v.produced.len() <= v.max_tokens
    &&& 0 <= v.cursor
    &&& match v.status {
        GenStatus::Prefilling => v.cursor < v.prompt.len() && v.produced.len() == 0,
        GenStatus::Decoding => v.cursor == v.prompt.len() + v.produced.len()
            && v.produced.len() < v.max_tokens,
        GenStatus::Finished(_) => v.cursor <= v.prompt.len() + v.produced.len(),
    }
}

/// The full prefill schedule for a prompt: token `i` goes to position
/// `i`, and only the final prompt token asks for output logits.
pub open spec fn prefill_items(prompt: Seq<i32>) -> Seq<BatchItem> {
    Seq::new(
        prompt.len(),
        |i: int|
            BatchItem {
                token: prompt[i],
                pos: i as u64,
                wants_logits: i == prompt.len() - 1,
            },
    )
}

/// Batch widths are normalized to at least one token per chunk.
pub open spec fn normalize_width(w: int) -> int {
    if w < 1 {
        1
    } else {
        w
    }
}

/// The state a generation run starts in, once the prompt is known to fit
/// the context.
pub open spec fn init_view(prompt: Seq<i32>, context_size: u32, max_tokens: u32, width: int) -> GenView {
    GenView {
        prompt,
        context_size,
        max_tokens,
        batch_width: normalize_width(width),
        cursor: 0,
        produced: Seq::empty(),
        status: if prompt.len() == 0 {
            if max_tokens == 0 {
                GenStatus::Finished(FinishReason::MaxTokens)
            } else {
                GenStatus::Decoding
            }
        } else {
            GenStatus::Prefilling
        },
    }
}

/// Length of the next prefill chunk: up to one batch width, bounded by
/// what is left of the prompt.
pub open spec fn chunk_len(v: GenView) -> int {
    if v.prompt.len() - v.cursor < v.batch_width {
        v.prompt.len() - v.cursor
    } else {
        v.batch_width
    }
}

/// The items of the next prefill chunk.
pub open spec fn chunk_items(v: GenView) -> Seq<BatchItem> {
    prefill_items(v.prompt).subrange(v.cursor, v.cursor + chunk_len(v))
}

/// The state after one prefill chunk has been submitted: the cursor
/// advances by the chunk length, and once the whole prompt is in, the
/// run moves to the decode loop (or straight to the end when no output
/// tokens were requested).
pub open spec fn after_chunk(v: GenView) -> GenView {
    GenView {
        cursor: v.cursor + chunk_len(v),
        status: if v.cursor + chunk_len(v) == v.prompt.len() {
            if v.max_tokens == 0 {
                GenStatus::Finished(FinishReason::MaxTokens)
            } else {
                GenStatus::Decoding
            }
        } else {
            GenStatus::Prefilling
        },
        ..v
    }
}

/// The state after one decode step observed `e`.
pub open spec fn step_decode(v: GenView, e: DecodeEvent) -> GenView {
    match e {
        DecodeEvent::NoCandidates => GenView {
            status: GenStatus::Finished(FinishReason::NoCandidates),
            ..v
        },
        DecodeEvent::Sampled { token, end_marker } => if end_marker {
            GenView { status: GenStatus::Finished(FinishReason::EndMarker), ..v }
        } else {
            GenView {
                produced: v.produced.push(token),
                cursor: v.cursor + 1,
                status: if v.produced.len() + 1 == v.max_tokens {
                    GenStatus::Finished(FinishReason::MaxTokens)
                } else {
                    GenStatus::Decoding
                },
                ..v
            }
        },
    }
}

/// One generation request: the autoregressive protocol that turns a
/// tokenized prompt into a bounded sequence of output tokens.  The
/// embedding program performs each submitted batch on the runtime and
/// reports every decode observation back; the machine makes every
/// decision.  Sampling is strictly greedy: the program hands over the
/// candidate with the numerically highest logit, and a temperature,
/// where the host interface accepts one, is deliberately not applied.
pub struct Generation {
    prompt: Vec<i32>,
    context_size: u32,
    max_tokens: u32,
    batch_width: usize,
    cursor: u64,
    produced: Vec<i32>,
    status: GenStatus,
}

impl View for Generation {
    type V = GenView;

    closed spec fn view(&self) -> GenView {
        GenView {
            prompt: self.prompt@,
            context_size: self.context_size,
            max_tokens: self.max_tokens,
            batch_width: self.batch_width as int,
            cursor: self.cursor as int,
            produced: self.produced@,
            status: self.status,
        }
    }
}

impl Generation {
    /// Starts a generation run.  Rejects, without touching any state, a
    /// prompt whose token count exceeds the context size.
    pub fn new(prompt: Vec<i32>, context_size: u32, max_tokens: u32, batch_width: usize) -> (r:
        Result<Generation, EngineError>)
        ensures
            prompt@.len() > context_size ==> (r matches Err(EngineError::PromptTooLong {
                token_count,
                limit,
            }) && token_count == prompt@.len() && limit == context_size),
            prompt@.len() <= context_size ==> (r matches Ok(g) && g@ == init_view(
                prompt@,
                context_size,
                max_tokens,
                batch_width as int,
            ) && gen_wf(g@)),
    {
        if prompt.len() as u64 > context_size as u64 {
            return Err(
                EngineError::PromptTooLong { token_count: prompt.len(), limit: context_size },
            );
        }
        let width: usize = if batch_width == 0 {
            1
        } else {
            batch_width
        };
        let status = if prompt.len() == 0 {
            if max_tokens == 0 {
                GenStatus::Finished(FinishReason::MaxTokens)
            } else {
                GenStatus::Decoding
            }
        } else {
            GenStatus::Prefilling
        };
        Ok(
            Generation {
                prompt,
                context_size,
                max_tokens,
                batch_width: width,
                cursor: 0,
                produced: Vec::new(),
                status,
            },
        )
    }

    /// Whether prompt tokens are still waiting to be submitted.
    pub fn is_prefilling(&self) -> (r: bool)
        ensures
            r == (self@.status is Prefilling),
    {
        match self.status {
            GenStatus::Prefilling => true,
            _ => false,
        }
    }

    /// Whether the decode loop is waiting for the next sampled token.
    pub fn wants_token(&self) -> (r: bool)
        ensures
            r == (self@.status is Decoding),
    {
        match self.status {
            GenStatus::Decoding => true,
            _ => false,
        }
    }

    /// Whether the run is over.
    pub fn is_finished(&self) -> (r: bool)
        ensures
            r == (self@.status is Finished),
    {
        match self.status {
            GenStatus::Finished(_) => true,
            _ => false,
        }
    }

    /// Why the run stopped, once it has.
    pub fn finish_reason(&self) -> (r: Option<FinishReason>)
        ensures
            match self@.status {
                GenStatus::Finished(reason) => r == Some(reason),
                _ => r is None,
            },
    {
        match self.status {
            GenStatus::Finished(reason) => Some(reason),
            _ => None,
        }
    }

    /// How many output tokens have been produced so far.
    pub fn produced_count(&self) -> (r: usize)
        ensures
            r == self@.produced.len(),
    {
        self.produced.len()
    }

    /// The next chunk of prompt tokens to submit: up to one batch width,
    /// positions continuing exactly where the previous chunk stopped,
    /// output logits requested only for the final token of the whole
    /// prompt.
    pub fn next_prefill_chunk(&mut self) -> (r: Vec<BatchItem>)
        requires
            gen_wf(old(self)@),
            old(self)@.status is Prefilling,
        ensures
            gen_wf(final(self)@),
            final(self)@ == after_chunk(old(self)@),
            r@ == chunk_items(old(self)@),
    {
        let cursor: usize = self.cursor as usize;
        let remaining: usize = self.prompt.len() - cursor;
        let n: usize = if remaining < self.batch_width {
            remaining
        } else {
            self.batch_width
        };
        let mut items: Vec<BatchItem> = Vec::new();
        let mut i: usize = 0;
        while i < n
            invariant
                *self == *old(self),
                gen_wf(self@),
                self@.status is Prefilling,
                cursor == self@.cursor,
                cursor + n <= self.prompt.len(),
                n == chunk_len(self@),
                i <= n,
                items@.len() == i,
                forall|k: int|
                    0 <= k < i ==> items@[k] == prefill_items(self@.prompt)[cursor + k],
            decreases n - i,
        {
            let idx: usize = cursor + i;
            let is_last: bool = idx == self.prompt.len() - 1;
            items.push(BatchItem { token: self.prompt[idx], pos: idx as u64, wants_logits: is_last });
            i += 1;
        }
        proof {
            assert(items@ =~= chunk_items(self@));
        }
        self.cursor = self.cursor + n as u64;
        if self.cursor as usize == self.prompt.len() {
            if self.max_tokens == 0 {
                self.status = GenStatus::Finished(FinishReason::MaxTokens);
            } else {
                self.status = GenStatus::Decoding;
            }
        }
        items
    }

    /// Records that no candidate distribution was available: the run ends
    /// as a natural stop, with the tokens produced so far kept.
    pub fn note_no_candidates(&mut self)
        requires
            gen_wf(old(self)@),
            old(self)@.status is Decoding,
        ensures
            gen_wf(final(self)@),
            final(self)@ == step_decode(old(self)@, DecodeEvent::NoCandidates),
    {
        self.status = GenStatus::Finished(FinishReason::NoCandidates);
    }

    /// Feeds the token the greedy sampler picked.  An end-of-generation
    /// marker stops the run and is not kept; any other token is appended
    /// to the output buffer and handed back as the next single-token
    /// decode batch at the current cursor position.
    pub fn accept_token(&mut self, token: i32, end_marker: bool) -> (r: Option<BatchItem>)
        requires
            gen_wf(old(self)@),
            old(self)@.status is Decoding,
        ensures
            gen_wf(final(self)@),
            final(self)@ == step_decode(
                old(self)@,
                DecodeEvent::Sampled { token, end_marker },
            ),
            end_marker ==> r is None,
            !end_marker ==> r == Some(
                BatchItem { token, pos: old(self)@.cursor as u64, wants_logits: true },
            ),
    {
        if end_marker {
            self.status = GenStatus::Finished(FinishReason::EndMarker);
            return None;
        }
        let pos: u64 = self.cursor;
        self.produced.push(token);
        self.cursor = self.cursor + 1;
        if self.produced.len() as u64 == self.max_tokens as u64 {
            self.status = GenStatus::Finished(FinishReason::MaxTokens);
        }
        Some(BatchItem { token, pos, wants_logits: true })
    }

    /// Hands out the accumulated output tokens.
    pub fn into_tokens(self) -> (r: Vec<i32>)
        ensures
            r@ == self@.produced,
    {
        self.produced
    }
}

/// A fresh run is well formed whenever the prompt fits the context.
pub proof fn lemma_init_wf(prompt: Seq<i32>, context_size: u32, max_tokens: u32, width: int)
    requires
        prompt.len() <= context_size,
    ensures
        gen_wf(init_view(prompt, context_size, max_tokens, width)),
{
}

/// Submitting one prefill chunk keeps the run well formed.
pub proof fn lemma_after_chunk_wf(v: GenView)
    requires
        gen_wf(v),
        v.status is Prefilling,
    ensures
        gen_wf(after_chunk(v)),
{
}

/// The whole prefill phase, run to completion: the final state, and the
/// concatenation of every submitted chunk.
pub open spec fn run_prefill(v: GenView) -> (GenView, Seq<BatchItem>)
    decreases v.prompt.len() - v.cursor,
{
    if !(v.status is Prefilling) || !gen_wf(v) {
        (v, Seq::empty())
    } else {
        let r = run_prefill(after_chunk(v));
        (r.0, chunk_items(v) + r.1)
    }
}

/// Prefill submits every remaining prompt token exactly once, in order,
/// at consecutive positions — whatever the batch width.  The emitted
/// items are a function of the prompt alone: the width only chooses
/// where the chunk boundaries fall.
pub proof fn lemma_run_prefill(v: GenView)
    requires
        gen_wf(v),
    ensures
        ({
            let r = run_prefill(v);
            &&& gen_wf(r.0)
            &&& r.0.prompt == v.prompt
            &&& r.0.context_size == v.context_size
            &&& r.0.max_tokens == v.max_tokens
            &&& r.0.batch_width == v.batch_width
            &&& r.0.produced == v.produced
            &&& !(r.0.status is Prefilling)
            &&& (v.status is Prefilling ==> {
                &&& r.1 == prefill_items(v.prompt).subrange(v.cursor, v.prompt.len() as int)
                &&& r.0.cursor == v.prompt.len()
                &&& r.0.status == (if v.max_tokens == 0 {
                    GenStatus::Finished(FinishReason::MaxTokens)
                } else {
                    GenStatus::Decoding
                })
            })
            &&& (!(v.status is Prefilling) ==> r == (v, Seq::<BatchItem>::empty()))
        }),
    decreases v.prompt.len() - v.cursor,
{
    if v.status is Prefilling {
        lemma_after_chunk_wf(v);
        lemma_run_prefill(after_chunk(v));
        let w = after_chunk(v);
        let r = run_prefill(v);
        let s = prefill_items(v.prompt);
        let c = v.cursor;
        let n = chunk_len(v);
        let l = v.prompt.len() as int;
        assert(r.1 == chunk_items(v) + run_prefill(w).1);
        if w.status is Prefilling {
            assert(run_prefill(w).1 == s.subrange(c + n, l));
            assert forall|k: int| 0 <= k < l - c implies #[trigger] (chunk_items(v) + s.subrange(
                c + n,
                l,
            ))[k] == s[c + k] by {
                if k < n {
                    assert(chunk_items(v)[k] == s[c + k]);
                } else {
                    assert(s.subrange(c + n, l)[k - n] == s[c + k]);
                }
            }
            assert(s.subrange(c, l) =~= chunk_items(v) + s.subrange(c + n, l));
        } else {
            assert(w.cursor == l);
            assert(run_prefill(w).1 == Seq::<BatchItem>::empty());
            assert(r.1 =~= chunk_items(v));
            assert(chunk_items(v) == s.subrange(c, c + n));
            assert(c + n == l);
        }
    }
}

/// Two runs agree on everything the decode loop can observe; only the
/// batch width, a performance knob, may differ.
pub open spec fn similar(a: GenView, b: GenView) -> bool {
    &&& a.prompt == b.prompt
    &&& a.context_size == b.context_size
    &&& a.max_tokens == b.max_tokens
    &&& a.cursor == b.cursor
    &&& a.produced == b.produced
    &&& a.status == b.status
}

/// The decode loop, run over a sequence of observations until the run
/// stops or the observations run out.
pub open spec fn run_decode(v: GenView, events: Seq<DecodeEvent>) -> GenView
    decreases events.len(),
{
    if events.len() == 0 || !(v.status is Decoding) {
        v
    } else {
        run_decode(step_decode(v, events.first()), events.drop_first())
    }
}

/// The decode loop never reads the batch width: runs that agree on
/// everything else stay in agreement under the same observations.
pub proof fn lemma_run_decode_similar(a: GenView, b: GenView, events: Seq<DecodeEvent>)
    requires
        similar(a, b),
    ensures
        similar(run_decode(a, events), run_decode(b, events)),
    decreases events.len(),
{
    if events.len() == 0 || !(a.status is Decoding) {
    } else {
        assert(similar(step_decode(a, events.first()), step_decode(b, events.first())));
        lemma_run_decode_similar(
            step_decode(a, events.first()),
            step_decode(b, events.first()),
            events.drop_first(),
        );
    }
}

/// Chunked and single-batch prefill are interchangeable: for any prompt
/// that fits the context, two runs that differ only in batch width feed
/// the model the same items, and under the same decode observations they
/// produce the same output token sequence.  Generation output does not
/// depend on the batch-width constant.
pub proof fn lemma_output_independent_of_batch_width(
    prompt: Seq<i32>,
    context_size: u32,
    max_tokens: u32,
    w1: int,
    w2: int,
    events: Seq<DecodeEvent>,
)
    requires
        prompt.len() <= context_size,
    ensures
        ({
            let a = init_view(prompt, context_size, max_tokens, w1);
            let b = init_view(prompt, context_size, max_tokens, w2);
            &&& run_prefill(a).1 == run_prefill(b).1
            &&& run_decode(run_prefill(a).0, events).produced == run_decode(
                run_prefill(b).0,
                events,
            ).produced
        }),
{
    let a = init_view(prompt, context_size, max_tokens, w1);
    let b = init_view(prompt, context_size, max_tokens, w2);
    lemma_init_wf(prompt, context_size, max_tokens, w1);
    lemma_init_wf(prompt, context_size, max_tokens, w2);
    lemma_run_prefill(a);
    lemma_run_prefill(b);
    assert(similar(run_prefill(a).0, run_prefill(b).0));
    lemma_run_decode_similar(run_prefill(a).0, run_prefill(b).0, events);
}

/// What one generation request needs from the execution context: the KV
/// cache budget and the batch width.
pub struct ContextPlan {
    /// KV cache budget in tokens.
    pub kv_cache_size: u64,
    /// Largest number of tokens per decode call.
    pub batch_width: usize,
}

/// The plan a state yields for a generation request: refused when no
/// model is resident, and otherwise sized so the cache holds the prompt
/// budget plus every requested token, never below the floor.
pub open spec fn spec_plan(v: StateView, max_tokens: u32) -> Result<(int, int), EngineError> {
    if v.model is None {
        Err(EngineError::ModelNotLoaded)
    } else {
        Ok((spec_kv_cache_size(v.context_size, max_tokens), MAX_BATCH_WIDTH as int))
    }
}

/// Sizes the execution context for one generation request.
pub fn plan_generation(state: &ModelState, max_tokens: u32) -> (r: Result<ContextPlan, EngineError>)
    ensures
        match spec_plan(state@, max_tokens) {
            Ok(p) => r matches Ok(plan) && plan.kv_cache_size == p.0 && plan.batch_width == p.1,
            Err(e) => r == Err::<ContextPlan, EngineError>(e),
        },
{
    if !state.is_loaded() {
        return Err(EngineError::ModelNotLoaded);
    }
    Ok(
        ContextPlan {
            kv_cache_size: kv_cache_size(state.context_size(), max_tokens),
            batch_width: MAX_BATCH_WIDTH,
        },
    )
}

/// A generation request against a fresh engine state is refused: before
/// any load, planning reports that no model is resident.
pub proof fn lemma_generate_before_any_load(max_tokens: u32)
    ensures
        spec_plan(initial_state(), max_tokens) == Err::<(int, int), EngineError>(
            EngineError::ModelNotLoaded,
        ),
{
}

} // verus!
