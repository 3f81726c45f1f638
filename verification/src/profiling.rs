//! Inference profiling: per-stage timings, counters and the figures of the
//! profiling report.
//!
//! Timing, the environment switch and printing happen outside the library;
//! durations arrive here as whole nanoseconds.

use vstd::prelude::*;

use crate::model::contract::text_eq;
use crate::util::text::chars_of;

verus! {

/// Number of timed stages.
pub const STAGE_COUNT: usize = 31;

/// Largest duration, in nanoseconds, that a `std::time::Duration` holds.
pub const MAX_DURATION_NANOS: u128 = 18446744073709551615999999999u128;

/// Timed inference stage.
#[derive(Debug, Clone, Copy, PartialEq, Eq)]
pub enum Stage {
    /// Stage reported as `total inference`.
    PipelineTotal,
    /// Stage reported as `input preparation`.
    PrepareInputs,
    /// Stage reported as `processor total`.
    ProcessorTotal,
    /// Stage reported as `image preprocessing`.
    ImagePreprocessing,
    /// Stage reported as `text processing`.
    TextProcessing,
    /// Stage reported as `image placeholder expansion`.
    PlaceholderExpansion,
    /// Stage reported as `attention mask init`.
    AttentionMask,
    /// Stage reported as `vision encoder total`.
    VisionEncoder,
    /// Stage reported as `vision encoder ONNX`.
    VisionOnnx,
    /// Stage reported as `prompt embedding total`.
    PromptEmbedding,
    /// Stage reported as `generated-token embedding total`.
    TokenEmbedding,
    /// Stage reported as `embedding ONNX`.
    EmbeddingOnnx,
    /// Stage reported as `image feature merge`.
    MergeImageFeatures,
    /// Stage reported as `generation total`.
    GenerationTotal,
    /// Stage reported as `decoder prefill (inclusive)`.
    PrefillDecoder,
    /// Stage reported as `decoder autoregressive (inclusive)`.
    AutoregressiveDecoder,
    /// Stage reported as `decoder tensor preparation`.
    DecoderTensorPreparation,
    /// Stage reported as `decoder ONNX`.
    DecoderOnnx,
    /// Stage reported as `decoder logits extraction`.
    LogitsExtraction,
    /// Stage reported as `KV cache update/extraction`.
    KvCacheUpdate,
    /// Stage reported as `KV cache replace/drop`.
    KvCacheReplace,
    /// Stage reported as `token selection total`.
    Sampling,
    /// Stage reported as `greedy argmax`.
    GreedyArgmax,
    /// Stage reported as `sample candidate build`.
    SampleCandidateBuild,
    /// Stage reported as `sample top-k`.
    SampleTopK,
    /// Stage reported as `sample top-p`.
    SampleTopP,
    /// Stage reported as `sample draw`.
    SampleDraw,
    /// Stage reported as `attention mask update`.
    AttentionMaskUpdate,
    /// Stage reported as `stream token decode`.
    StreamDecode,
    /// Stage reported as `stream callback`.
    StreamCallback,
    /// Stage reported as `final text decode`.
    FinalTextDecode,
}

/// Slot of a stage in the measurement table.
pub open spec fn stage_index(stage: Stage) -> nat {
    match stage {
        Stage::PipelineTotal => 0,
        Stage::PrepareInputs => 1,
        Stage::ProcessorTotal => 2,
        Stage::ImagePreprocessing => 3,
        Stage::TextProcessing => 4,
        Stage::PlaceholderExpansion => 5,
        Stage::AttentionMask => 6,
        Stage::VisionEncoder => 7,
        Stage::VisionOnnx => 8,
        Stage::PromptEmbedding => 9,
        Stage::TokenEmbedding => 10,
        Stage::EmbeddingOnnx => 11,
        Stage::MergeImageFeatures => 12,
        Stage::GenerationTotal => 13,
        Stage::PrefillDecoder => 14,
        Stage::AutoregressiveDecoder => 15,
        Stage::DecoderTensorPreparation => 16,
        Stage::DecoderOnnx => 17,
        Stage::LogitsExtraction => 18,
        Stage::KvCacheUpdate => 19,
        Stage::KvCacheReplace => 20,
        Stage::Sampling => 21,
        Stage::GreedyArgmax => 22,
        Stage::SampleCandidateBuild => 23,
        Stage::SampleTopK => 24,
        Stage::SampleTopP => 25,
        Stage::SampleDraw => 26,
        Stage::AttentionMaskUpdate => 27,
        Stage::StreamDecode => 28,
        Stage::StreamCallback => 29,
        Stage::FinalTextDecode => 30,
    }
}

/// Label of a stage in the profiling report.
pub open spec fn stage_label(stage: Stage) -> Seq<char> {
    match stage {
        Stage::PipelineTotal => "total inference"@,
        Stage::PrepareInputs => "input preparation"@,
        Stage::ProcessorTotal => "processor total"@,
        Stage::ImagePreprocessing => "image preprocessing"@,
        Stage::TextProcessing => "text processing"@,
        Stage::PlaceholderExpansion => "image placeholder expansion"@,
        Stage::AttentionMask => "attention mask init"@,
        Stage::VisionEncoder => "vision encoder total"@,
        Stage::VisionOnnx => "vision encoder ONNX"@,
        Stage::PromptEmbedding => "prompt embedding total"@,
        Stage::TokenEmbedding => "generated-token embedding total"@,
        Stage::EmbeddingOnnx => "embedding ONNX"@,
        Stage::MergeImageFeatures => "image feature merge"@,
        Stage::GenerationTotal => "generation total"@,
        Stage::PrefillDecoder => "decoder prefill (inclusive)"@,
        Stage::AutoregressiveDecoder => "decoder autoregressive (inclusive)"@,
        Stage::DecoderTensorPreparation => "decoder tensor preparation"@,
        Stage::DecoderOnnx => "decoder ONNX"@,
        Stage::LogitsExtraction => "decoder logits extraction"@,
        Stage::KvCacheUpdate => "KV cache update/extraction"@,
        Stage::KvCacheReplace => "KV cache replace/drop"@,
        Stage::Sampling => "token selection total"@,
        Stage::GreedyArgmax => "greedy argmax"@,
        Stage::SampleCandidateBuild => "sample candidate build"@,
        Stage::SampleTopK => "sample top-k"@,
        Stage::SampleTopP => "sample top-p"@,
        Stage::SampleDraw => "sample draw"@,
        Stage::AttentionMaskUpdate => "attention mask update"@,
        Stage::StreamDecode => "stream token decode"@,
        Stage::StreamCallback => "stream callback"@,
        Stage::FinalTextDecode => "final text decode"@,
    }
}

impl Stage {
    /// Returns the slot of the stage in the measurement table.
    pub fn index(self) -> (i: usize)
        ensures
            i == stage_index(self),
            i < STAGE_COUNT,
    {
        match self {
            Stage::PipelineTotal => 0,
            Stage::PrepareInputs => 1,
            Stage::ProcessorTotal => 2,
            Stage::ImagePreprocessing => 3,
            Stage::TextProcessing => 4,
            Stage::PlaceholderExpansion => 5,
            Stage::AttentionMask => 6,
            Stage::VisionEncoder => 7,
            Stage::VisionOnnx => 8,
            Stage::PromptEmbedding => 9,
            Stage::TokenEmbedding => 10,
            Stage::EmbeddingOnnx => 11,
            Stage::MergeImageFeatures => 12,
            Stage::GenerationTotal => 13,
            Stage::PrefillDecoder => 14,
            Stage::AutoregressiveDecoder => 15,
            Stage::DecoderTensorPreparation => 16,
            Stage::DecoderOnnx => 17,
            Stage::LogitsExtraction => 18,
            Stage::KvCacheUpdate => 19,
            Stage::KvCacheReplace => 20,
            Stage::Sampling => 21,
            Stage::GreedyArgmax => 22,
            Stage::SampleCandidateBuild => 23,
            Stage::SampleTopK => 24,
            Stage::SampleTopP => 25,
            Stage::SampleDraw => 26,
            Stage::AttentionMaskUpdate => 27,
            Stage::StreamDecode => 28,
            Stage::StreamCallback => 29,
            Stage::FinalTextDecode => 30,
        }
    }

    /// Returns the label of the stage in the profiling report.
    pub fn label(self) -> (s: &'static str)
        ensures
            s@ == stage_label(self),
    {
        match self {
            Stage::PipelineTotal => "total inference",
            Stage::PrepareInputs => "input preparation",
            Stage::ProcessorTotal => "processor total",
            Stage::ImagePreprocessing => "image preprocessing",
            Stage::TextProcessing => "text processing",
            Stage::PlaceholderExpansion => "image placeholder expansion",
            Stage::AttentionMask => "attention mask init",
            Stage::VisionEncoder => "vision encoder total",
            Stage::VisionOnnx => "vision encoder ONNX",
            Stage::PromptEmbedding => "prompt embedding total",
            Stage::TokenEmbedding => "generated-token embedding total",
            Stage::EmbeddingOnnx => "embedding ONNX",
            Stage::MergeImageFeatures => "image feature merge",
            Stage::GenerationTotal => "generation total",
            Stage::PrefillDecoder => "decoder prefill (inclusive)",
            Stage::AutoregressiveDecoder => "decoder autoregressive (inclusive)",
            Stage::DecoderTensorPreparation => "decoder tensor preparation",
            Stage::DecoderOnnx => "decoder ONNX",
            Stage::LogitsExtraction => "decoder logits extraction",
            Stage::KvCacheUpdate => "KV cache update/extraction",
            Stage::KvCacheReplace => "KV cache replace/drop",
            Stage::Sampling => "token selection total",
            Stage::GreedyArgmax => "greedy argmax",
            Stage::SampleCandidateBuild => "sample candidate build",
            Stage::SampleTopK => "sample top-k",
            Stage::SampleTopP => "sample top-p",
            Stage::SampleDraw => "sample draw",
            Stage::AttentionMaskUpdate => "attention mask update",
            Stage::StreamDecode => "stream token decode",
            Stage::StreamCallback => "stream callback",
            Stage::FinalTextDecode => "final text decode",
        }
    }
}

/// Accumulated time, in nanoseconds, and number of calls of one stage.
#[derive(Debug, Clone, Copy, PartialEq, Eq)]
pub struct StageMeasurement {
    /// Total time spent in the stage.
    pub total_nanos: u128,
    /// Number of times the stage ran.
    pub count: usize,
}

/// Measurements and counters of one profiled inference run.
#[derive(Debug)]
pub struct ProfileRun {
    stages: Vec<StageMeasurement>,
    generated_tokens: usize,
    kv_extract_bytes: u64,
    kv_extract_tensors: usize,
    logits_extract_bytes: u64,
}

/// Abstract value of a [`ProfileRun`].
pub struct ProfileRunView {
    /// Measurement of each stage, by slot.
    pub stages: Seq<StageMeasurement>,
    /// Generated tokens.
    pub generated_tokens: nat,
    /// Bytes copied while extracting key/value tensors.
    pub kv_extract_bytes: nat,
    /// Key/value tensors extracted.
    pub kv_extract_tensors: nat,
    /// Bytes copied while extracting logits.
    pub logits_extract_bytes: nat,
}

impl ProfileRunView {
    /// Measurement of `stage`.
    pub open spec fn of(self, stage: Stage) -> StageMeasurement {
        self.stages[stage_index(stage) as int]
    }

    /// Total time of `stage`, in nanoseconds.
    pub open spec fn total(self, stage: Stage) -> int {
        self.of(stage).total_nanos as int
    }
}

impl View for ProfileRun {
    type V = ProfileRunView;

    closed spec fn view(&self) -> ProfileRunView {
        ProfileRunView {
            stages: self.stages@,
            generated_tokens: self.generated_tokens as nat,
            kv_extract_bytes: self.kv_extract_bytes as nat,
            kv_extract_tensors: self.kv_extract_tensors as nat,
            logits_extract_bytes: self.logits_extract_bytes as nat,
        }
    }
}

impl ProfileRun {
    #[verifier::type_invariant]
    closed spec fn well_formed(self) -> bool {
        &&& self.stages@.len() == STAGE_COUNT
        &&& forall|i: int| 0 <= i < STAGE_COUNT ==> #[trigger] self.stages@[i].total_nanos <= MAX_DURATION_NANOS
    }

    /// A run with no measurement and zero counters.
    pub fn new() -> (run: Self)
        ensures
            run@.stages.len() == STAGE_COUNT,
            forall|stage: Stage| (#[trigger] run@.of(stage)) == (StageMeasurement { total_nanos: 0, count: 0 }),
            run@.generated_tokens == 0,
            run@.kv_extract_bytes == 0,
            run@.kv_extract_tensors == 0,
            run@.logits_extract_bytes == 0,
    {
        let mut stages: Vec<StageMeasurement> = Vec::new();
        let mut i: usize = 0;
        while i < STAGE_COUNT
            invariant
                i <= STAGE_COUNT,
                stages@.len() == i,
                forall|j: int| 0 <= j < i ==> #[trigger] stages@[j] == (StageMeasurement { total_nanos: 0, count: 0 }),
            decreases STAGE_COUNT - i,
        {
            stages.push(StageMeasurement { total_nanos: 0, count: 0 });
            i += 1;
        }
        let run = ProfileRun {
            stages,
            generated_tokens: 0,
            kv_extract_bytes: 0,
            kv_extract_tensors: 0,
            logits_extract_bytes: 0,
        };
        assert forall|stage: Stage| (#[trigger] run@.of(stage)) == (StageMeasurement { total_nanos: 0, count: 0 }) by {
            assert(stage_index(stage) < STAGE_COUNT);
        }
        run
    }

    /// Adds one timed call of `stage`.
    pub fn record(&mut self, stage: Stage, nanos: u128)
        requires
            old(self)@.total(stage) + nanos <= MAX_DURATION_NANOS,
            old(self)@.of(stage).count < usize::MAX,
        ensures
            final(self)@.of(stage) == (StageMeasurement {
                total_nanos: (old(self)@.total(stage) + nanos) as u128,
                count: (old(self)@.of(stage).count + 1) as usize,
            }),
            forall|other: Stage| other != stage ==> #[trigger] final(self)@.of(other) == old(self)@.of(other),
            final(self)@.stages.len() == STAGE_COUNT,
            final(self)@.generated_tokens == old(self)@.generated_tokens,
            final(self)@.kv_extract_bytes == old(self)@.kv_extract_bytes,
            final(self)@.kv_extract_tensors == old(self)@.kv_extract_tensors,
            final(self)@.logits_extract_bytes == old(self)@.logits_extract_bytes,
    {
        proof {
            use_type_invariant(&*self);
        }
        let i = stage.index();
        let current = self.stages[i];
        let updated = StageMeasurement { total_nanos: current.total_nanos + nanos, count: current.count + 1 };
        let mut stages = self.stages.clone();
        assert(stages@ =~= self.stages@);
        stages.set(i, updated);
        assert forall|j: int| 0 <= j < STAGE_COUNT implies #[trigger] stages@[j].total_nanos <= MAX_DURATION_NANOS by {
            if j != i {
                assert(stages@[j] == old(self).stages@[j]);
            }
        }
        self.stages = stages;
        assert forall|other: Stage| other != stage implies #[trigger] self@.of(other) == old(self)@.of(other) by {
            assert(stage_index(other) != stage_index(stage)) by {
                lemma_stage_index_injective(other, stage);
            }
        }
    }

    /// Returns the measurement of `stage`.
    pub fn measurement(&self, stage: Stage) -> (m: StageMeasurement)
        ensures
            m == self@.of(stage),
            m.total_nanos <= MAX_DURATION_NANOS,
    {
        proof {
            use_type_invariant(self);
        }
        self.stages[stage.index()]
    }

    /// Counts one generated token.
    pub fn record_generated_token(&mut self)
        requires
            old(self)@.generated_tokens < usize::MAX,
        ensures
            final(self)@.generated_tokens == old(self)@.generated_tokens + 1,
            final(self)@.stages == old(self)@.stages,
            final(self)@.kv_extract_bytes == old(self)@.kv_extract_bytes,
            final(self)@.kv_extract_tensors == old(self)@.kv_extract_tensors,
            final(self)@.logits_extract_bytes == old(self)@.logits_extract_bytes,
    {
        proof {
            use_type_invariant(&*self);
        }
        self.generated_tokens = self.generated_tokens + 1;
    }

    /// Counts one extracted key/value tensor of `bytes` bytes.
    pub fn record_kv_extract_bytes(&mut self, bytes: usize)
        requires
            old(self)@.kv_extract_bytes + bytes <= u64::MAX,
            old(self)@.kv_extract_tensors < usize::MAX,
        ensures
            final(self)@.kv_extract_bytes == old(self)@.kv_extract_bytes + bytes,
            final(self)@.kv_extract_tensors == old(self)@.kv_extract_tensors + 1,
            final(self)@.stages == old(self)@.stages,
            final(self)@.generated_tokens == old(self)@.generated_tokens,
            final(self)@.logits_extract_bytes == old(self)@.logits_extract_bytes,
    {
        proof {
            use_type_invariant(&*self);
        }
        self.kv_extract_bytes = self.kv_extract_bytes + bytes as u64;
        self.kv_extract_tensors = self.kv_extract_tensors + 1;
    }

    /// Counts `bytes` bytes copied while extracting logits.
    pub fn record_logits_extract_bytes(&mut self, bytes: usize)
        requires
            old(self)@.logits_extract_bytes + bytes <= u64::MAX,
        ensures
            final(self)@.logits_extract_bytes == old(self)@.logits_extract_bytes + bytes,
            final(self)@.stages == old(self)@.stages,
            final(self)@.generated_tokens == old(self)@.generated_tokens,
            final(self)@.kv_extract_bytes == old(self)@.kv_extract_bytes,
            final(self)@.kv_extract_tensors == old(self)@.kv_extract_tensors,
    {
        proof {
            use_type_invariant(&*self);
        }
        self.logits_extract_bytes = self.logits_extract_bytes + bytes as u64;
    }

    /// Generated tokens.
    pub fn generated_tokens(&self) -> (n: usize)
        ensures
            n == self@.generated_tokens,
    {
        self.generated_tokens
    }

    /// Bytes copied while extracting key/value tensors.
    pub fn kv_extract_bytes(&self) -> (n: u64)
        ensures
            n == self@.kv_extract_bytes,
    {
        self.kv_extract_bytes
    }

    /// Key/value tensors extracted.
    pub fn kv_extract_tensors(&self) -> (n: usize)
        ensures
            n == self@.kv_extract_tensors,
    {
        self.kv_extract_tensors
    }

    /// Bytes copied while extracting logits.
    pub fn logits_extract_bytes(&self) -> (n: u64)
        ensures
            n == self@.logits_extract_bytes,
    {
        self.logits_extract_bytes
    }
}

/// Distinct stages have distinct slots.
pub proof fn lemma_stage_index_injective(a: Stage, b: Stage)
    ensures
        stage_index(a) == stage_index(b) <==> a == b,
{
}

/// Figures of the profiling report: durations in nanoseconds, counts in calls.
#[derive(Debug, Clone, Copy, PartialEq, Eq)]
pub struct ProfileSummary {
    /// Total inference time.
    pub total_nanos: u128,
    /// Time spent in the three ONNX Runtime sessions.
    pub onnx_nanos: u128,
    /// Total time outside ONNX Runtime (zero when the sessions took longer).
    pub outside_onnx_nanos: u128,
    /// Decoder host work: tensor preparation, logits extraction and cache handling.
    pub decoder_host_nanos: u128,
    /// Key/value cache update plus replacement.
    pub kv_update_replace_nanos: u128,
    /// Decoder passes, prefill and autoregressive.
    pub decoder_invocations: usize,
    /// Generation time.
    pub generation_nanos: u128,
    /// Decoder ONNX time.
    pub decoder_onnx_nanos: u128,
    /// Token selection time.
    pub token_selection_nanos: u128,
    /// Embedding of generated tokens.
    pub token_embedding_nanos: u128,
    /// Attention mask updates.
    pub mask_update_nanos: u128,
    /// Generation time attributed to a stage.
    pub accounted_nanos: u128,
    /// Generation time attributed to no stage (zero when over-attributed).
    pub unaccounted_nanos: u128,
    /// Decoder passes including their nested stages.
    pub decoder_inclusive_nanos: u128,
}

/// Time in the three ONNX Runtime sessions.
pub open spec fn onnx_time(run: ProfileRunView) -> int {
    run.total(Stage::VisionOnnx) + run.total(Stage::EmbeddingOnnx) + run.total(Stage::DecoderOnnx)
}

/// Host-side decoder time.
pub open spec fn decoder_host_time(run: ProfileRunView) -> int {
    run.total(Stage::KvCacheUpdate) + run.total(Stage::KvCacheReplace) + run.total(Stage::DecoderTensorPreparation)
        + run.total(Stage::LogitsExtraction)
}

/// Key/value cache update plus replacement time.
pub open spec fn kv_update_replace_time(run: ProfileRunView) -> int {
    run.total(Stage::KvCacheUpdate) + run.total(Stage::KvCacheReplace)
}

/// Generation time attributed to one of its stages.
pub open spec fn accounted_time(run: ProfileRunView) -> int {
    run.total(Stage::DecoderOnnx) + decoder_host_time(run) + run.total(Stage::Sampling) + run.total(Stage::TokenEmbedding)
        + run.total(Stage::AttentionMaskUpdate) + run.total(Stage::StreamDecode) + run.total(Stage::StreamCallback)
}

/// Decoder time including nested stages.
pub open spec fn decoder_inclusive_time(run: ProfileRunView) -> int {
    run.total(Stage::PrefillDecoder) + run.total(Stage::AutoregressiveDecoder)
}

/// Decoder passes.
pub open spec fn decoder_invocation_count(run: ProfileRunView) -> int {
    run.of(Stage::PrefillDecoder).count + run.of(Stage::AutoregressiveDecoder).count
}

/// `a - b`, or zero when `b` exceeds `a`.
pub open spec fn saturating_difference(a: int, b: int) -> int {
    if a >= b {
        a - b
    } else {
        0
    }
}

/// Adding time to one stage adds it to the decoder host time exactly when the
/// stage is key/value cache update or replacement, decoder tensor preparation
/// or logits extraction, and to the accounted generation time exactly when it
/// is one of those or decoder ONNX, token selection, token embedding, mask
/// update, stream decoding or the stream callback; each such stage is counted
/// once and no other stage is counted.
pub proof fn lemma_stage_time_counted_once(before: ProfileRunView, after: ProfileRunView, stage: Stage, nanos: int)
    requires
        after.total(stage) == before.total(stage) + nanos,
        forall|other: Stage| other != stage ==> #[trigger] after.of(other) == before.of(other),
    ensures
        decoder_host_time(after) == decoder_host_time(before) + (if stage == Stage::KvCacheUpdate || stage
            == Stage::KvCacheReplace || stage == Stage::DecoderTensorPreparation || stage
            == Stage::LogitsExtraction {
            nanos
        } else {
            0
        }),
        accounted_time(after) == accounted_time(before) + (if stage == Stage::DecoderOnnx || stage
            == Stage::KvCacheUpdate || stage == Stage::KvCacheReplace || stage == Stage::DecoderTensorPreparation
            || stage == Stage::LogitsExtraction || stage == Stage::Sampling || stage == Stage::TokenEmbedding
            || stage == Stage::AttentionMaskUpdate || stage == Stage::StreamDecode || stage == Stage::StreamCallback {
            nanos
        } else {
            0
        }),
{
    assert(after.of(Stage::KvCacheUpdate) == before.of(Stage::KvCacheUpdate) || stage == Stage::KvCacheUpdate);
    assert(after.of(Stage::KvCacheReplace) == before.of(Stage::KvCacheReplace) || stage == Stage::KvCacheReplace);
    assert(after.of(Stage::DecoderTensorPreparation) == before.of(Stage::DecoderTensorPreparation) || stage
        == Stage::DecoderTensorPreparation);
    assert(after.of(Stage::LogitsExtraction) == before.of(Stage::LogitsExtraction) || stage
        == Stage::LogitsExtraction);
    assert(after.of(Stage::DecoderOnnx) == before.of(Stage::DecoderOnnx) || stage == Stage::DecoderOnnx);
    assert(after.of(Stage::Sampling) == before.of(Stage::Sampling) || stage == Stage::Sampling);
    assert(after.of(Stage::TokenEmbedding) == before.of(Stage::TokenEmbedding) || stage == Stage::TokenEmbedding);
    assert(after.of(Stage::AttentionMaskUpdate) == before.of(Stage::AttentionMaskUpdate) || stage
        == Stage::AttentionMaskUpdate);
    assert(after.of(Stage::StreamDecode) == before.of(Stage::StreamDecode) || stage == Stage::StreamDecode);
    assert(after.of(Stage::StreamCallback) == before.of(Stage::StreamCallback) || stage == Stage::StreamCallback);
}

/// A run in which no stage took time has no decoder host time and no
/// accounted generation time.
pub proof fn lemma_idle_run_has_no_stage_time(run: ProfileRunView)
    requires
        forall|stage: Stage| #[trigger] run.total(stage) == 0,
    ensures
        decoder_host_time(run) == 0,
        accounted_time(run) == 0,
{
    assert(run.total(Stage::KvCacheUpdate) == 0);
    assert(run.total(Stage::KvCacheReplace) == 0);
    assert(run.total(Stage::DecoderTensorPreparation) == 0);
    assert(run.total(Stage::LogitsExtraction) == 0);
    assert(run.total(Stage::DecoderOnnx) == 0);
    assert(run.total(Stage::Sampling) == 0);
    assert(run.total(Stage::TokenEmbedding) == 0);
    assert(run.total(Stage::AttentionMaskUpdate) == 0);
    assert(run.total(Stage::StreamDecode) == 0);
    assert(run.total(Stage::StreamCallback) == 0);
}

/// Whether every figure of the report fits its type: sums of durations stay
/// within what `Duration` holds and the call count within `usize`.
pub open spec fn summary_fits(run: ProfileRunView) -> bool {
    &&& onnx_time(run) <= MAX_DURATION_NANOS
    &&& accounted_time(run) <= MAX_DURATION_NANOS
    &&& decoder_inclusive_time(run) <= MAX_DURATION_NANOS
    &&& decoder_invocation_count(run) <= usize::MAX
}

impl ProfileRun {
    /// Computes the figures of the profiling report.
    pub fn summary(&self) -> (s: ProfileSummary)
        requires
            summary_fits(self@),
        ensures
            s.total_nanos == self@.total(Stage::PipelineTotal),
            s.onnx_nanos == onnx_time(self@),
            s.outside_onnx_nanos == saturating_difference(self@.total(Stage::PipelineTotal), onnx_time(self@)),
            s.decoder_host_nanos == decoder_host_time(self@),
            s.decoder_host_nanos == self@.total(Stage::KvCacheUpdate) + self@.total(Stage::KvCacheReplace)
                + self@.total(Stage::DecoderTensorPreparation) + self@.total(Stage::LogitsExtraction),
            s.kv_update_replace_nanos == kv_update_replace_time(self@),
            s.decoder_invocations == decoder_invocation_count(self@),
            s.generation_nanos == self@.total(Stage::GenerationTotal),
            s.decoder_onnx_nanos == self@.total(Stage::DecoderOnnx),
            s.token_selection_nanos == self@.total(Stage::Sampling),
            s.token_embedding_nanos == self@.total(Stage::TokenEmbedding),
            s.mask_update_nanos == self@.total(Stage::AttentionMaskUpdate),
            s.accounted_nanos == accounted_time(self@),
            s.unaccounted_nanos == saturating_difference(self@.total(Stage::GenerationTotal), accounted_time(self@)),
            s.decoder_inclusive_nanos == decoder_inclusive_time(self@),
    {
        let total = self.measurement(Stage::PipelineTotal).total_nanos;
        let onnx = self.measurement(Stage::VisionOnnx).total_nanos + self.measurement(Stage::EmbeddingOnnx).total_nanos
            + self.measurement(Stage::DecoderOnnx).total_nanos;
        let outside_onnx = if total >= onnx {
            total - onnx
        } else {
            0
        };
        let kv_update_replace = self.measurement(Stage::KvCacheUpdate).total_nanos + self.measurement(
            Stage::KvCacheReplace,
        ).total_nanos;
        let decoder_host = kv_update_replace + self.measurement(Stage::DecoderTensorPreparation).total_nanos
            + self.measurement(Stage::LogitsExtraction).total_nanos;
        let decoder_invocations = self.measurement(Stage::PrefillDecoder).count + self.measurement(
            Stage::AutoregressiveDecoder,
        ).count;
        let generation = self.measurement(Stage::GenerationTotal).total_nanos;
        let decoder_onnx = self.measurement(Stage::DecoderOnnx).total_nanos;
        let token_selection = self.measurement(Stage::Sampling).total_nanos;
        let token_embedding = self.measurement(Stage::TokenEmbedding).total_nanos;
        let mask_update = self.measurement(Stage::AttentionMaskUpdate).total_nanos;
        let accounted = decoder_onnx + decoder_host + token_selection + token_embedding + mask_update
            + self.measurement(Stage::StreamDecode).total_nanos + self.measurement(Stage::StreamCallback).total_nanos;
        let unaccounted = if generation >= accounted {
            generation - accounted
        } else {
            0
        };
        let decoder_inclusive = self.measurement(Stage::PrefillDecoder).total_nanos + self.measurement(
            Stage::AutoregressiveDecoder,
        ).total_nanos;
        ProfileSummary {
            total_nanos: total,
            onnx_nanos: onnx,
            outside_onnx_nanos: outside_onnx,
            decoder_host_nanos: decoder_host,
            kv_update_replace_nanos: kv_update_replace,
            decoder_invocations,
            generation_nanos: generation,
            decoder_onnx_nanos: decoder_onnx,
            token_selection_nanos: token_selection,
            token_embedding_nanos: token_embedding,
            mask_update_nanos: mask_update,
            accounted_nanos: accounted,
            unaccounted_nanos: unaccounted,
            decoder_inclusive_nanos: decoder_inclusive,
        }
    }
}

/// Whether the value of the profiling switch turns profiling on: anything but
/// an empty value, `0`, or `false`, `off`, `no` in any ASCII case, once
/// surrounding whitespace is removed.
pub open spec fn switch_enabled(trimmed_value: Seq<char>) -> bool {
    !(trimmed_value.len() == 0 || trimmed_value == "0"@ || ascii_case_equal(trimmed_value, "false"@)
        || ascii_case_equal(trimmed_value, "off"@) || ascii_case_equal(trimmed_value, "no"@))
}

/// The code point of the ASCII lowercase of a character; other characters
/// keep their code point.
pub open spec fn ascii_lower(c: char) -> u32 {
    if 65 <= (c as u32) <= 90 {
        ((c as u32) + 32) as u32
    } else {
        c as u32
    }
}

/// Whether two texts are equal once ASCII letters are lowercased.
pub open spec fn ascii_case_equal(a: Seq<char>, b: Seq<char>) -> bool {
    a.len() == b.len() && forall|i: int| 0 <= i < a.len() ==> ascii_lower(#[trigger] a[i]) == ascii_lower(b[i])
}

fn lower_code(c: char) -> (r: u32)
    ensures
        r == ascii_lower(c),
{
    let v = c as u32;
    if 65 <= v && v <= 90 {
        v + 32
    } else {
        v
    }
}

/// Compares two texts, ignoring the case of ASCII letters.
pub fn eq_ignore_ascii_case(a: &str, b: &str) -> (r: bool)
    ensures
        r == ascii_case_equal(a@, b@),
{
    let x = chars_of(a);
    let y = chars_of(b);
    if x.len() != y.len() {
        return false;
    }
    let mut i: usize = 0;
    while i < x.len()
        invariant
            i <= x@.len(),
            x@.len() == y@.len(),
            x@ == a@,
            y@ == b@,
            forall|j: int| 0 <= j < i ==> ascii_lower(#[trigger] x@[j]) == ascii_lower(y@[j]),
        decreases x@.len() - i,
    {
        if lower_code(x[i]) != lower_code(y[i]) {
            return false;
        }
        i += 1;
    }
    true
}

/// Whether `c` has the Unicode `White_Space` property, which is what
/// `char::is_whitespace` and `str::trim` go by.
pub open spec fn is_white_space(c: char) -> bool {
    let v = c as u32;
    ||| 9 <= v <= 13
    ||| v == 32
    ||| v == 0x85
    ||| v == 0xA0
    ||| v == 0x1680
    ||| 0x2000 <= v <= 0x200A
    ||| v == 0x2028
    ||| v == 0x2029
    ||| v == 0x202F
    ||| v == 0x205F
    ||| v == 0x3000
}

/// Number of white-space characters `text` starts with.
pub open spec fn leading_white_space(text: Seq<char>) -> nat
    decreases text.len(),
{
    if text.len() > 0 && is_white_space(text[0]) {
        1 + leading_white_space(text.drop_first())
    } else {
        0
    }
}

/// Number of white-space characters `text` ends with.
pub open spec fn trailing_white_space(text: Seq<char>) -> nat
    decreases text.len(),
{
    if text.len() > 0 && is_white_space(text.last()) {
        1 + trailing_white_space(text.drop_last())
    } else {
        0
    }
}

/// `str::trim`: the text without its leading and trailing white space.
pub open spec fn trimmed(text: Seq<char>) -> Seq<char> {
    let rest = text.skip(leading_white_space(text) as int);
    rest.take(rest.len() - trailing_white_space(rest))
}

fn white_space(c: char) -> (b: bool)
    ensures
        b == is_white_space(c),
{
    let v = c as u32;
    (9 <= v && v <= 13) || v == 32 || v == 0x85 || v == 0xA0 || v == 0x1680 || (0x2000 <= v && v <= 0x200A)
        || v == 0x2028 || v == 0x2029 || v == 0x202F || v == 0x205F || v == 0x3000
}

proof fn lemma_leading_unique(text: Seq<char>, k: int)
    requires
        0 <= k <= text.len(),
        forall|i: int| 0 <= i < k ==> is_white_space(#[trigger] text[i]),
        k < text.len() ==> !is_white_space(text[k]),
    ensures
        leading_white_space(text) == k,
    decreases text.len(),
{
    if text.len() > 0 && is_white_space(text[0]) {
        let t = text.drop_first();
        assert forall|i: int| 0 <= i < k - 1 implies is_white_space(#[trigger] t[i]) by {
            assert(t[i] == text[i + 1]);
        }
        lemma_leading_unique(t, k - 1);
    }
}

proof fn lemma_trailing_unique(text: Seq<char>, k: int)
    requires
        0 <= k <= text.len(),
        forall|i: int| text.len() - k <= i < text.len() ==> is_white_space(#[trigger] text[i]),
        k < text.len() ==> !is_white_space(text[text.len() - k - 1]),
    ensures
        trailing_white_space(text) == k,
    decreases text.len(),
{
    if text.len() > 0 && is_white_space(text.last()) {
        let t = text.drop_last();
        assert forall|i: int| t.len() - (k - 1) <= i < t.len() implies is_white_space(#[trigger] t[i]) by {
            assert(t[i] == text[i]);
        }
        if k == 0 {
            assert(!is_white_space(text[text.len() - 1]));
        }
        lemma_trailing_unique(t, k - 1);
    }
}

/// `str::trim`, written out: drops the leading and trailing white space.
fn trim_text(text: &str) -> (r: &str)
    ensures
        r@ == trimmed(text@),
{
    let v = chars_of(text);
    let n = v.len();
    let mut start: usize = 0;
    while start < n && white_space(v[start])
        invariant
            start <= n,
            n == v@.len(),
            forall|i: int| 0 <= i < start ==> is_white_space(#[trigger] v@[i]),
        decreases n - start,
    {
        start += 1;
    }
    proof {
        lemma_leading_unique(v@, start as int);
    }
    let mut end: usize = n;
    while end > start && white_space(v[end - 1])
        invariant
            start <= end <= n,
            n == v@.len(),
            forall|i: int| end <= i < n ==> is_white_space(#[trigger] v@[i]),
        decreases end - start,
    {
        end -= 1;
    }
    proof {
        let rest = v@.skip(start as int);
        assert forall|i: int| rest.len() - (n - end) <= i < rest.len() implies is_white_space(#[trigger] rest[i]) by {
            assert(rest[i] == v@[start + i]);
        }
        if end > start {
            assert(rest[rest.len() - (n - end) - 1] == v@[end - 1]);
        }
        lemma_trailing_unique(rest, (n - end) as int);
        assert(rest.take(rest.len() - (n - end)) =~= v@.subrange(start as int, end as int));
    }
    text.substring_char(start, end)
}

/// Whether a profiling switch value, already stripped of surrounding white
/// space, turns profiling on.
pub fn switch_value_enabled(trimmed_value: &str) -> (on: bool)
    ensures
        on == switch_enabled(trimmed_value@),
{
    let off = trimmed_value.unicode_len() == 0 || text_eq(trimmed_value, "0") || eq_ignore_ascii_case(trimmed_value, "false")
        || eq_ignore_ascii_case(trimmed_value, "off") || eq_ignore_ascii_case(trimmed_value, "no");
    !off
}

/// Whether the value of the profiling switch turns profiling on.
pub fn profile_switch_enabled(value: &str) -> (on: bool)
    ensures
        on == switch_enabled(trimmed(value@)),
{
    switch_value_enabled(trim_text(value))
}

} // verus!
