//! High-level pipeline values: loading options, OCR results, merging image
//! features into the prompt embeddings and streaming text deltas.

use vstd::prelude::*;

use crate::model::decoder::generation::{FinishReason, GenerationOutput};
use crate::model::embedding_model::output::InputEmbeddings;
use crate::model::tensor::{fits3, Tensor3View};
use crate::model::vision_encoder::output::ImageFeatures;
use crate::processor::grid::VisionGrid;
use crate::processor::text::{
    expanded_ids, grid_tokens, lemma_expanded_prompt_has_one_image_token_per_feature, Message, MessageContent,
    MessageRole,
};
use crate::tokenizer::{first_invalid_id, Tokenizer};
use crate::util::onnxruntime::RuntimeOptions;
use crate::util::text::{byte_len, char_utf8_width, chars_of, decimal, lemma_utf8_len_prefix, utf8_len, with_two_numbers};
use crate::Error;

verus! {

/// Options used when loading a pretrained LightOnOCR model.
#[derive(Debug, Clone, PartialEq, Eq)]
pub struct LightOnOCROptions {
    /// Runtime configuration.
    pub runtime: RuntimeOptions,
    /// Vision encoder ONNX file, relative to the model directory.
    pub vision_encoder: String,
    /// Token embedding ONNX file, relative to the model directory.
    pub embedding: String,
    /// Merged decoder ONNX file, relative to the model directory.
    pub decoder: String,
    /// Optional override of the maximum number of generated tokens; when absent
    /// the value from `generation_config.json` is used.
    pub max_new_tokens: Option<usize>,
}

impl Default for LightOnOCROptions {
    fn default() -> (o: Self)
        ensures
            o.runtime.execution_provider is Cpu,
            o.runtime.intra_threads is None,
            o.runtime.inter_threads is None,
            !o.runtime.parallel_execution,
            o.vision_encoder@ == "onnx/vision_encoder.onnx"@,
            o.embedding@ == "onnx/embed_tokens.onnx"@,
            o.decoder@ == "onnx/decoder_model_merged.onnx"@,
            o.max_new_tokens is None,
    {
        LightOnOCROptions {
            runtime: RuntimeOptions::default(),
            vision_encoder: "onnx/vision_encoder.onnx".to_owned(),
            embedding: "onnx/embed_tokens.onnx".to_owned(),
            decoder: "onnx/decoder_model_merged.onnx".to_owned(),
            max_new_tokens: None,
        }
    }
}

impl LightOnOCROptions {
    /// Options for the FP16 model files.
    pub fn fp16() -> (o: Self)
        ensures
            o.runtime.execution_provider is Cpu,
            o.runtime.intra_threads is None,
            o.runtime.inter_threads is None,
            !o.runtime.parallel_execution,
            o.vision_encoder@ == "onnx/vision_encoder_fp16.onnx"@,
            o.embedding@ == "onnx/embed_tokens_fp16.onnx"@,
            o.decoder@ == "onnx/decoder_model_merged_fp16.onnx"@,
            o.max_new_tokens is None,
    {
        LightOnOCROptions {
            vision_encoder: "onnx/vision_encoder_fp16.onnx".to_owned(),
            embedding: "onnx/embed_tokens_fp16.onnx".to_owned(),
            decoder: "onnx/decoder_model_merged_fp16.onnx".to_owned(),
            ..Self::default()
        }
    }

    /// Options for the Q4 model files.
    pub fn q4() -> (o: Self)
        ensures
            o.runtime.execution_provider is Cpu,
            o.runtime.intra_threads is None,
            o.runtime.inter_threads is None,
            !o.runtime.parallel_execution,
            o.vision_encoder@ == "onnx/vision_encoder_q4.onnx"@,
            o.embedding@ == "onnx/embed_tokens_q4.onnx"@,
            o.decoder@ == "onnx/decoder_model_merged_q4.onnx"@,
            o.max_new_tokens is None,
    {
        LightOnOCROptions {
            vision_encoder: "onnx/vision_encoder_q4.onnx".to_owned(),
            embedding: "onnx/embed_tokens_q4.onnx".to_owned(),
            decoder: "onnx/decoder_model_merged_q4.onnx".to_owned(),
            ..Self::default()
        }
    }

    /// Returns the options with a custom generation limit.
    pub fn with_max_new_tokens(self, max_new_tokens: usize) -> (o: Self)
        ensures
            o == (LightOnOCROptions { max_new_tokens: Some(max_new_tokens), ..self }),
    {
        LightOnOCROptions { max_new_tokens: Some(max_new_tokens), ..self }
    }
}

/// OCR inference result.
#[derive(Debug, PartialEq, Eq)]
pub struct OCRResult {
    text: String,
    token_ids: Vec<i64>,
    finish_reason: FinishReason,
}

impl View for OCRResult {
    type V = (Seq<char>, Seq<i64>, FinishReason);

    closed spec fn view(&self) -> (Seq<char>, Seq<i64>, FinishReason) {
        (self.text@, self.token_ids@, self.finish_reason)
    }
}

fn copy_ids(ids: &[i64]) -> (copy: Vec<i64>)
    ensures
        copy@ == ids@,
{
    let mut copy: Vec<i64> = Vec::new();
    let mut i: usize = 0;
    while i < ids.len()
        invariant
            i <= ids@.len(),
            copy@ == ids@.take(i as int),
        decreases ids@.len() - i,
    {
        copy.push(ids[i]);
        i += 1;
        assert(copy@ =~= ids@.take(i as int));
    }
    assert(ids@.take(ids@.len() as int) =~= ids@);
    copy
}

impl Clone for OCRResult {
    /// A copy of the result: the same text, token IDs and finish reason.
    fn clone(&self) -> (c: Self)
        ensures
            c@ == self@,
    {
        OCRResult {
            text: self.text.clone(),
            token_ids: copy_ids(self.token_ids.as_slice()),
            finish_reason: self.finish_reason,
        }
    }
}

impl OCRResult {
    /// Pairs decoded text with the generation that produced it.
    pub fn new(text: String, generated: GenerationOutput) -> (r: Self)
        ensures
            r@ == (text@, generated@.0, generated@.1),
    {
        let token_ids = copy_ids(generated.token_ids());
        OCRResult { text, token_ids, finish_reason: generated.finish_reason() }
    }

    /// The decoded OCR text.
    pub fn text(&self) -> (s: &str)
        ensures
            s@ == self@.0,
    {
        self.text.as_str()
    }

    /// The generated token IDs.
    pub fn token_ids(&self) -> (s: &[i64])
        ensures
            s@ == self@.1,
    {
        self.token_ids.as_slice()
    }

    /// The reason generation stopped.
    pub fn finish_reason(&self) -> (r: FinishReason)
        ensures
            r == self@.2,
    {
        self.finish_reason
    }

    /// Consumes the result and returns the decoded text.
    pub fn into_text(self) -> (s: String)
        ensures
            s@ == self@.0,
    {
        self.text
    }
}

// ---------------------------------------------------------------------------
// Image feature merge
// ---------------------------------------------------------------------------

/// Number of occurrences of `id` in `tokens`.
pub open spec fn count_token(tokens: Seq<i64>, id: i64) -> nat
    decreases tokens.len(),
{
    if tokens.len() == 0 {
        0
    } else {
        count_token(tokens.drop_last(), id) + (if tokens.last() == id { 1nat } else { 0nat })
    }
}

/// Whether the prompt and the image features can be merged.
pub open spec fn merge_inputs_valid<T>(
    token_ids: Seq<i64>,
    embeddings: Tensor3View<T>,
    features: Tensor3View<T>,
    image_token_id: i64,
) -> bool {
    &&& embeddings.d0 == 1
    &&& features.d0 == 1
    &&& token_ids.len() == embeddings.d1
    &&& embeddings.d2 == features.d2
    &&& count_token(token_ids, image_token_id) == features.d1
}

/// The message of the first merge check that fails, in the order the checks run.
pub open spec fn merge_failure<T>(
    token_ids: Seq<i64>,
    embeddings: Tensor3View<T>,
    features: Tensor3View<T>,
    image_token_id: i64,
) -> Seq<char> {
    if embeddings.d0 != 1 {
        "only batch size "@ + decimal(1) + " is supported, found "@ + decimal(embeddings.d0) + ""@
    } else if features.d0 != 1 {
        "only batch size "@ + decimal(1) + " is supported for image features, found "@ + decimal(features.d0)
            + ""@
    } else if token_ids.len() != embeddings.d1 {
        "token ID sequence length "@ + decimal(token_ids.len()) + " does not match embedding sequence length "@
            + decimal(embeddings.d1) + ""@
    } else if embeddings.d2 != features.d2 {
        "embedding hidden size "@ + decimal(embeddings.d2) + " does not match image feature hidden size "@
            + decimal(features.d2) + ""@
    } else {
        "prompt contains "@ + decimal(count_token(token_ids, image_token_id))
            + " image placeholder tokens but vision encoder produced "@ + decimal(features.d1)
            + " image features"@
    }
}

/// The merged embeddings: row `s` is the `k`-th image feature row when token
/// `s` is the `k`-th image placeholder, and the prompt embedding row otherwise.
pub open spec fn merged_rows<T>(
    merged: Seq<T>,
    token_ids: Seq<i64>,
    embeddings: Seq<T>,
    features: Seq<T>,
    image_token_id: i64,
    hidden: nat,
) -> bool {
    &&& merged.len() == token_ids.len() * hidden
    &&& forall|s: int, h: int| 0 <= s < token_ids.len() && 0 <= h < hidden ==>
        #[trigger] merged[s * hidden + h] == if token_ids[s] == image_token_id {
            features[count_token(token_ids.take(s), image_token_id) * hidden + h]
        } else {
            embeddings[s * hidden + h]
        }
}

proof fn lemma_count_take_step(tokens: Seq<i64>, id: i64, s: int)
    requires
        0 <= s < tokens.len(),
    ensures
        count_token(tokens.take(s + 1), id) == count_token(tokens.take(s), id) + (if tokens[s] == id { 1nat } else { 0nat }),
{
    assert(tokens.take(s + 1).drop_last() =~= tokens.take(s));
}

proof fn lemma_count_take_all(tokens: Seq<i64>, id: i64)
    ensures
        count_token(tokens.take(tokens.len() as int), id) == count_token(tokens, id),
{
    assert(tokens.take(tokens.len() as int) =~= tokens);
}

proof fn lemma_row_index(s: int, h: int, rows: int, hidden: int)
    requires
        0 <= s < rows,
        0 <= h < hidden,
    ensures
        s * hidden + h < rows * hidden,
        0 <= s * hidden,
        (s + 1) * hidden == s * hidden + hidden,
{
    assert(s * hidden + h < rows * hidden) by (nonlinear_arith)
        requires
            0 <= s < rows,
            0 <= h < hidden,
    ;
    assert(0 <= s * hidden) by (nonlinear_arith)
        requires
            0 <= s,
            0 <= hidden,
    ;
    assert((s + 1) * hidden == s * hidden + hidden) by (nonlinear_arith);
}

/// Replaces the embedding of each image placeholder token with the matching
/// vision feature row, in order; all other rows are kept.
pub fn merge_image_features<T: Copy>(
    token_ids: &[i64],
    input_embeddings: &InputEmbeddings<T>,
    image_features: &ImageFeatures<T>,
    image_token_id: i64,
) -> (r: Result<InputEmbeddings<T>, Error>)
    ensures
        r is Ok <==> merge_inputs_valid(token_ids@, input_embeddings@, image_features@, image_token_id),
        r matches Ok(m) ==> {
            &&& m@.d0 == 1
            &&& m@.d1 == input_embeddings@.d1
            &&& m@.d2 == input_embeddings@.d2
            &&& merged_rows(m@.data, token_ids@, input_embeddings@.data, image_features@.data,
                image_token_id, input_embeddings@.d2)
        },
        r matches Err(e) ==> e matches Error::Inference { reason }
            && reason@ == merge_failure(token_ids@, input_embeddings@, image_features@, image_token_id),
{
    let (embedding_batch_size, sequence_length, hidden) = input_embeddings.shape();
    let (feature_batch_size, feature_count, feature_hidden_size) = image_features.shape();
    if embedding_batch_size != 1 {
        return Err(Error::Inference {
            reason: with_two_numbers("only batch size ", 1, " is supported, found ", embedding_batch_size as u64, ""),
        });
    }
    if feature_batch_size != 1 {
        return Err(Error::Inference {
            reason: with_two_numbers("only batch size ", 1, " is supported for image features, found ",
                feature_batch_size as u64, ""),
        });
    }
    if token_ids.len() != sequence_length {
        return Err(Error::Inference {
            reason: with_two_numbers("token ID sequence length ", token_ids.len() as u64,
                " does not match embedding sequence length ", sequence_length as u64, ""),
        });
    }
    if hidden != feature_hidden_size {
        return Err(Error::Inference {
            reason: with_two_numbers("embedding hidden size ", hidden as u64,
                " does not match image feature hidden size ", feature_hidden_size as u64, ""),
        });
    }
    let mut placeholders: usize = 0;
    let mut s: usize = 0;
    while s < token_ids.len()
        invariant
            s <= token_ids@.len(),
            placeholders == count_token(token_ids@.take(s as int), image_token_id),
            placeholders <= s,
        decreases token_ids@.len() - s,
    {
        proof {
            lemma_count_take_step(token_ids@, image_token_id, s as int);
        }
        if token_ids[s] == image_token_id {
            placeholders += 1;
        }
        s += 1;
    }
    proof {
        lemma_count_take_all(token_ids@, image_token_id);
    }
    if placeholders != feature_count {
        return Err(Error::Inference {
            reason: with_two_numbers("prompt contains ", placeholders as u64,
                " image placeholder tokens but vision encoder produced ", feature_count as u64, " image features"),
        });
    }
    let embeddings = input_embeddings.as_slice();
    let features = image_features.as_slice();
    let embeddings_len = embeddings.len();
    let features_len = features.len();
    let ghost emb = embeddings@;
    let ghost feat = features@;
    let ghost tokens = token_ids@;
    let mut merged: Vec<T> = Vec::new();
    let mut row: usize = 0;
    let mut rank: usize = 0;
    while row < sequence_length
        invariant
            row <= sequence_length,
            tokens == token_ids@,
            tokens.len() == sequence_length,
            emb.len() == 1 * sequence_length * hidden,
            feat.len() == 1 * feature_count * hidden,
            emb.len() == embeddings_len,
            feat.len() == features_len,
            embeddings@ == emb,
            features@ == feat,
            count_token(tokens, image_token_id) == feature_count,
            rank == count_token(tokens.take(row as int), image_token_id),
            merged@.len() == row * hidden,
            forall|q: int, h: int| 0 <= q < row && 0 <= h < hidden ==>
                #[trigger] merged@[q * hidden + h] == if tokens[q] == image_token_id {
                    feat[count_token(tokens.take(q), image_token_id) * hidden + h]
                } else {
                    emb[q * hidden + h]
                },
        decreases sequence_length - row,
    {
        proof {
            lemma_count_take_step(tokens, image_token_id, row as int);
            if tokens[row as int] == image_token_id {
                lemma_count_monotone(tokens, image_token_id, row as int + 1);
            }
        }
        let is_image = token_ids[row] == image_token_id;
        let mut h: usize = 0;
        while h < hidden
            invariant
                row < sequence_length,
                h <= hidden,
                tokens == token_ids@,
                tokens.len() == sequence_length,
                emb.len() == 1 * sequence_length * hidden,
                feat.len() == 1 * feature_count * hidden,
                emb.len() == embeddings_len,
                feat.len() == features_len,
                embeddings@ == emb,
                features@ == feat,
                is_image == (tokens[row as int] == image_token_id),
                rank == count_token(tokens.take(row as int), image_token_id),
                is_image ==> rank < feature_count,
                merged@.len() == row * hidden + h,
                forall|q: int, k: int| 0 <= q < row && 0 <= k < hidden ==>
                    #[trigger] merged@[q * hidden + k] == if tokens[q] == image_token_id {
                        feat[count_token(tokens.take(q), image_token_id) * hidden + k]
                    } else {
                        emb[q * hidden + k]
                    },
                forall|k: int| 0 <= k < h ==>
                    #[trigger] merged@[row * hidden + k] == if is_image {
                        feat[rank * hidden + k]
                    } else {
                        emb[row * hidden + k]
                    },
            decreases hidden - h,
        {
            proof {
                lemma_row_index(row as int, h as int, sequence_length as int, hidden as int);
                assert(1 * sequence_length * hidden == sequence_length * hidden);
                assert(1 * feature_count * hidden == feature_count * hidden);
                if is_image {
                    lemma_row_index(rank as int, h as int, feature_count as int, hidden as int);
                }
            }
            let value = if is_image {
                assert(rank * hidden + h < feature_count * hidden);
                assert(1 * feature_count * hidden == feature_count * hidden);
                features[rank * hidden + h]
            } else {
                assert(1 * sequence_length * hidden == sequence_length * hidden);
                embeddings[row * hidden + h]
            };
            let ghost before = merged@;
            merged.push(value);
            proof {
                assert forall|q: int, k: int| 0 <= q < row && 0 <= k < hidden implies
                    #[trigger] merged@[q * hidden + k] == before[q * hidden + k] by {
                    lemma_row_index(q, k, row as int, hidden as int);
                }
                assert forall|k: int| 0 <= k < h + 1 implies
                    #[trigger] merged@[row * hidden + k] == if is_image {
                        feat[rank * hidden + k]
                    } else {
                        emb[row * hidden + k]
                    } by {
                    if k < h {
                        assert(merged@[row * hidden + k] == before[row * hidden + k]);
                    }
                }
            }
            h += 1;
        }
        proof {
            assert((row + 1) * hidden == row * hidden + hidden) by (nonlinear_arith);
            assert forall|q: int, k: int| 0 <= q < row + 1 && 0 <= k < hidden implies
                #[trigger] merged@[q * hidden + k] == if tokens[q] == image_token_id {
                    feat[count_token(tokens.take(q), image_token_id) * hidden + k]
                } else {
                    emb[q * hidden + k]
                } by {
                if q == row {
                    assert(merged@[row * hidden + k] == if is_image {
                        feat[rank * hidden + k]
                    } else {
                        emb[row * hidden + k]
                    });
                }
            }
        }
        if is_image {
            rank += 1;
        }
        row += 1;
    }
    proof {
        assert(1 * sequence_length * hidden == sequence_length * hidden);
        assert(fits3(1, sequence_length as int, hidden as int));
    }
    let r = InputEmbeddings::new(merged, 1, sequence_length, hidden);
    match r {
        Ok(m) => Ok(m),
        Err(_) => Err(Error::Inference { reason: "merged embeddings do not match their shape".to_owned() }),
    }
}

/// Each vision feature replaces exactly one image token: a prompt whose single
/// placeholder was expanded for a grid can be merged with one feature row per
/// grid cell, given prompt embeddings for every token and matching hidden
/// sizes.
pub proof fn lemma_expanded_prompt_merges<T>(
    prompt: Seq<i64>,
    image_id: i64,
    break_id: i64,
    end_id: i64,
    grid: VisionGrid,
    embeddings: Tensor3View<T>,
    features: Tensor3View<T>,
)
    requires
        count_token(prompt, image_id) == 1,
        break_id != image_id,
        end_id != image_id,
        embeddings.d0 == 1,
        embeddings.d1 == expanded_ids(prompt, image_id, grid_tokens(image_id, break_id, end_id, grid)).len(),
        features.d0 == 1,
        features.d1 == grid.width * grid.height,
        features.d2 == embeddings.d2,
    ensures
        merge_inputs_valid(
            expanded_ids(prompt, image_id, grid_tokens(image_id, break_id, end_id, grid)),
            embeddings,
            features,
            image_id,
        ),
{
    lemma_expanded_prompt_has_one_image_token_per_feature(prompt, image_id, break_id, end_id, grid);
}

proof fn lemma_count_monotone(tokens: Seq<i64>, id: i64, k: int)
    requires
        0 <= k <= tokens.len(),
    ensures
        count_token(tokens.take(k), id) <= count_token(tokens, id),
    decreases tokens.len(),
{
    if k < tokens.len() {
        assert(tokens.drop_last().take(k) =~= tokens.take(k));
        lemma_count_monotone(tokens.drop_last(), id, k);
    } else {
        assert(tokens.take(k) =~= tokens);
    }
}

// ---------------------------------------------------------------------------
// Streaming text
// ---------------------------------------------------------------------------

/// Number of leading characters two texts share.
pub open spec fn common_prefix(left: Seq<char>, right: Seq<char>) -> nat
    decreases left.len(),
{
    if left.len() == 0 || right.len() == 0 || left[0] != right[0] {
        0
    } else {
        1 + common_prefix(left.drop_first(), right.drop_first())
    }
}

proof fn lemma_common_prefix_unique(left: Seq<char>, right: Seq<char>, k: int)
    requires
        0 <= k <= left.len(),
        k <= right.len(),
        forall|i: int| 0 <= i < k ==> left[i] == right[i],
        k < left.len() && k < right.len() ==> left[k] != right[k],
        k == left.len() || k == right.len() || left[k] != right[k],
    ensures
        common_prefix(left, right) == k,
    decreases left.len(),
{
    if left.len() > 0 && right.len() > 0 && left[0] == right[0] {
        assert(k > 0);
        lemma_common_prefix_unique(left.drop_first(), right.drop_first(), k - 1);
    }
}

/// Number of leading characters `left` and `right` share.
fn shared_char_count(a: &Vec<char>, b: &Vec<char>) -> (k: usize)
    ensures
        k == common_prefix(a@, b@),
{
    let mut k: usize = 0;
    while k < a.len() && k < b.len() && a[k] == b[k]
        invariant
            k <= a@.len(),
            k <= b@.len(),
            forall|i: int| 0 <= i < k ==> a@[i] == b@[i],
        decreases a@.len() - k,
    {
        k += 1;
    }
    proof {
        lemma_common_prefix_unique(a@, b@, k as int);
    }
    k
}

/// Byte length of the longest common prefix of `left` and `right`: the UTF-8
/// length of the characters they share, which is a character boundary in both.
pub fn common_prefix_len(left: &str, right: &str) -> (n: usize)
    ensures
        n == utf8_len(left@.take(common_prefix(left@, right@) as int)),
        n == utf8_len(right@.take(common_prefix(left@, right@) as int)),
{
    let a = chars_of(left);
    let b = chars_of(right);
    let total = byte_len(left);
    let shared = shared_char_count(&a, &b);
    proof {
        lemma_common_prefix_bound(a@, b@);
        assert(a@.take(shared as int) =~= b@.take(shared as int));
    }
    let mut bytes: usize = 0;
    let mut i: usize = 0;
    while i < shared
        invariant
            i <= shared,
            shared <= a@.len(),
            a@ == left@,
            total == utf8_len(a@),
            bytes == utf8_len(a@.take(i as int)),
        decreases shared - i,
    {
        proof {
            assert(a@.take(i + 1).drop_last() =~= a@.take(i as int));
            lemma_utf8_len_prefix(a@, i + 1);
        }
        bytes = bytes + char_utf8_width(a[i]);
        i += 1;
    }
    bytes
}

/// The text a streaming step adds: `current` without the characters it shares
/// with the text already streamed.
pub fn decoded_delta<'a>(previous: &str, current: &'a str) -> (delta: &'a str)
    ensures
        delta@ == current@.skip(common_prefix(previous@, current@) as int),
{
    let a = chars_of(previous);
    let b = chars_of(current);
    let k = shared_char_count(&a, &b);
    proof {
        lemma_common_prefix_bound(previous@, current@);
    }
    let n = current.unicode_len();
    current.substring_char(k, n)
}

proof fn lemma_common_prefix_bound(left: Seq<char>, right: Seq<char>)
    ensures
        common_prefix(left, right) <= right.len(),
        common_prefix(left, right) <= left.len(),
        forall|i: int| 0 <= i < common_prefix(left, right) ==> left[i] == right[i],
    decreases left.len(),
{
    if left.len() > 0 && right.len() > 0 && left[0] == right[0] {
        lemma_common_prefix_bound(left.drop_first(), right.drop_first());
        assert forall|i: int| 0 <= i < common_prefix(left, right) implies left[i] == right[i] by {
            if i > 0 {
                assert(left.drop_first()[i - 1] == right.drop_first()[i - 1]);
            }
        }
    }
}

/// Re-assembling a stream: the text `current` is what it shares with
/// `previous` followed by the delta; when `previous` is a prefix of `current`,
/// appending the delta to `previous` gives `current`.
pub proof fn lemma_delta_reassembles(previous: Seq<char>, current: Seq<char>)
    ensures
        current.take(common_prefix(previous, current) as int) + current.skip(common_prefix(previous, current) as int)
            == current,
        current.take(common_prefix(previous, current) as int) == previous.take(common_prefix(previous, current) as int),
        previous.is_prefix_of(current) ==> previous + current.skip(common_prefix(previous, current) as int) == current,
{
    lemma_common_prefix_bound(previous, current);
    let k = common_prefix(previous, current) as int;
    assert(current.take(k) + current.skip(k) =~= current);
    assert(current.take(k) =~= previous.take(k));
    if previous.is_prefix_of(current) {
        assert forall|i: int| 0 <= i < previous.len() implies previous[i] == current[i] by {}
        lemma_common_prefix_unique(previous, current, previous.len() as int);
        assert(previous + current.skip(k) =~= current);
    }
}

/// The text a stream emits when its decoded text, token after token, is
/// `texts`, starting from `previous`: each step's delta, joined in order.
pub open spec fn joined_deltas(previous: Seq<char>, texts: Seq<Seq<char>>) -> Seq<char>
    decreases texts.len(),
{
    if texts.len() == 0 {
        Seq::empty()
    } else {
        texts[0].skip(common_prefix(previous, texts[0]) as int) + joined_deltas(texts[0], texts.drop_first())
    }
}

/// The decoded text of a stream after each of its tokens: the decoding, special
/// tokens left out, of the tokens so far.
pub open spec fn stream_decodings(tokenizer: Tokenizer, ids: Seq<i64>) -> Seq<Seq<char>> {
    Seq::new(ids.len(), |k: int| tokenizer.decoding(ids.take(k + 1), true)->Ok_0)
}

proof fn lemma_joined_deltas(previous: Seq<char>, texts: Seq<Seq<char>>)
    requires
        texts.len() > 0,
        previous.is_prefix_of(texts[0]),
        forall|k: int| 0 <= k < texts.len() - 1 ==> (#[trigger] texts[k]).is_prefix_of(texts[k + 1]),
    ensures
        previous + joined_deltas(previous, texts) == texts.last(),
    decreases texts.len(),
{
    lemma_delta_reassembles(previous, texts[0]);
    let delta = texts[0].skip(common_prefix(previous, texts[0]) as int);
    let rest = texts.drop_first();
    if rest.len() == 0 {
        assert(joined_deltas(texts[0], rest) =~= Seq::<char>::empty());
        assert(previous + joined_deltas(previous, texts) =~= previous + delta);
    } else {
        assert forall|k: int| 0 <= k < rest.len() - 1 implies (#[trigger] rest[k]).is_prefix_of(rest[k + 1]) by {
            assert(rest[k] == texts[k + 1]);
            assert(rest[k + 1] == texts[k + 2]);
        }
        assert(texts[0].is_prefix_of(rest[0]));
        lemma_joined_deltas(texts[0], rest);
        assert(previous + joined_deltas(previous, texts) =~= (previous + delta) + joined_deltas(texts[0], rest));
    }
}

/// Streaming gives the final text: when the decoding of every prefix of the
/// generated tokens succeeds and extends the one before, the deltas a
/// `TextStream` emits, joined in order, are the decoding of all generated
/// tokens with special tokens left out, which is the text of the OCR result.
pub proof fn lemma_stream_joins_to_decoding(tokenizer: Tokenizer, ids: Seq<i64>)
    requires
        ids.len() > 0,
        forall|k: int| 0 <= k < ids.len() ==> (#[trigger] tokenizer.decoding(ids.take(k + 1), true)) is Ok,
        forall|k: int| 0 <= k < ids.len() - 1 ==> (#[trigger] stream_decodings(tokenizer, ids)[k]).is_prefix_of(
            stream_decodings(tokenizer, ids)[k + 1],
        ),
    ensures
        joined_deltas(Seq::empty(), stream_decodings(tokenizer, ids)) == tokenizer.decoding(ids, true)->Ok_0,
{
    let texts = stream_decodings(tokenizer, ids);
    assert(Seq::<char>::empty().is_prefix_of(texts[0]));
    lemma_joined_deltas(Seq::empty(), texts);
    assert(ids.take(ids.len() as int) =~= ids);
    assert(Seq::<char>::empty() + joined_deltas(Seq::empty(), texts) =~= joined_deltas(Seq::empty(), texts));
}

/// Builds the conversation sent for OCR: one user message with the optional
/// prompt text followed by the image placeholder.
pub fn ocr_messages(system_prompt: Option<&str>) -> (messages: Vec<Message>)
    ensures
        messages@.len() == 1,
        messages@[0].role is User,
        match system_prompt {
            Some(p) => {
                &&& messages@[0].content@.len() == 2
                &&& messages@[0].content@[0] matches MessageContent::Text(t) && t@ == p@
                &&& messages@[0].content@[1] is Image
            },
            None => messages@[0].content@ == seq![MessageContent::Image],
        },
{
    let mut content: Vec<MessageContent> = Vec::new();
    match system_prompt {
        Some(p) => content.push(MessageContent::Text(p.to_owned())),
        None => {},
    }
    content.push(MessageContent::Image);
    let mut messages: Vec<Message> = Vec::new();
    messages.push(Message { role: MessageRole::User, content });
    messages
}

/// Decodes the generated tokens, special tokens left out, into the OCR result.
pub fn decode_result(tokenizer: &Tokenizer, generated: GenerationOutput) -> (r: Result<OCRResult, Error>)
    ensures
        r matches Ok(result) ==> result@.1 == generated@.0 && result@.2 == generated@.1,
        match first_invalid_id(generated@.0) {
            Some(k) => r == Err::<OCRResult, Error>(Error::InvalidTokenId { token_id: generated@.0[k] }),
            None => match tokenizer.decoding(generated@.0, true) {
                Ok(text) => r matches Ok(result) && result@.0 == text,
                Err(message) => r matches Err(Error::TokenizerDecoding { reason }) && reason@ == message,
            },
        },
{
    let text = match tokenizer.decode_skip_special_tokens(generated.token_ids()) {
        Ok(text) => text,
        Err(e) => return Err(e),
    };
    Ok(OCRResult::new(text, generated))
}

/// Incremental decoding of generated tokens into text chunks, as the
/// streaming callback receives them.
#[derive(Debug)]
pub struct TextStream {
    token_ids: Vec<i64>,
    text: String,
    error: Option<Error>,
}

impl View for TextStream {
    type V = (Seq<i64>, Seq<char>, Option<Error>);

    closed spec fn view(&self) -> (Seq<i64>, Seq<char>, Option<Error>) {
        (self.token_ids@, self.text@, self.error)
    }
}

impl TextStream {
    /// A stream with no token and no text.
    pub fn new() -> (s: Self)
        ensures
            s@.0.len() == 0,
            s@.1.len() == 0,
            s@.2 is None,
    {
        TextStream { token_ids: Vec::new(), text: String::new(), error: None }
    }

    /// Adds a generated token: decodes all tokens so far, special tokens left
    /// out, and returns the text added since the previous token, when there is
    /// any. After a decoding failure the stream keeps the error and ignores
    /// further tokens.
    pub fn push_token(&mut self, tokenizer: &Tokenizer, token_id: i64) -> (chunk: Option<String>)
        ensures
            old(self)@.2 is Some ==> *final(self) == *old(self) && chunk is None,
            old(self)@.2 is None ==> {
                &&& final(self)@.0 == old(self)@.0.push(token_id)
                &&& match first_invalid_id(final(self)@.0) {
                    Some(k) => {
                        &&& final(self)@.2 == Some(Error::InvalidTokenId { token_id: final(self)@.0[k] })
                        &&& final(self)@.1 == old(self)@.1
                        &&& chunk is None
                    },
                    None => match tokenizer.decoding(final(self)@.0, true) {
                        Err(message) => {
                            &&& final(self)@.2 matches Some(Error::TokenizerDecoding { reason }) && reason@ == message
                            &&& final(self)@.1 == old(self)@.1
                            &&& chunk is None
                        },
                        Ok(text) => {
                            let delta = text.skip(common_prefix(old(self)@.1, text) as int);
                            &&& final(self)@.2 is None
                            &&& final(self)@.1 == text
                            &&& (chunk is Some <==> delta.len() > 0)
                            &&& (chunk matches Some(c) ==> c@ == delta)
                        },
                    },
                }
            },
    {
        if self.error.is_some() {
            return None;
        }
        self.token_ids.push(token_id);
        match tokenizer.decode_skip_special_tokens(self.token_ids.as_slice()) {
            Ok(decoded) => {
                let delta = decoded_delta(self.text.as_str(), decoded.as_str());
                let chunk = if delta.unicode_len() > 0 {
                    Some(delta.to_owned())
                } else {
                    None
                };
                self.text = decoded;
                chunk
            },
            Err(e) => {
                self.error = Some(e);
                None
            },
        }
    }

    /// The text streamed so far.
    pub fn text(&self) -> (t: &str)
        ensures
            t@ == self@.1,
    {
        self.text.as_str()
    }

    /// Ends the stream, reporting the decoding failure if one occurred.
    pub fn finish(self) -> (r: Result<(), Error>)
        ensures
            match self@.2 {
                Some(e) => r == Err::<(), Error>(e),
                None => r is Ok,
            },
    {
        match self.error {
            Some(e) => Err(e),
            None => Ok(()),
        }
    }
}

} // verus!
