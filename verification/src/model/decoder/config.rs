//! Decoder and generation configuration.
//!
//! Both are read from the model's JSON assets outside the library. The
//! floating-point hyper-parameters (dropout, initializer range, normalization
//! epsilon, rotary base, sampling temperature and nucleus threshold) are not
//! read by the logic here and are not carried by these types.

use vstd::prelude::*;

use crate::model::metadata::{Activation, DataType, ModelType};

verus! {

/// Default maximum number of tokens generated in a single inference request.
pub const DEFAULT_MAX_NEW_TOKENS: usize = 512;

/// Decoder attention layer kinds.
#[derive(Debug, Clone, Copy, PartialEq, Eq, Structural)]
pub enum LayerType {
    /// Full self-attention over the available sequence context (`full_attention`).
    FullAttention,
}

/// Decoder metadata from the `text_config` section of `config.json`, together
/// with the top-level image placeholder token.
#[derive(Debug, Clone, PartialEq, Eq)]
pub struct DecoderConfig {
    /// Whether decoder attention projections include bias terms.
    pub attention_bias: bool,
    /// Beginning-of-sequence token identifier recorded for the text model.
    pub bos_token_id: Option<i64>,
    /// Numeric data type recorded for decoder weights.
    pub dtype: DataType,
    /// End-of-sequence token identifier recorded for the text model.
    pub eos_token_id: Option<i64>,
    /// Placeholder token identifier replaced by image features before decoding.
    pub image_token_index: i64,
    /// Per-head decoder attention dimension.
    pub head_dim: usize,
    /// Decoder feed-forward activation function.
    pub hidden_act: Activation,
    /// Decoder hidden size used by embeddings and logits input states.
    pub hidden_size: usize,
    /// Decoder feed-forward intermediate size.
    pub intermediate_size: usize,
    /// Attention implementation used by each decoder layer.
    pub layer_types: Vec<LayerType>,
    /// Maximum configured position embedding length.
    pub max_position_embeddings: usize,
    /// Number of layers using the configured maximum attention window.
    pub max_window_layers: usize,
    /// Model family identifier for the decoder.
    pub model_type: ModelType,
    /// Number of decoder attention heads.
    pub num_attention_heads: usize,
    /// Number of decoder transformer layers.
    pub num_hidden_layers: usize,
    /// Number of key/value heads stored in the KV cache.
    pub num_key_value_heads: usize,
    /// Padding token identifier recorded for the text model.
    pub pad_token_id: Option<i64>,
    /// Optional sliding-window attention size.
    pub sliding_window: Option<usize>,
    /// Whether token embeddings and output projection weights are tied.
    pub tie_word_embeddings: bool,
    /// Whether the decoder is configured to use KV caching.
    pub use_cache: bool,
    /// Whether query/key normalization is enabled.
    pub use_qk_norm: bool,
    /// Whether sliding-window attention is enabled.
    pub use_sliding_window: bool,
    /// Decoder vocabulary size used by the logits tensor.
    pub vocab_size: usize,
}

/// Generation settings from `generation_config.json` plus the runtime limit on
/// generated tokens.
#[derive(Debug, Clone, PartialEq, Eq)]
pub struct GenerationConfig {
    /// Maximum number of new tokens to generate.
    pub max_new_tokens: usize,
    /// Beginning-of-sequence token identifier used by generation.
    pub bos_token_id: i64,
    /// Whether sampling is enabled (greedy selection otherwise).
    pub do_sample: bool,
    /// End-of-sequence token identifiers that stop generation.
    pub eos_token_ids: Vec<i64>,
    /// Padding token identifier used during generation.
    pub pad_token_id: i64,
    /// Top-k sampling cutoff; `0` disables it.
    pub top_k: u32,
    /// Transformers version that produced the generation configuration.
    pub transformers_version: Option<String>,
    /// Whether Hugging Face remote code was trusted for generation.
    pub trust_remote_code: bool,
}

impl GenerationConfig {
    /// Returns the configuration with a different generation limit.
    pub fn with_max_new_tokens(self, max_new_tokens: usize) -> (c: Self)
        ensures
            c == (GenerationConfig { max_new_tokens, ..self }),
    {
        GenerationConfig { max_new_tokens, ..self }
    }

    /// Updates the generation limit.
    pub fn set_max_new_tokens(&mut self, max_new_tokens: usize)
        ensures
            *final(self) == (GenerationConfig { max_new_tokens, ..*old(self) }),
    {
        self.max_new_tokens = max_new_tokens;
    }
}

} // verus!
