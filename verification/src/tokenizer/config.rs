//! Settings from `tokenizer_config.json`.

use vstd::prelude::*;

verus! {

/// Tokenizer settings loaded from `tokenizer_config.json`.
#[derive(Debug, Clone, PartialEq, Eq)]
pub struct TokenizerConfig {
    /// Whether a space is prepended to the first word.
    pub add_prefix_space: bool,
    /// Beginning-of-sequence token, when the tokenizer defines one.
    pub bos_token: Option<String>,
    /// Whether decoding cleans up tokenization spaces.
    pub clean_up_tokenization_spaces: bool,
    /// End-of-sequence token.
    pub eos_token: String,
    /// Optional maximum sequence length.
    pub max_length: Option<usize>,
    /// Maximum sequence length supported by the model.
    pub model_max_length: usize,
    /// Optional padding multiple.
    pub pad_to_multiple_of: Option<usize>,
    /// Padding token.
    pub pad_token: String,
    /// Token type ID used for padding.
    pub pad_token_type_id: u32,
    /// Side on which padding is added.
    pub padding_side: PaddingSide,
    /// Whether special tokens are split during tokenization.
    pub split_special_tokens: bool,
    /// Unknown-token marker, when the tokenizer defines one.
    pub unk_token: Option<String>,
}

/// Side on which padding tokens are inserted.
#[derive(Debug, Clone, Copy, PartialEq, Eq)]
pub enum PaddingSide {
    /// Padding is added before the sequence.
    Left,
    /// Padding is added after the sequence.
    Right,
}

} // verus!
