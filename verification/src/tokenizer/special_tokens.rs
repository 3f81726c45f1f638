//! Special-token metadata from `special_tokens_map.json`.

use vstd::prelude::*;

verus! {

/// Special tokens declared by `special_tokens_map.json`.
#[derive(Debug, Clone, PartialEq, Eq)]
pub struct SpecialTokensMap {
    /// Beginning-of-sequence token.
    pub bos_token: Option<SpecialToken>,
    /// End-of-sequence token.
    pub eos_token: Option<SpecialToken>,
    /// Padding token.
    pub pad_token: Option<SpecialToken>,
    /// Unknown-token marker.
    pub unk_token: Option<SpecialToken>,
    /// Further special tokens.
    pub additional_special_tokens: Vec<SpecialToken>,
}

impl Default for SpecialTokensMap {
    fn default() -> (m: Self)
        ensures
            m.bos_token is None,
            m.eos_token is None,
            m.pad_token is None,
            m.unk_token is None,
            m.additional_special_tokens@.len() == 0,
    {
        SpecialTokensMap {
            bos_token: None,
            eos_token: None,
            pad_token: None,
            unk_token: None,
            additional_special_tokens: Vec::new(),
        }
    }
}

/// A special token, written either as a bare string or as an added-token
/// object with a `content` field.
#[derive(Debug, Clone, PartialEq, Eq)]
pub enum SpecialToken {
    /// Bare token text.
    Text(String),
    /// Added-token object.
    AddedToken { content: String },
}

impl SpecialToken {
    /// The token text.
    pub open spec fn text(&self) -> Seq<char> {
        match self {
            SpecialToken::Text(token) => token@,
            SpecialToken::AddedToken { content } => content@,
        }
    }

    /// Returns the token text.
    pub fn as_str(&self) -> (s: &str)
        ensures
            s@ == self.text(),
    {
        match self {
            SpecialToken::Text(token) => token.as_str(),
            SpecialToken::AddedToken { content } => content.as_str(),
        }
    }
}

/// Token IDs of the tokenizer's special tokens.
#[derive(Debug, Clone, Copy, PartialEq, Eq)]
pub struct SpecialTokenIds {
    /// Beginning-of-sequence token ID.
    pub bos_token_id: Option<i64>,
    /// End-of-sequence token ID.
    pub eos_token_id: i64,
    /// Padding token ID.
    pub pad_token_id: i64,
    /// Unknown-token ID.
    pub unk_token_id: Option<i64>,
}

} // verus!
