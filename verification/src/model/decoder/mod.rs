//! Decoder values: configuration, logits, key/value cache, attention mask and
//! token selection.

pub mod attention;
pub mod config;
pub mod kv_cache;
pub mod logits;
pub mod output;
pub mod session;

pub use attention::AttentionMask;
pub use config::{DecoderConfig, GenerationConfig, LayerType};
pub use kv_cache::{ActiveKVCache, KVCache, KVCacheBackend, LayerCache};
pub use logits::Logits;
pub use output::DecoderOutput;
pub mod generation;

pub use generation::{FinishReason, Generation, GenerationOutput, GenerationStep};
