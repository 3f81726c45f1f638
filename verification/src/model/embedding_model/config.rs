//! Embedding model configuration.

use vstd::prelude::*;

use crate::model::metadata::{DataType, ModelType};

verus! {

/// Configuration of the token embedding model, from the `text_config` section
/// of `config.json`: vocabulary size and output hidden size.
#[derive(Debug, Clone, Copy, PartialEq, Eq, Structural)]
pub struct EmbeddingConfig {
    /// Numeric data type recorded for the text model weights.
    pub dtype: DataType,
    /// Model family identifier for the text model.
    pub model_type: ModelType,
    /// Output embedding dimension expected from the ONNX model.
    pub hidden_size: usize,
    /// Valid vocabulary size for input token IDs.
    pub vocab_size: usize,
}

} // verus!
