//! Vision encoder configuration.

use vstd::prelude::*;

use crate::model::metadata::{Activation, DataType, ModelType};

verus! {

/// Vision encoder metadata from the `vision_config` section of `config.json`.
///
/// The floating-point hyper-parameters (dropout, initializer range, rotary
/// base) are not read by the logic here and are not carried.
#[derive(Debug, Clone, Copy, PartialEq, Eq, Structural)]
pub struct VisionConfig {
    /// Numeric data type recorded for vision encoder weights.
    pub dtype: DataType,
    /// Per-head vision attention dimension.
    pub head_dim: usize,
    /// Vision encoder feed-forward activation function.
    pub hidden_act: Activation,
    /// Vision hidden size used for image feature vectors.
    pub hidden_size: usize,
    /// Nominal image size recorded by the configuration.
    pub image_size: usize,
    /// Vision feed-forward intermediate size.
    pub intermediate_size: usize,
    /// Model family identifier for the vision encoder.
    pub model_type: ModelType,
    /// Number of vision encoder attention heads.
    pub num_attention_heads: usize,
    /// Number of channels expected by the vision encoder input tensor.
    pub num_channels: usize,
    /// Number of vision transformer layers.
    pub num_hidden_layers: usize,
    /// Patch size consumed by the vision encoder.
    pub patch_size: usize,
}

} // verus!
