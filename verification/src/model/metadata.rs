//! Shared metadata values found in model configuration files.

use vstd::prelude::*;

verus! {

/// Model family names found in LightOnOCR configuration files.
#[derive(Debug, Clone, Copy, PartialEq, Eq, Structural)]
pub enum ModelType {
    /// Top-level LightOnOCR multimodal model (`lighton_ocr`).
    LightOnOcr,
    /// Qwen3 text decoder (`qwen3`).
    Qwen3,
    /// Pixtral vision encoder and processor family (`pixtral`).
    Pixtral,
}

/// Numeric data types declared by exported model metadata.
#[derive(Debug, Clone, Copy, PartialEq, Eq, Structural)]
pub enum DataType {
    /// Brain floating point 16-bit values (`bfloat16`).
    BFloat16,
    /// IEEE floating point 16-bit values (`float16`).
    Float16,
    /// IEEE floating point 32-bit values (`float32`).
    Float32,
}

/// Activation functions referenced by model configuration.
#[derive(Debug, Clone, Copy, PartialEq, Eq, Structural)]
pub enum Activation {
    /// Gaussian error linear unit activation (`gelu`).
    Gelu,
    /// Sigmoid linear unit activation (`silu`).
    Silu,
}

/// Rotary embedding variants referenced by configuration files.
#[derive(Debug, Clone, Copy, PartialEq, Eq, Structural)]
pub enum RopeType {
    /// Default rotary embedding implementation (`default`).
    Default,
}

} // verus!
