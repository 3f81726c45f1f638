//! Crate-wide error type.
//!
//! File paths are carried as text and the causes reported by other libraries
//! (file system, JSON, ONNX Runtime, tokenizer, image decoding) as their rendered
//! message, so that every variant is a plain value.

use vstd::prelude::*;

verus! {

/// Errors reported by the library.
#[derive(Debug, Clone, PartialEq, Eq)]
pub enum Error {
    /// A required Hugging Face configuration file was not present.
    MissingConfigurationFile { path: String },
    /// A configuration file could not be read from disk.
    ReadConfigurationFile { path: String, reason: String },
    /// A configuration file contained malformed JSON syntax.
    MalformedConfigurationJson { path: String, reason: String },
    /// A configuration file was valid JSON but did not match the expected schema.
    InvalidConfiguration { path: String, reason: String },
    /// The configuration describes a model variant that is not supported.
    UnsupportedConfiguration { reason: String },
    /// A required image processor asset was not present.
    MissingProcessorAsset { path: String },
    /// An image processor asset could not be read from disk.
    ReadProcessorAsset { path: String, reason: String },
    /// A processor JSON asset contained malformed JSON syntax.
    MalformedProcessorJson { path: String, reason: String },
    /// A processor JSON asset did not match the expected schema.
    InvalidProcessorJson { path: String, reason: String },
    /// The image processor configuration describes unsupported preprocessing.
    UnsupportedProcessorConfiguration { reason: String },
    /// An input image could not be loaded.
    ImageLoad { path: String, reason: String },
    /// Image preprocessing failed.
    ImageProcessing { reason: String },
    /// A required tokenizer asset was not present.
    MissingTokenizerAsset { path: String },
    /// A tokenizer asset could not be read from disk.
    ReadTokenizerAsset { path: String, reason: String },
    /// A tokenizer JSON asset contained malformed JSON syntax.
    MalformedTokenizerJson { path: String, reason: String },
    /// A tokenizer JSON asset did not match the expected schema.
    InvalidTokenizerJson { path: String, reason: String },
    /// The tokenizer backend failed to initialize from `tokenizer.json`.
    TokenizerInitialization { path: String, reason: String },
    /// Text encoding failed in the tokenizer backend.
    TokenizerEncoding { reason: String },
    /// Token ID decoding failed in the tokenizer backend.
    TokenizerDecoding { reason: String },
    /// A model-ready token ID cannot be represented by the tokenizer backend.
    InvalidTokenId { token_id: i64 },
    /// A configured token could not be resolved to a token ID.
    MissingSpecialTokenId { name: String, token: String },
    /// Autoregressive inference failed before or during generation.
    Inference { reason: String },
    /// A required decoder ONNX model was not present.
    MissingDecoderModel { path: String },
    /// The decoder ONNX model did not match the documented contract.
    InvalidDecoderModel { reason: String },
    /// The decoder ONNX session could not be loaded.
    DecoderModelLoad { path: String, reason: String },
    /// Decoder inputs did not satisfy the decoder contract.
    InvalidDecoderInput { reason: String },
    /// A tensor could not be created for the decoder.
    DecoderTensorCreation { reason: String },
    /// Decoder inference failed.
    DecoderInference { reason: String },
    /// Decoder output did not satisfy the documented contract.
    InvalidDecoderOutput { reason: String },
    /// A decoder key/value cache was malformed.
    InvalidKVCache { reason: String },
    /// A required embedding ONNX model was not present.
    MissingEmbeddingModel { path: String },
    /// The embedding ONNX model did not match the documented contract.
    InvalidEmbeddingModel { reason: String },
    /// The embedding ONNX session could not be loaded.
    EmbeddingModelLoad { path: String, reason: String },
    /// Token IDs did not satisfy the embedding input contract.
    InvalidEmbeddingInput { reason: String },
    /// A tensor could not be created for the embedding model.
    EmbeddingTensorCreation { reason: String },
    /// Embedding model inference failed.
    EmbeddingInference { reason: String },
    /// Embedding model output did not satisfy the documented contract.
    InvalidEmbeddingOutput { reason: String },
    /// A required vision encoder ONNX model was not present.
    MissingVisionModel { path: String },
    /// The vision encoder ONNX model did not match the documented contract.
    InvalidVisionModel { reason: String },
    /// The vision encoder ONNX session could not be loaded.
    VisionModelLoad { path: String, reason: String },
    /// Pixel values did not satisfy the vision encoder input contract.
    InvalidVisionInput { reason: String },
    /// A tensor could not be created for the vision encoder.
    VisionTensorCreation { reason: String },
    /// Vision encoder inference failed.
    VisionInference { reason: String },
    /// Vision encoder output did not satisfy the documented contract.
    InvalidVisionOutput { reason: String },
    /// The ONNX Runtime found at run time is not usable by this crate.
    OnnxRuntimeCompatibility { reason: String },
    /// Functionality that has not been implemented yet.
    NotImplemented { feature: String },
}

} // verus!
