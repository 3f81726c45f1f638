//! Model-layer values: tensors exchanged with the ONNX models, their shape
//! contracts, token selection and the high-level pipeline options.

pub mod contract;
pub mod decoder;
pub mod embedding_model;
pub mod metadata;
pub mod pipeline;
pub mod tensor;
pub mod vision_encoder;

pub use decoder::{
    AttentionMask, DecoderConfig, DecoderOutput, GenerationConfig, KVCache, LayerCache, LayerType, Logits,
};
pub use embedding_model::InputEmbeddings;
pub use metadata::{Activation, DataType, ModelType, RopeType};
pub use vision_encoder::{ImageFeatures, ImageTensor};
