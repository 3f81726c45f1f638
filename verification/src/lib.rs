//! Verified core of the LightOnOCR inference engine: tensor shapes and model
//! contracts, the key/value cache, token generation, prompt construction,
//! image batch layout, tokenizer settings, runtime options and profiling
//! figures.

pub mod error;
pub mod model;
pub mod processor;
pub mod profiling;
pub mod tokenizer;
pub mod util;

pub use error::Error;
pub use model::decoder::generation::FinishReason;
pub use model::pipeline::{LightOnOCROptions, OCRResult};
pub use model::{GenerationConfig, ImageTensor};
pub use tokenizer::Tokenizer;
pub use util::{ExecutionProvider, RuntimeOptions};
