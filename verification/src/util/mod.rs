//! Shared utilities: message text, JSON asset error classification and ONNX
//! Runtime configuration.

pub mod json;
pub mod kwargs;
pub mod onnxruntime;
pub mod text;

pub use onnxruntime::{ExecutionProvider, RuntimeOptions};
