//! Vision encoder: configuration, input and output tensors, tensor contract.

pub mod config;
pub mod encoder;
pub mod input;
pub mod output;

pub use config::VisionConfig;
pub use input::ImageTensor;
pub use output::ImageFeatures;
