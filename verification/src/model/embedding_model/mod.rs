//! Token embedding model: configuration, output tensor and tensor contract.

pub mod config;
pub mod embedding;
pub mod output;

pub use config::EmbeddingConfig;
pub use output::InputEmbeddings;
