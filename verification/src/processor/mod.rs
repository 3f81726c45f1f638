//! Multimodal input processing: vision grids, chat prompts and image settings.

pub mod config;
pub mod grid;
pub mod image;
pub mod text;

pub use config::{DataFormat, ImageSettings, ImageSize, ProcessorConfig, ProcessorField, ProcessorFields, ResampleFilter};
pub use grid::VisionGrid;
pub use text::{Message, MessageContent, MessageRole, TextProcessor};
