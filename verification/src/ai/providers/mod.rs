pub mod anthropic;
pub mod mock;
pub mod ollama;
pub mod registry;
