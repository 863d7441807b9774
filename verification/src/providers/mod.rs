//! One adapter for each backend. An adapter turns a normalized request into
//! what is sent to its backend, and what the backend answers into a normalized
//! response or a sequence of stream chunks.

pub mod ollama;
pub mod ollama_stream;
pub mod ollama_wire;
pub mod openai;
pub mod openai_stream;
pub mod openai_wire;
pub mod stream;

pub use ollama::OllamaProvider;
pub use openai::OpenAIProvider;
