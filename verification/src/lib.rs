//! A provider-agnostic client layer for chat-style language-model APIs.
//!
//! The crate holds the logic of the layer: the normalized request and response
//! model, the mapping to and from each backend's wire format, the
//! normalization of streamed frames into chunks, and the registry through which
//! functions are offered to a model as callable tools. Everything here works on
//! plain values; opening connections and awaiting bytes is left to the caller,
//! which hands status codes, bodies and byte chunks to the functions below.

pub mod adapter;
pub mod config;
pub mod frames;
pub mod http;
pub mod json;
pub mod laws;
pub mod providers;
pub mod schema;
pub mod text;
pub mod tools;
pub mod traits;
pub mod wire;

pub use adapter::{get_provider, LlmAdapter, LlmProvider, LlmStream};
pub use config::{ConfigError, LlmConfig, LlmConfigView, Provider};
pub use providers::{OllamaProvider, OpenAIProvider};
pub use tools::{
    execute_tool, get_all_tools, get_tools_by_names, register_tool, ToolRegistry,
};
pub use traits::{
    ChatMessage, ChatMessageRole, CompletionKind, CompletionRequest, CompletionResponse,
    CompletionStreamChunk, JsonSchema, ProviderError, StreamContentDelta, TokenUsage, Tool,
    ToolCallFunction, ToolCallFunctionStreamDelta, ToolCallRequest, ToolCallStreamDelta,
};
