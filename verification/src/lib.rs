//! Translation between an OpenAI-style chat-completions wire format and a
//! Converse-style streaming backend.

pub mod bedrock;
pub mod codec;
pub mod converse;
pub mod document;
pub mod error;
pub mod json;
pub mod providers;
pub mod rechunk;
pub mod request;
pub mod response;
pub mod server;
pub mod sse;
pub mod stream;
pub mod text;
pub mod wire;
