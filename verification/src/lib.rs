//! Core of an inference gateway: one API surface that accepts
//! chat-completion, embedding and image-generation requests and dispatches
//! them to an upstream model provider.
//!
//! This crate holds the verified logic of that core: model/provider
//! resolution, request normalization into a provider-agnostic execution
//! plan, tool-capability wiring, message normalization, the event-collector
//! pipeline, and the streaming/batch executor split.  The transport layer
//! and the provider SDK calls live outside; they hand this crate plain
//! values and take plain values back.

pub mod chat_completion;
pub mod embeddings;
pub mod events;
pub mod executor;
pub mod image;
pub mod messages;
pub mod registry;
pub mod tools;
pub mod types;
