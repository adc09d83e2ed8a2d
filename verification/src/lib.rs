//! A provider-agnostic client layer for chat-style completion backends.
//!
//! The crate normalizes role-tagged chat messages into a wire format, resolves
//! which backend a model is served by from the credentials supplied, folds a
//! backend's token stream into a growing transcript, and keeps the books for
//! dispatching many requests under a bounded number of requests in flight.
//! Every function states its behaviour in a contract, and Verus proves that
//! its body keeps it.

pub mod broker;
pub mod dispatch;
pub mod edit;
pub mod google_studio;
pub mod identifier;
pub mod initial_request;
pub mod model_selection;
pub mod openai;
pub mod outline;
pub mod prompts;
pub mod provider;
pub mod ref_filter;
pub mod stream;
pub mod text;
pub mod text_document;
pub mod tool;
pub mod types;
pub mod wire;
