//! The verified core of an AI-aware gateway: the delta xDS client's cache and
//! acknowledgement logic, and the translation between the universal chat
//! schema and the Anthropic Messages API.

pub mod assoc;
pub mod llm;
pub mod metrics;
pub mod sse;
pub mod state_manager;
pub mod strng;
pub mod text;
pub mod xds;
