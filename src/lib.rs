//! Client-side control plane for a voice-platform engine: the session
//! lifecycle state machine, the routing of engine messages to their handlers,
//! request builders, and the signed access-token generator.

pub mod session;
pub mod orchestrator;
pub mod tokengen;
pub mod channel;
pub mod request;
pub mod error;
