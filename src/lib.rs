//! A relay for text generation: it checks an inbound HTTP request, frames the
//! provider's chat-completion payload, and turns the provider's reply into the
//! response handed back to the caller.
pub mod json;
pub mod http;
pub mod error;
pub mod payload;
pub mod relay;
pub mod laws;
