//! Drafting of demand letters and pleadings with a chat-completion service.
//!
//! The library decides what is asked of the service and what its answers mean:
//! the prompts ([`prompts`]), the JSON requests ([`request`]), the reading of the
//! answers ([`json`], [`reply`]), and the exchange that strings them together
//! ([`exchange`]), one step per event that the caller reports.
pub mod error;
pub mod exchange;
pub mod files;
pub mod json;
pub mod models;
pub mod prompts;
pub mod reply;
pub mod request;
pub mod text;
pub mod laws;
