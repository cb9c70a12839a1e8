//! A small client for a chat-completion service: request building with a
//! token budget, the retry schedule for rate-limited calls, and the assembly
//! of the answer.
pub mod client;
pub mod error;
pub mod request;
pub mod response;
pub mod retry;
pub mod session;
pub mod span;
