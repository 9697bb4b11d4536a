//! The completion daemon: its messages, their wire form, what it answers in a
//! session, and the lifecycle of its listening endpoint.

pub mod lifecycle;
pub mod messages;
pub mod session;
pub mod wire;

pub use lifecycle::start;
pub use messages::{
    default_version, CompletionRequest, CompletionResponse, ErrorResponse, RequestView,
    Suggestion, SuggestionView,
};
