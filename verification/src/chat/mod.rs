//! Chat completions streamed as server-sent events, turned into the response
//! events that the core layer consumes.

pub mod completion;
pub mod events;
pub mod laws;
pub mod meaning;
pub mod stream;
pub mod tool_calls;
