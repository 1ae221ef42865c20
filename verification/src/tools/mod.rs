//! Tools that the model may call.

pub mod apply_patch;
pub mod openai_file;
