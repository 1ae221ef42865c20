//! OpenAI file storage: references to stored files, and the upload, lookup
//! and download of a file as sequences of decisions. Each decision takes what
//! came of the last request or file operation and tells which comes next.

pub mod auth;
pub mod download;
pub mod endpoints;
pub mod error;
pub mod laws;
pub mod names;
pub mod reference;
pub mod resolve;
pub mod upload;
