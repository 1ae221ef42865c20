//! The tool that applies patches. That a patch is sound, and whether it needs
//! approval, is settled before it comes here. It is applied by a Codex
//! executable that calls itself, in an empty environment, or, where there is
//! none, within this process.

pub mod approval;
pub mod exe;
pub mod laws;
pub mod meaning;
pub mod plan;
pub mod request;
pub mod run;
