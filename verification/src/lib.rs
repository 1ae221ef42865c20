//! The parts of a coding agent that stand between it and the outside: the
//! stream of a chat completion turned into response events, the tools of MCP
//! servers that take files, OpenAI file storage, and the tool that applies
//! patches. Whatever touches the network, the file system or the clock is told
//! to the caller as data, and what came of it is taken back as data.

pub mod chat;
pub mod http;
pub mod json;
pub mod mcp_openai_file;
pub mod mcp_tool;
pub mod openai_files;
pub mod paths;
pub mod text;
pub mod tools;
