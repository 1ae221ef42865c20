# codex_bridge

The parts of a coding agent that stand between it and the outside, as a library
whose behaviour is stated in contracts and proved with Verus.

- `chat`: the stream of a chat completion turned into response events
- `mcp_openai_file`, `mcp_tool`: file parameters of MCP tools
- `openai_files`: upload, lookup and download of stored files
- `tools::openai_file`: the tool that downloads a stored file
- `tools::apply_patch`: the tool that applies patches
- `text`, `json`, `paths`, `http`: what the rest is built from

Calls into `std`, `serde_json`, `rmcp`, `reqwest` and `uuid` stand behind small
functions whose contracts are trusted; a comment above each says what is claimed
of the call.

The library does no input or output. Work that crosses the network or touches
the file system is a sequence of decisions: each takes what came of the last
step and tells the next. `app/` does the steps. `tests/` runs the library on
given values.
