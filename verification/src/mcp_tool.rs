//! MCP tools of `rmcp`, and what is known of each beside the tool itself.

use crate::json::entries_of;
use crate::json::opt_entries;
use crate::json::Json;
use vstd::prelude::*;

verus! {

/// A tool as an MCP server describes it.
#[verifier::external_type_specification]
#[verifier::external_body]
pub struct ExTool(rmcp::model::Tool);

/// The entries of a tool's metadata.
pub uninterp spec fn tool_meta(tool: rmcp::model::Tool) -> Option<Map<Seq<char>, Json>>;

/// A tool as it would be without metadata: all else that it holds.
pub uninterp spec fn tool_without_meta(tool: rmcp::model::Tool) -> rmcp::model::Tool;

/// The entries of owned metadata.
pub open spec fn owned_entries(
    meta: Option<serde_json::Map<String, serde_json::Value>>,
) -> Option<Map<Seq<char>, Json>> {
    match meta {
        Some(m) => Some(entries_of(m)),
        None => None,
    }
}

/// Reads the field `meta` of an `rmcp::model::Tool`; an `rmcp::model::Meta`
/// is the object that it dereferences to.
#[verifier::external_body]
pub(crate) fn read_meta<'a>(tool: &'a rmcp::model::Tool) -> (r: Option<
    &'a serde_json::Map<String, serde_json::Value>,
>)
    ensures
        opt_entries(r) == tool_meta(*tool),
{
    tool.meta.as_deref()
}

/// Sets the field `meta` of an `rmcp::model::Tool`, and no other, to an
/// `rmcp::model::Meta` around the given object.
#[verifier::external_body]
pub(crate) fn write_meta(
    tool: &mut rmcp::model::Tool,
    meta: Option<serde_json::Map<String, serde_json::Value>>,
)
    ensures
        tool_meta(*final(tool)) == owned_entries(meta),
        tool_without_meta(*final(tool)) == tool_without_meta(*old(tool)),
{
    tool.meta = meta.map(rmcp::model::Meta);
}

/// A tool and where it comes from.
#[derive(Debug)]
pub struct ToolInfo {
    pub server_name: String,
    pub tool_name: String,
    pub tool_namespace: String,
    pub tool: rmcp::model::Tool,
    pub supports_openai_file_bridge_capability: bool,
    pub connector_id: Option<String>,
    pub connector_name: Option<String>,
    pub plugin_display_names: Vec<String>,
    pub connector_description: Option<String>,
}

} // verus!
