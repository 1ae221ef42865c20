use codex_bridge::mcp_openai_file::declared_openai_file_params;
use codex_bridge::mcp_openai_file::declared_top_level_fields;
use codex_bridge::mcp_openai_file::filtered_openai_file_tool_meta;
use codex_bridge::mcp_openai_file::is_top_level_field_name;
use codex_bridge::mcp_openai_file::mask_input_property_schema;
use codex_bridge::mcp_openai_file::mask_input_schema_for_model;
use codex_bridge::mcp_openai_file::retain_openai_file_tool_meta;
use codex_bridge::mcp_openai_file::retain_openai_file_tool_meta_map;
use codex_bridge::mcp_openai_file::META_OPENAI_FILE_OUTPUTS;
use codex_bridge::mcp_tool::ToolInfo;
use serde_json::Value;

const GUIDANCE: &str = "This parameter expects an absolute local file path. If you want to upload a file, provide the absolute path to that file here.";

fn parsed(text: &str) -> Value {
    serde_json::from_str(text).expect("json")
}

fn object(text: &str) -> serde_json::Map<String, Value> {
    parsed(text).as_object().expect("meta object").clone()
}

fn tool_info(name: &str, meta: Option<&str>) -> ToolInfo {
    ToolInfo {
        server_name: "codex_apps".to_string(),
        tool_name: name.to_string(),
        tool_namespace: "ns".to_string(),
        tool: rmcp::model::Tool {
            name: name.to_string().into(),
            title: None,
            description: None,
            input_schema: std::sync::Arc::new(rmcp::model::JsonObject::default()),
            output_schema: None,
            annotations: None,
            execution: None,
            icons: None,
            meta: meta.map(|text| rmcp::model::Meta(object(text))),
        },
        supports_openai_file_bridge_capability: true,
        connector_id: None,
        connector_name: None,
        plugin_display_names: Vec::new(),
        connector_description: None,
    }
}

#[test]
fn declared_openai_file_fields_ignore_nested_names() {
    let meta = object(
        r#"{
            "openai/fileParams": ["file", "nested.value", "files[0]", "attachments"],
            "openai/fileOutputs": ["output", "artifacts/0"]
        }"#,
    );

    assert_eq!(
        declared_openai_file_params(Some(&meta)),
        vec!["file".to_string(), "attachments".to_string()]
    );
    assert_eq!(
        declared_top_level_fields(Some(&meta), META_OPENAI_FILE_OUTPUTS),
        vec!["output".to_string()]
    );
}

#[test]
fn mask_input_schema_for_model_rewrites_scalar_and_array_fields() {
    let mut schema = parsed(
        r#"{
            "type": "object",
            "properties": {
                "file": {
                    "type": "object",
                    "description": "Original file payload."
                },
                "files": {
                    "type": "array",
                    "items": {"type": "object"}
                }
            }
        }"#,
    );

    mask_input_schema_for_model(&mut schema, &["file".to_string(), "files".to_string()]);

    assert_eq!(
        schema,
        parsed(
            r#"{
                "type": "object",
                "properties": {
                    "file": {
                        "type": "string",
                        "description": "Original file payload. This parameter expects an absolute local file path. If you want to upload a file, provide the absolute path to that file here."
                    },
                    "files": {
                        "type": "array",
                        "items": {"type": "string"},
                        "description": "This parameter expects an absolute local file path. If you want to upload a file, provide the absolute path to that file here."
                    }
                }
            }"#
        )
    );
}

#[test]
fn retain_openai_file_tool_meta_drops_unrelated_meta_entries() {
    let tool_info = tool_info(
        "tool",
        Some(
            r#"{
                "openai/fileParams": ["file"],
                "openai/fileOutputs": ["outputFile"],
                "_codex_apps": {"connector_id": "calendar"},
                "other": true
            }"#,
        ),
    );

    let retained = retain_openai_file_tool_meta(tool_info);

    assert_eq!(
        retained.tool.meta,
        Some(rmcp::model::Meta(object(
            r#"{
                "openai/fileParams": ["file"]
            }"#
        )))
    );
    assert_eq!(retained.tool.name, "tool");
    assert_eq!(retained.server_name, "codex_apps");
    assert_eq!(retained.tool_namespace, "ns");
    assert!(retained.supports_openai_file_bridge_capability);
}

#[test]
fn only_names_of_the_top_level_are_field_names() {
    assert!(is_top_level_field_name("file name"));
    for name in ["", "a.b", "a/b", "a[", "]"] {
        assert!(!is_top_level_field_name(name), "{name}");
    }
}

#[test]
fn what_is_not_a_list_of_strings_declares_nothing() {
    assert!(declared_openai_file_params(None).is_empty());
    assert!(declared_openai_file_params(Some(&object("{}"))).is_empty());
    assert!(declared_openai_file_params(Some(&object(r#"{"openai/fileParams": "file"}"#))).is_empty());
    assert_eq!(
        declared_openai_file_params(Some(&object(
            r#"{"openai/fileParams": [1, "b", null, ["c"], "a", "b"]}"#
        ))),
        vec!["b", "a", "b"]
    );
}

#[test]
fn a_property_is_masked_once() {
    let mut once = parsed(r#"{"description": "A file.", "items": {}, "default": 3}"#);
    mask_input_property_schema(&mut once);
    let description = format!("A file. {GUIDANCE}");
    assert_eq!(once["description"], Value::String(description));
    assert_eq!(once["type"], Value::String("array".to_string()));
    assert_eq!(once["items"], parsed(r#"{"type": "string"}"#));
    assert_eq!(once.as_object().expect("object").len(), 3);

    let mut twice = once.clone();
    mask_input_property_schema(&mut twice);
    assert_eq!(twice, once);
}

#[test]
fn a_description_that_is_no_text_is_replaced() {
    let mut schema = parsed(r#"{"description": 7, "type": ["array"]}"#);
    mask_input_property_schema(&mut schema);
    assert_eq!(schema["description"], Value::String(GUIDANCE.to_string()));
    assert_eq!(schema["type"], Value::String("string".to_string()));
}

#[test]
fn masking_leaves_everything_else_alone() {
    let text = r#"{
        "title": "t",
        "properties": {"a": {"type": "object"}, "b": true, "c": {"type": "number"}}
    }"#;
    let mut schema = parsed(text);
    mask_input_schema_for_model(
        &mut schema,
        &["b".to_string(), "missing".to_string(), "a".to_string(), "a".to_string()],
    );
    assert_eq!(schema["title"], Value::String("t".to_string()));
    assert_eq!(schema["properties"]["b"], Value::Bool(true));
    assert_eq!(schema["properties"]["c"], parsed(r#"{"type": "number"}"#));
    assert_eq!(schema["properties"]["a"]["type"], Value::String("string".to_string()));
    assert_eq!(schema["properties"].as_object().expect("object").len(), 3);

    let again = schema.clone();
    mask_input_schema_for_model(&mut schema, &["a".to_string()]);
    assert_eq!(schema, again);

    for text in [r#"{"properties": [1]}"#, r#"{"type": "object"}"#, "[]", "null"] {
        let mut schema = parsed(text);
        mask_input_schema_for_model(&mut schema, &["a".to_string()]);
        assert_eq!(schema, parsed(text));
    }
}

#[test]
fn metadata_without_file_params_is_dropped() {
    assert_eq!(filtered_openai_file_tool_meta(None), None);
    assert_eq!(filtered_openai_file_tool_meta(Some(&object(r#"{"other": 1}"#))), None);
    let kept = object(r#"{"openai/fileParams": null}"#);
    let mut all = kept.clone();
    all.insert("other".to_string(), Value::Bool(true));
    assert_eq!(filtered_openai_file_tool_meta(Some(&all)), Some(kept.clone()));
    assert_eq!(filtered_openai_file_tool_meta(Some(&kept)), Some(kept));
}

#[test]
fn retention_goes_through_every_tool() {
    assert!(retain_openai_file_tool_meta_map(None).is_none());
    let kept = retain_openai_file_tool_meta_map(Some(vec![
        ("first".to_string(), tool_info("one", Some(r#"{"other": 1}"#))),
        (
            "second".to_string(),
            tool_info("two", Some(r#"{"openai/fileParams": ["f"], "other": 1}"#)),
        ),
        ("third".to_string(), tool_info("three", None)),
    ]))
    .expect("tools");
    assert_eq!(kept.len(), 3);
    assert_eq!(kept[0].0, "first");
    assert_eq!(kept[0].1.tool.meta, None);
    assert_eq!(kept[1].0, "second");
    assert_eq!(kept[1].1.tool.name, "two");
    assert_eq!(
        declared_openai_file_params(kept[1].1.tool.meta.as_deref()),
        vec!["f"]
    );
    assert_eq!(kept[2].1.tool_name, "three");
    assert_eq!(kept[2].1.tool.meta, None);
}
