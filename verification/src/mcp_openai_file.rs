//! File parameters of MCP tools: which they are, and how their schemas are
//! shown to the model.

use crate::json::as_array;
use crate::json::as_object_mut;
use crate::json::as_text;
use crate::json::copy_value;
use crate::json::entries_of;
use crate::json::json_of;
use crate::json::jsons_of;
use crate::json::new_object;
use crate::json::no_entries;
use crate::json::object_clear;
use crate::json::object_get;
use crate::json::object_get_mut;
use crate::json::object_insert;
use crate::json::object_value;
use crate::json::opt_entries;
use crate::json::text_value;
use crate::json::Json;
use crate::mcp_tool::owned_entries;
use crate::mcp_tool::read_meta;
use crate::mcp_tool::tool_meta;
use crate::mcp_tool::tool_without_meta;
use crate::mcp_tool::write_meta;
use crate::mcp_tool::ToolInfo;
use crate::text::contains_char;
use crate::text::contains_part;
use crate::text::contains_text;
use crate::text::occurs_at;
use crate::text::same_text;
use crate::text::texts;
use vstd::prelude::*;

verus! {

/// The metadata key under which a tool lists its file parameters.
pub const META_OPENAI_FILE_PARAMS: &'static str = "openai/fileParams";

/// The metadata key under which a tool lists its file outputs.
pub const META_OPENAI_FILE_OUTPUTS: &'static str = "openai/fileOutputs";

/// What the model is told of a file parameter.
pub const FILE_PARAM_GUIDANCE: &'static str =
    "This parameter expects an absolute local file path. If you want to upload a file, provide the absolute path to that file here.";

/// `name` names a field of the top level, not one inside another.
pub open spec fn top_level_name(name: Seq<char>) -> bool {
    &&& name.len() > 0
    &&& !name.contains('.')
    &&& !name.contains('/')
    &&& !name.contains('[')
    &&& !name.contains(']')
}

/// The field that a list element declares: a string that is a top-level name.
pub open spec fn declared_field(element: Json) -> Option<Seq<char>> {
    match element {
        Json::Text(name) => if top_level_name(name) {
            Some(name)
        } else {
            None
        },
        _ => None,
    }
}

/// The fields that `meta` lists under `key`, in order.
pub open spec fn declared_fields(meta: Option<Map<Seq<char>, Json>>, key: Seq<char>) -> Seq<
    Seq<char>,
> {
    match meta {
        Some(entries) => match entries.get(key) {
            Some(Json::Array(elements)) => elements.filter_map(|e: Json| declared_field(e)),
            _ => Seq::empty(),
        },
        None => Seq::empty(),
    }
}

/// Whether `field_name` names a field of the top level.
pub fn is_top_level_field_name(field_name: &str) -> (r: bool)
    ensures
        r == top_level_name(field_name@),
{
    !field_name.is_empty() && !contains_char(field_name, '.') && !contains_char(field_name, '/')
        && !contains_char(field_name, '[') && !contains_char(field_name, ']')
}

/// The top-level fields that `meta` lists under `key`.
pub fn declared_top_level_fields(
    meta: Option<&serde_json::Map<String, serde_json::Value>>,
    key: &str,
) -> (r: Vec<String>)
    ensures
        texts(r@) == declared_fields(opt_entries(meta), key@),
{
    let mut fields: Vec<String> = Vec::new();
    assert(texts(fields@) == Seq::<Seq<char>>::empty());
    if let Some(meta) = meta {
        if let Some(value) = object_get(meta, key) {
            if let Some(elements) = as_array(value) {
                let ghost all = jsons_of(elements@);
                let ghost pick = |e: Json| declared_field(e);
                let mut i: usize = 0;
                assert(all.take(0).filter_map(pick) == Seq::<Seq<char>>::empty());
                while i < elements.len()
                    invariant
                        i <= elements@.len(),
                        all == jsons_of(elements@),
                        pick == (|e: Json| declared_field(e)),
                        texts(fields@) == all.take(i as int).filter_map(pick),
                    decreases elements@.len() - i,
                {
                    let ghost was = fields@;
                    proof {
                        all.lemma_filter_map_take_succ(pick, i as int);
                        assert(all[i as int] == json_of(elements@[i as int]));
                    }
                    if let Some(text) = as_text(&elements[i]) {
                        if is_top_level_field_name(text) {
                            fields.push(text.to_owned());
                            assert(texts(fields@) == texts(was).push(text@));
                        }
                    }
                    i = i + 1;
                    assert(texts(fields@) == all.take(i as int).filter_map(pick));
                }
                assert(all.take(all.len() as int) == all);
            }
        }
    }
    fields
}

/// The file parameters that a tool's metadata declares.
pub fn declared_openai_file_params(
    meta: Option<&serde_json::Map<String, serde_json::Value>>,
) -> (r: Vec<String>)
    ensures
        texts(r@) == declared_fields(opt_entries(meta), META_OPENAI_FILE_PARAMS@),
{
    declared_top_level_fields(meta, META_OPENAI_FILE_PARAMS)
}

/// The description of a file parameter whose own description is
/// `description`: the guidance stands in it once.
pub open spec fn guided(description: Seq<char>) -> Seq<char> {
    if description.len() == 0 {
        FILE_PARAM_GUIDANCE@
    } else if contains_text(description, FILE_PARAM_GUIDANCE@) {
        description
    } else {
        description + " "@ + FILE_PARAM_GUIDANCE@
    }
}

/// The description that a schema gives; empty where it gives none.
pub open spec fn description_of(schema: Map<Seq<char>, Json>) -> Seq<char> {
    match schema.get("description"@) {
        Some(Json::Text(description)) => description,
        _ => Seq::empty(),
    }
}

/// A schema describes an array if it says so or has a schema for items.
pub open spec fn is_array_schema(schema: Map<Seq<char>, Json>) -> bool {
    schema.get("type"@) == Some(Json::Text("array"@)) || schema.contains_key("items"@)
}

/// The schema that allows any string.
pub open spec fn string_schema() -> Json {
    Json::Object(no_entries().insert("type"@, Json::Text("string"@)))
}

/// The schema of a file parameter as the model sees it: a path, or a list of
/// paths, with the guidance; nothing else of the schema is kept.
pub open spec fn masked_entries(schema: Map<Seq<char>, Json>) -> Map<Seq<char>, Json> {
    let described = no_entries().insert(
        "description"@,
        Json::Text(guided(description_of(schema))),
    );
    if is_array_schema(schema) {
        described.insert("type"@, Json::Text("array"@)).insert("items"@, string_schema())
    } else {
        described.insert("type"@, Json::Text("string"@))
    }
}

/// A property's schema, masked if it is an object.
pub open spec fn masked_property(schema: Json) -> Json {
    match schema {
        Json::Object(entries) => Json::Object(masked_entries(entries)),
        other => other,
    }
}

/// The properties, with those named in `file_params` masked.
pub open spec fn masked_properties(
    properties: Map<Seq<char>, Json>,
    file_params: Seq<Seq<char>>,
) -> Map<Seq<char>, Json> {
    properties.map_entries(
        |name: Seq<char>, schema: Json|
            if file_params.contains(name) {
                masked_property(schema)
            } else {
                schema
            },
    )
}

/// An input schema, with the properties named in `file_params` masked. A value
/// without properties stays as it is.
pub open spec fn masked_schema(schema: Json, file_params: Seq<Seq<char>>) -> Json {
    match schema {
        Json::Object(entries) => match entries.get("properties"@) {
            Some(Json::Object(properties)) => Json::Object(
                entries.insert(
                    "properties"@,
                    Json::Object(masked_properties(properties, file_params)),
                ),
            ),
            _ => schema,
        },
        _ => schema,
    }
}

proof fn lemma_schema_keys_differ()
    ensures
        "description"@ != "type"@,
        "description"@ != "items"@,
        "type"@ != "items"@,
        "array"@ != "string"@,
{
    reveal_strlit("description");
    reveal_strlit("type");
    reveal_strlit("items");
    reveal_strlit("array");
    reveal_strlit("string");
    assert("type"@[0] != "items"@[0]);
    assert("array"@.len() != "string"@.len());
}

proof fn lemma_guided_twice(description: Seq<char>)
    ensures
        guided(guided(description)) == guided(description),
        guided(description).len() > 0,
{
    let g = FILE_PARAM_GUIDANCE@;
    reveal_strlit("This parameter expects an absolute local file path. If you want to upload a file, provide the absolute path to that file here.");
    assert(g.len() > 0);
    if description.len() == 0 {
        assert(g.subrange(0, g.len() as int) == g);
        assert(occurs_at(g, g, 0));
    } else if !contains_text(description, g) {
        let d = description + " "@ + g;
        let at = (description + " "@).len() as int;
        assert(d.subrange(at, at + g.len()) == g);
        assert(occurs_at(d, g, at));
    }
}

/// Masking a property again changes nothing.
pub proof fn masking_a_property_is_idempotent(schema: Json)
    ensures
        masked_property(masked_property(schema)) == masked_property(schema),
{
    if let Json::Object(entries) = schema {
        lemma_schema_keys_differ();
        lemma_guided_twice(description_of(entries));
        let once = masked_entries(entries);
        assert(description_of(once) == guided(description_of(entries)));
        assert(is_array_schema(once) == is_array_schema(entries));
        assert(masked_entries(once) == once);
    }
}

/// Shows a file parameter's schema as a path, or as a list of paths.
pub fn mask_input_property_schema(schema: &mut serde_json::Value)
    ensures
        json_of(*final(schema)) == masked_property(json_of(*old(schema))),
{
    if let Some(object) = as_object_mut(schema) {
        let ghost entries = entries_of(*object);
        let mut description: String = match object_get(object, "description") {
            Some(value) => match as_text(value) {
                Some(text) => text.to_owned(),
                None => String::new(),
            },
            None => String::new(),
        };
        assert(description@ == description_of(entries));
        if description.as_str().is_empty() {
            description = FILE_PARAM_GUIDANCE.to_owned();
        } else if !contains_part(description.as_str(), FILE_PARAM_GUIDANCE) {
            description.append(" ");
            description.append(FILE_PARAM_GUIDANCE);
        }
        assert(description@ == guided(description_of(entries)));
        let says_array = match object_get(object, "type") {
            Some(value) => match as_text(value) {
                Some(text) => same_text(text, "array"),
                None => false,
            },
            None => false,
        };
        let is_array = says_array || object_get(object, "items").is_some();
        assert(is_array == is_array_schema(entries));
        object_clear(object);
        object_insert(object, "description", text_value(description));
        if is_array {
            object_insert(object, "type", text_value("array".to_owned()));
            let mut items = new_object();
            object_insert(&mut items, "type", text_value("string".to_owned()));
            object_insert(object, "items", object_value(items));
        } else {
            object_insert(object, "type", text_value("string".to_owned()));
        }
        assert(entries_of(*object) == masked_entries(entries));
    }
}

/// Masks the properties that `file_params` name.
fn mask_properties(
    properties: &mut serde_json::Map<String, serde_json::Value>,
    file_params: &[String],
)
    ensures
        entries_of(*final(properties)) == masked_properties(
            entries_of(*old(properties)),
            texts(file_params@),
        ),
{
    let ghost start = entries_of(*properties);
    let ghost names = texts(file_params@);
    assert(masked_properties(start, names.take(0)) == start);
    let mut i: usize = 0;
    while i < file_params.len()
        invariant
            i <= file_params@.len(),
            names == texts(file_params@),
            entries_of(*properties) == masked_properties(start, names.take(i as int)),
        decreases file_params@.len() - i,
    {
        let ghost before = entries_of(*properties);
        let ghost name = names[i as int];
        let ghost taken = names.take(i as int);
        let ghost more = names.take(i + 1);
        if let Some(schema) = object_get_mut(properties, file_params[i].as_str()) {
            mask_input_property_schema(schema);
        }
        proof {
            let wanted = masked_properties(start, more);
            assert(more == taken.push(name));
            assert(more[i as int] == name);
            assert forall|key: Seq<char>| #[trigger] start.contains_key(key) implies entries_of(
                *properties,
            )[key] == wanted[key] by {
                if key == name {
                    masking_a_property_is_idempotent(start[key]);
                    assert(more.contains(key));
                } else {
                    assert(more.contains(key) ==> taken.contains(key)) by {
                        if more.contains(key) {
                            let k = choose|k: int| 0 <= k < more.len() && more[k] == key;
                            assert(taken[k] == key);
                        }
                    }
                    assert(taken.contains(key) ==> more.contains(key)) by {
                        if taken.contains(key) {
                            let k = choose|k: int| 0 <= k < taken.len() && taken[k] == key;
                            assert(more[k] == key);
                        }
                    }
                }
            }
            assert(entries_of(*properties) =~= wanted);
        }
        i = i + 1;
    }
    assert(names.take(names.len() as int) == names);
}

/// Shows the file parameters of a tool's input schema as local paths.
pub fn mask_input_schema_for_model(input_schema: &mut serde_json::Value, file_params: &[String])
    ensures
        json_of(*final(input_schema)) == masked_schema(
            json_of(*old(input_schema)),
            texts(file_params@),
        ),
{
    if let Some(schema) = as_object_mut(input_schema) {
        let ghost entries = entries_of(*schema);
        if let Some(value) = object_get_mut(schema, "properties") {
            if let Some(properties) = as_object_mut(value) {
                mask_properties(properties, file_params);
            } else {
                assert(entries.insert("properties"@, entries["properties"@]) == entries);
            }
        }
    }
}

/// Of a tool's metadata, the entry that lists file parameters, where it is
/// there.
pub open spec fn retained_meta(meta: Option<Map<Seq<char>, Json>>) -> Option<
    Map<Seq<char>, Json>,
> {
    match meta {
        Some(entries) => match entries.get(META_OPENAI_FILE_PARAMS@) {
            Some(value) => Some(no_entries().insert(META_OPENAI_FILE_PARAMS@, value)),
            None => None,
        },
        None => None,
    }
}

/// `now` is `was` with nothing retained of its tool's metadata but the file
/// parameters.
pub open spec fn retained_tool(was: ToolInfo, now: ToolInfo) -> bool {
    &&& tool_meta(now.tool) == retained_meta(tool_meta(was.tool))
    &&& tool_without_meta(now.tool) == tool_without_meta(was.tool)
    &&& now == ToolInfo { tool: now.tool, ..was }
}

/// The entry of `meta` that lists file parameters, as metadata of its own.
pub fn filtered_openai_file_tool_meta(
    meta: Option<&serde_json::Map<String, serde_json::Value>>,
) -> (r: Option<serde_json::Map<String, serde_json::Value>>)
    ensures
        owned_entries(r) == retained_meta(opt_entries(meta)),
{
    if let Some(meta) = meta {
        if let Some(value) = object_get(meta, META_OPENAI_FILE_PARAMS) {
            let mut filtered = new_object();
            object_insert(&mut filtered, META_OPENAI_FILE_PARAMS, copy_value(value));
            return Some(filtered);
        }
    }
    None
}

/// Drops all of a tool's metadata but the list of its file parameters.
pub fn retain_openai_file_tool_meta(tool_info: ToolInfo) -> (r: ToolInfo)
    ensures
        retained_tool(tool_info, r),
{
    let mut tool_info = tool_info;
    let meta = filtered_openai_file_tool_meta(read_meta(&tool_info.tool));
    write_meta(&mut tool_info.tool, meta);
    tool_info
}

/// No two tools are filed under the same name.
pub open spec fn names_once(tools: Seq<(String, ToolInfo)>) -> bool {
    forall|i: int, j: int|
        0 <= i < j < tools.len() ==> (#[trigger] tools[i]).0@ != (#[trigger] tools[j]).0@
}

/// Drops all metadata but the lists of file parameters from tools that are
/// filed under their names. Where no name occurs twice, none does afterwards.
pub fn retain_openai_file_tool_meta_map(tools: Option<Vec<(String, ToolInfo)>>) -> (r: Option<
    Vec<(String, ToolInfo)>,
>)
    ensures
        r is Some <==> tools is Some,
        r matches Some(kept) ==> kept@.len() == tools->0@.len(),
        r matches Some(kept) ==> forall|i: int|
            0 <= i < kept@.len() ==> (#[trigger] kept@[i]).0 == tools->0@[i].0 && retained_tool(
                tools->0@[i].1,
                kept@[i].1,
            ),
        r matches Some(kept) ==> (names_once(tools->0@) <==> names_once(kept@)),
{
    match tools {
        Some(tools) => {
            let mut kept: Vec<(String, ToolInfo)> = Vec::new();
            for entry in it: tools
                invariant
                    it.seq() == tools@,
                    kept@.len() == it.index(),
                    forall|i: int|
                        0 <= i < kept@.len() ==> (#[trigger] kept@[i]).0 == tools@[i].0
                            && retained_tool(tools@[i].1, kept@[i].1),
            {
                let (name, tool_info) = entry;
                kept.push((name, retain_openai_file_tool_meta(tool_info)));
            }
            assert forall|i: int| 0 <= i < tools@.len() implies (#[trigger] tools@[i]).0
                == kept@[i].0 by {}
            Some(kept)
        },
        None => None,
    }
}

/// Masking a schema again, for the same parameters, changes nothing.
pub proof fn masking_a_schema_is_idempotent(schema: Json, file_params: Seq<Seq<char>>)
    ensures
        masked_schema(masked_schema(schema, file_params), file_params) == masked_schema(
            schema,
            file_params,
        ),
{
    let once = masked_schema(schema, file_params);
    if let Json::Object(entries) = schema {
        if let Some(Json::Object(properties)) = entries.get("properties"@) {
            let masked = masked_properties(properties, file_params);
            assert forall|name: Seq<char>| #[trigger] masked.contains_key(name) implies
                masked_properties(masked, file_params)[name] == masked[name] by {
                masking_a_property_is_idempotent(properties[name]);
            }
            assert(masked_properties(masked, file_params) =~= masked);
            assert(once == Json::Object(entries.insert("properties"@, Json::Object(masked))));
            assert(entries.insert("properties"@, Json::Object(masked)).insert(
                "properties"@,
                Json::Object(masked),
            ) =~= entries.insert("properties"@, Json::Object(masked)));
        }
    }
}

/// Masking touches no entry of a schema but its properties, and no property
/// but the file parameters.
pub proof fn masking_leaves_other_parameters_alone(
    entries: Map<Seq<char>, Json>,
    properties: Map<Seq<char>, Json>,
    file_params: Seq<Seq<char>>,
    name: Seq<char>,
)
    requires
        entries.get("properties"@) == Some(Json::Object(properties)),
    ensures
        masked_schema(Json::Object(entries), file_params) matches Json::Object(after)
            && after.get("properties"@) == Some(
            Json::Object(masked_properties(properties, file_params)),
        ),
        name != "properties"@ ==> (masked_schema(
            Json::Object(entries),
            file_params,
        ) matches Json::Object(after) && after.get(name) == entries.get(name)),
        masked_properties(properties, file_params).dom() == properties.dom(),
        !file_params.contains(name) ==> masked_properties(properties, file_params).get(name)
            == properties.get(name),
{
    assert(masked_properties(properties, file_params).dom() =~= properties.dom());
}

proof fn lemma_picked(elements: Seq<Json>, pick: spec_fn(Json) -> Option<Seq<char>>, at: int)
    requires
        0 <= at < elements.len(),
        pick(elements[at]) is Some,
    ensures
        elements.filter_map(pick).contains(pick(elements[at])->0),
    decreases elements.len(),
{
    let less = elements.drop_last();
    let name = pick(elements[at])->0;
    assert(elements == less.push(elements.last()));
    elements.lemma_filter_map_take_succ(pick, elements.len() - 1);
    assert(elements.take(elements.len() as int) == elements);
    assert(elements.take(elements.len() - 1) == less);
    let all = elements.filter_map(pick);
    if at == elements.len() - 1 {
        assert(all[all.len() - 1] == name);
    } else {
        lemma_picked(less, pick, at);
        let k = choose|k: int|
            0 <= k < less.filter_map(pick).len() && less.filter_map(pick)[k] == name;
        assert(all[k] == name);
    }
}

/// Every declared field is a top-level name that the metadata lists, and the
/// other way round.
pub proof fn declared_fields_are_listed_top_level_names(
    entries: Map<Seq<char>, Json>,
    key: Seq<char>,
    elements: Seq<Json>,
    name: Seq<char>,
)
    requires
        entries.get(key) == Some(Json::Array(elements)),
    ensures
        declared_fields(Some(entries), key).contains(name) <==> (top_level_name(name)
            && elements.contains(Json::Text(name))),
{
    let pick = |e: Json| declared_field(e);
    let fields = elements.filter_map(pick);
    if fields.contains(name) {
        elements.lemma_filter_map_contains(pick, name);
        let e = choose|e: Json| #[trigger] elements.contains(e) && pick(e) == Some(name);
        assert(e == Json::Text(name));
    }
    if top_level_name(name) && elements.contains(Json::Text(name)) {
        let at = choose|at: int| 0 <= at < elements.len() && elements[at] == Json::Text(name);
        lemma_picked(elements, pick, at);
    }
}

/// Dropping other metadata keeps the declared file parameters, and dropping
/// it again changes nothing.
pub proof fn retention_keeps_declared_file_params(meta: Option<Map<Seq<char>, Json>>)
    ensures
        declared_fields(retained_meta(meta), META_OPENAI_FILE_PARAMS@) == declared_fields(
            meta,
            META_OPENAI_FILE_PARAMS@,
        ),
        retained_meta(retained_meta(meta)) == retained_meta(meta),
{
}

/// A file parameter, whatever its schema was, as long as that is an object,
/// becomes this: a description that ends up with the guidance in it and begins
/// with the one that was there; the type of an array, of strings, if it said it
/// was one or had items, and else of a string; and nothing beside.
pub proof fn file_params_become_paths(
    entries: Map<Seq<char>, Json>,
    properties: Map<Seq<char>, Json>,
    file_params: Seq<Seq<char>>,
    name: Seq<char>,
    schema: Map<Seq<char>, Json>,
)
    requires
        entries.get("properties"@) == Some(Json::Object(properties)),
        file_params.contains(name),
        properties.get(name) == Some(Json::Object(schema)),
    ensures
        ({
            let array = schema.get("type"@) == Some(Json::Text("array"@)) || schema.contains_key(
                "items"@,
            );
            let own = match schema.get("description"@) {
                Some(Json::Text(own)) => own,
                _ => Seq::empty(),
            };
            let guidance =
                "This parameter expects an absolute local file path. If you want to upload a file, provide the absolute path to that file here."@;
            &&& masked_schema(Json::Object(entries), file_params) matches Json::Object(after)
            &&& after.get("properties"@) matches Some(Json::Object(masked))
            &&& masked.get(name) matches Some(Json::Object(shown))
            &&& shown.get("description"@) matches Some(Json::Text(description))
            &&& contains_text(description, guidance)
            &&& own.len() == 0 ==> description == guidance
            &&& own.len() > 0 ==> own.is_prefix_of(description)
            &&& own.len() > 0 && contains_text(own, guidance) ==> description == own
            &&& own.len() > 0 && !contains_text(own, guidance) ==> description == own + " "@
                + guidance
            &&& shown.get("type"@) == Some(
                Json::Text(
                    if array {
                        "array"@
                    } else {
                        "string"@
                    },
                ),
            )
            &&& array ==> (shown.get("items"@) matches Some(Json::Object(items)) && items
                == Map::<Seq<char>, Json>::empty().insert("type"@, Json::Text("string"@)))
            &&& forall|key: Seq<char>| #[trigger]
                shown.contains_key(key) <==> key == "description"@ || key == "type"@ || (key
                    == "items"@ && array)
        }),
{
    lemma_schema_keys_differ();
    let own = description_of(schema);
    let guidance = FILE_PARAM_GUIDANCE@;
    let description = guided(own);
    lemma_guided_twice(own);
    if own.len() == 0 {
        assert(guidance.subrange(0, guidance.len() as int) == guidance);
        assert(occurs_at(guidance, guidance, 0));
    } else if contains_text(own, guidance) {
        assert(own == own.subrange(0, own.len() as int));
    } else {
        let at = (own + " "@).len() as int;
        assert(description.subrange(at, at + guidance.len()) == guidance);
        assert(occurs_at(description, guidance, at));
        assert(own == description.subrange(0, own.len() as int));
    }
    let shown = masked_entries(schema);
    let masked = masked_properties(properties, file_params);
    assert(masked.get(name) == Some(Json::Object(shown)));
    assert(shown.get("description"@) == Some(Json::Text(description)));
    assert forall|key: Seq<char>| #[trigger]
        shown.contains_key(key) <==> key == "description"@ || key == "type"@ || (key == "items"@
            && is_array_schema(schema)) by {}
}

/// A property that is not an object stays as it is, named or not.
pub proof fn what_is_no_object_is_not_masked(
    entries: Map<Seq<char>, Json>,
    properties: Map<Seq<char>, Json>,
    file_params: Seq<Seq<char>>,
    name: Seq<char>,
)
    requires
        entries.get("properties"@) == Some(Json::Object(properties)),
        properties.get(name) matches Some(schema) && !(schema is Object),
    ensures
        masked_schema(Json::Object(entries), file_params) matches Json::Object(after) && (after.get(
            "properties"@,
        ) matches Some(Json::Object(masked)) && masked.get(name) == properties.get(name)),
{
}

/// A schema that is no object, or has no object of properties, stays as it is.
pub proof fn schemas_without_properties_stay(schema: Json, file_params: Seq<Seq<char>>)
    requires
        schema matches Json::Object(entries) ==> !(entries.get(
            "properties"@,
        ) matches Some(Json::Object(_))),
    ensures
        masked_schema(schema, file_params) == schema,
{
}

/// The fields that a list declares go element by element: a text that is not
/// empty and holds no dot, slash or bracket declares itself, behind those that
/// come before it; any other element declares nothing.
pub proof fn elements_declare_themselves(
    entries: Map<Seq<char>, Json>,
    key: Seq<char>,
    elements: Seq<Json>,
    element: Json,
)
    ensures
        declared_fields(Some(entries.insert(key, Json::Array(Seq::empty()))), key) == Seq::<
            Seq<char>,
        >::empty(),
        declared_fields(Some(entries.insert(key, Json::Array(elements.push(element)))), key)
            == declared_fields(Some(entries.insert(key, Json::Array(elements))), key) + (
        match element {
            Json::Text(name) => if name.len() > 0 && !name.contains('.') && !name.contains('/')
                && !name.contains('[') && !name.contains(']') {
                seq![name]
            } else {
                Seq::empty()
            },
            _ => Seq::empty(),
        }),
{
    let pick = |e: Json| declared_field(e);
    let all = elements.push(element);
    let none = Seq::<Json>::empty();
    assert(none.filter_map(pick) == Seq::<Seq<char>>::empty());
    all.lemma_filter_map_take_succ(pick, elements.len() as int);
    assert(all.take(all.len() as int) == all);
    assert(all.take(elements.len() as int) == elements);
    assert(entries.insert(key, Json::Array(none)).get(key) == Some(Json::Array(none)));
    assert(entries.insert(key, Json::Array(all)).get(key) == Some(Json::Array(all)));
    assert(entries.insert(key, Json::Array(elements)).get(key) == Some(Json::Array(elements)));
}

/// Metadata that is not there, or holds no list under the key, declares
/// nothing.
pub proof fn nothing_is_declared_without_a_list(
    meta: Option<Map<Seq<char>, Json>>,
    key: Seq<char>,
)
    requires
        meta matches Some(entries) ==> !(entries.get(key) matches Some(Json::Array(_))),
    ensures
        declared_fields(meta, key) == Seq::<Seq<char>>::empty(),
{
}

/// Of a tool's metadata exactly the entry with its file parameters is kept,
/// and nothing if there is none; nothing else of the tool changes.
pub proof fn only_file_params_are_retained(was: ToolInfo, now: ToolInfo, key: Seq<char>)
    requires
        retained_tool(was, now),
    ensures
        tool_meta(now.tool) is Some <==> (tool_meta(was.tool) matches Some(entries)
            && entries.contains_key("openai/fileParams"@)),
        tool_meta(now.tool) matches Some(kept) ==> {
            &&& kept.contains_key(key) <==> key == "openai/fileParams"@
            &&& kept["openai/fileParams"@] == tool_meta(was.tool)->0["openai/fileParams"@]
        },
        tool_without_meta(now.tool) == tool_without_meta(was.tool),
        now.server_name == was.server_name,
        now.tool_name == was.tool_name,
        now.tool_namespace == was.tool_namespace,
        now.supports_openai_file_bridge_capability == was.supports_openai_file_bridge_capability,
        now.connector_id == was.connector_id,
        now.connector_name == was.connector_name,
        now.plugin_display_names == was.plugin_display_names,
        now.connector_description == was.connector_description,
{
}

/// Masking file parameters leaves all else of a schema as it is: no property
/// comes or goes, those that are not named stay as they are, and so does
/// everything beside the properties.
pub proof fn what_is_no_file_param_stays(
    entries: Map<Seq<char>, Json>,
    properties: Map<Seq<char>, Json>,
    file_params: Seq<Seq<char>>,
    name: Seq<char>,
    key: Seq<char>,
)
    requires
        entries.get("properties"@) == Some(Json::Object(properties)),
    ensures
        masked_schema(Json::Object(entries), file_params) matches Json::Object(after) && (after.get(
            "properties"@,
        ) matches Some(Json::Object(masked)) && (masked.contains_key(name)
            <==> properties.contains_key(name)) && (!file_params.contains(name) ==> masked.get(name)
            == properties.get(name)) && (key != "properties"@ ==> after.get(key) == entries.get(
            key,
        ))),
{
}

/// Of any metadata just the entry under the key of file parameters is
/// retained, as it is; without that entry, nothing is.
pub proof fn the_list_of_file_params_is_retained(meta: Option<Map<Seq<char>, Json>>)
    ensures
        match meta {
            Some(entries) => if entries.contains_key("openai/fileParams"@) {
                retained_meta(meta) == Some(
                    map!["openai/fileParams"@ => entries["openai/fileParams"@]],
                )
            } else {
                retained_meta(meta) is None
            },
            None => retained_meta(meta) is None,
        },
        META_OPENAI_FILE_PARAMS@ == "openai/fileParams"@,
        META_OPENAI_FILE_OUTPUTS@ == "openai/fileOutputs"@,
{
    if let Some(entries) = meta {
        if entries.contains_key("openai/fileParams"@) {
            let kept = retained_meta(meta)->0;
            assert(kept == map!["openai/fileParams"@ => entries["openai/fileParams"@]]);
        }
    }
}

} // verus!
