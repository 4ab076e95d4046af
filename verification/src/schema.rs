//! The MCP descriptions a server offers (tools, prompts, resources) and the
//! JSON form in which it lists them.

use vstd::prelude::*;
use crate::json::{Json, JsonNumber, JsonValue, items_view, entries_view, json_get, members_get};
use crate::jsonrpc::{opt_member, push_member, push_opt_member, opt_view};

verus! {

/// The JSON schema of a tool's input.
#[derive(Debug)]
pub struct ToolInputSchema {
    /// The schema type, `"object"` for tools.
    pub schema_type: String,
    /// The schema of each property, by property name.
    pub properties: Option<Vec<(String, JsonValue)>>,
    /// The names of the required properties.
    pub required: Option<Vec<String>>,
}

/// A tool the server offers.
#[derive(Debug)]
pub struct Tool {
    pub name: String,
    pub description: Option<String>,
    pub input_schema: ToolInputSchema,
}

/// An argument that a prompt takes.
#[derive(Debug)]
pub struct PromptArgument {
    pub name: String,
    pub description: Option<String>,
    pub required: Option<bool>,
}

/// A prompt the server offers.
#[derive(Debug)]
pub struct Prompt {
    pub name: String,
    pub description: Option<String>,
    pub arguments: Option<Vec<PromptArgument>>,
}

/// A resource the server offers.
#[derive(Debug)]
pub struct Resource {
    pub uri: String,
    pub name: String,
    pub description: Option<String>,
    pub mime_type: Option<String>,
    pub size: Option<u64>,
    /// Annotations for the client, in their JSON form.
    pub annotations: Option<JsonValue>,
}

/// An optional string as an optional JSON string.
pub open spec fn opt_str_json(o: Option<String>) -> Option<Json> {
    match o {
        Some(s) => Some(Json::Str(s@)),
        None => None,
    }
}

/// JSON strings holding the given strings.
pub open spec fn strs_json(s: Seq<String>) -> Seq<Json> {
    s.map_values(|x: String| Json::Str(x@))
}

/// The JSON form of an input schema: `type`, then `properties` and
/// `required` when present.
pub open spec fn input_schema_json(s: ToolInputSchema) -> Json {
    Json::Object(
        seq![("type"@, Json::Str(s.schema_type@))] + opt_member(
            "properties"@,
            match s.properties {
                Some(ps) => Some(Json::Object(entries_view(ps@))),
                None => None,
            },
        ) + opt_member(
            "required"@,
            match s.required {
                Some(rs) => Some(Json::Array(strs_json(rs@))),
                None => None,
            },
        ),
    )
}

/// The JSON form of a tool: `name`, `description` when present, `inputSchema`.
pub open spec fn tool_json(t: Tool) -> Json {
    Json::Object(
        seq![("name"@, Json::Str(t.name@))] + opt_member("description"@, opt_str_json(t.description))
            + seq![("inputSchema"@, input_schema_json(t.input_schema))],
    )
}

/// The JSON form of a prompt argument: `name`, then `description` and
/// `required` when present.
pub open spec fn prompt_argument_json(a: PromptArgument) -> Json {
    Json::Object(
        seq![("name"@, Json::Str(a.name@))] + opt_member("description"@, opt_str_json(a.description))
            + opt_member(
            "required"@,
            match a.required {
                Some(b) => Some(Json::Bool(b)),
                None => None,
            },
        ),
    )
}

/// The JSON form of a prompt: `name`, then `description` and `arguments`
/// when present.
pub open spec fn prompt_json(p: Prompt) -> Json {
    Json::Object(
        seq![("name"@, Json::Str(p.name@))] + opt_member("description"@, opt_str_json(p.description))
            + opt_member(
            "arguments"@,
            match p.arguments {
                Some(args) => Some(Json::Array(args@.map_values(|a: PromptArgument| prompt_argument_json(a)))),
                None => None,
            },
        ),
    )
}

/// The JSON form of a resource: `uri`, `name`, then `description`,
/// `mimeType`, `size` and `annotations` when present.
pub open spec fn resource_json(r: Resource) -> Json {
    Json::Object(
        seq![("uri"@, Json::Str(r.uri@)), ("name"@, Json::Str(r.name@))] + opt_member(
            "description"@,
            opt_str_json(r.description),
        ) + opt_member("mimeType"@, opt_str_json(r.mime_type)) + opt_member(
            "size"@,
            match r.size {
                Some(n) => Some(Json::Int(n as int)),
                None => None,
            },
        ) + opt_member("annotations"@, opt_view(r.annotations)),
    )
}

/// Appends an item to an array under construction.
pub fn push_item(arr: &mut Vec<JsonValue>, value: JsonValue)
    ensures
        items_view(final(arr)@) == items_view(old(arr)@).push(value@),
{
    let ghost prev = arr@;
    arr.push(value);
    assert(arr@.drop_last() =~= prev);
}

fn opt_string_json(o: &Option<String>) -> (res: Option<JsonValue>)
    ensures
        opt_view(res) == opt_str_json(*o),
{
    match o {
        Some(s) => Some(JsonValue::String(s.clone())),
        None => None,
    }
}

fn copy_members(ps: &Vec<(String, JsonValue)>) -> (res: Vec<(String, JsonValue)>)
    ensures
        entries_view(res@) == entries_view(ps@),
{
    let mut out: Vec<(String, JsonValue)> = Vec::new();
    let mut i: usize = 0;
    while i < ps.len()
        invariant
            i <= ps@.len(),
            entries_view(out@) == entries_view(ps@.take(i as int)),
        decreases ps@.len() - i,
    {
        let v = ps[i].1.deep_clone();
        let ghost prev = out@;
        out.push((ps[i].0.clone(), v));
        assert(out@.drop_last() =~= prev);
        assert(ps@.take(i + 1).drop_last() =~= ps@.take(i as int));
        i = i + 1;
    }
    assert(ps@.take(i as int) =~= ps@);
    out
}

impl ToolInputSchema {
    /// The JSON form of the schema.
    pub fn to_json(&self) -> (res: JsonValue)
        ensures
            res@ == input_schema_json(*self),
    {
        let mut obj: Vec<(String, JsonValue)> = Vec::new();
        push_member(&mut obj, "type", JsonValue::String(self.schema_type.clone()));
        let props = match &self.properties {
            Some(ps) => Some(JsonValue::Object(copy_members(ps))),
            None => None,
        };
        push_opt_member(&mut obj, "properties", props);
        let req = match &self.required {
            Some(rs) => {
                let mut arr: Vec<JsonValue> = Vec::new();
                let mut i: usize = 0;
                while i < rs.len()
                    invariant
                        i <= rs@.len(),
                        items_view(arr@) == strs_json(rs@.take(i as int)),
                    decreases rs@.len() - i,
                {
                    push_item(&mut arr, JsonValue::String(rs[i].clone()));
                    assert(strs_json(rs@.take(i + 1)) =~= strs_json(rs@.take(i as int)).push(
                        Json::Str(rs@[i as int]@),
                    ));
                    i = i + 1;
                }
                assert(rs@.take(i as int) =~= rs@);
                Some(JsonValue::Array(arr))
            },
            None => None,
        };
        push_opt_member(&mut obj, "required", req);
        let res = JsonValue::Object(obj);
        assert(res@ =~= input_schema_json(*self));
        res
    }
}

impl Tool {
    /// The JSON form of the tool.
    pub fn to_json(&self) -> (res: JsonValue)
        ensures
            res@ == tool_json(*self),
    {
        let mut obj: Vec<(String, JsonValue)> = Vec::new();
        push_member(&mut obj, "name", JsonValue::String(self.name.clone()));
        push_opt_member(&mut obj, "description", opt_string_json(&self.description));
        push_member(&mut obj, "inputSchema", self.input_schema.to_json());
        let res = JsonValue::Object(obj);
        assert(entries_view(obj@) =~= seq![("name"@, Json::Str(self.name@))] + opt_member(
            "description"@,
            opt_str_json(self.description),
        ) + seq![("inputSchema"@, input_schema_json(self.input_schema))]);
        assert(res@ =~= tool_json(*self));
        res
    }
}

impl PromptArgument {
    /// The JSON form of the argument.
    pub fn to_json(&self) -> (res: JsonValue)
        ensures
            res@ == prompt_argument_json(*self),
    {
        let mut obj: Vec<(String, JsonValue)> = Vec::new();
        push_member(&mut obj, "name", JsonValue::String(self.name.clone()));
        push_opt_member(&mut obj, "description", opt_string_json(&self.description));
        let req = match self.required {
            Some(b) => Some(JsonValue::Bool(b)),
            None => None,
        };
        push_opt_member(&mut obj, "required", req);
        let res = JsonValue::Object(obj);
        assert(res@ =~= prompt_argument_json(*self));
        res
    }
}

impl Prompt {
    /// The JSON form of the prompt.
    pub fn to_json(&self) -> (res: JsonValue)
        ensures
            res@ == prompt_json(*self),
    {
        let mut obj: Vec<(String, JsonValue)> = Vec::new();
        push_member(&mut obj, "name", JsonValue::String(self.name.clone()));
        push_opt_member(&mut obj, "description", opt_string_json(&self.description));
        let args = match &self.arguments {
            Some(args) => {
                let mut arr: Vec<JsonValue> = Vec::new();
                let mut i: usize = 0;
                while i < args.len()
                    invariant
                        i <= args@.len(),
                        items_view(arr@) == args@.take(i as int).map_values(
                            |a: PromptArgument| prompt_argument_json(a),
                        ),
                    decreases args@.len() - i,
                {
                    push_item(&mut arr, args[i].to_json());
                    assert(args@.take(i + 1).map_values(|a: PromptArgument| prompt_argument_json(a))
                        =~= args@.take(i as int).map_values(
                        |a: PromptArgument| prompt_argument_json(a),
                    ).push(prompt_argument_json(args@[i as int])));
                    i = i + 1;
                }
                assert(args@.take(i as int) =~= args@);
                Some(JsonValue::Array(arr))
            },
            None => None,
        };
        push_opt_member(&mut obj, "arguments", args);
        let res = JsonValue::Object(obj);
        assert(res@ =~= prompt_json(*self));
        res
    }
}

impl Resource {
    /// The JSON form of the resource.
    pub fn to_json(&self) -> (res: JsonValue)
        ensures
            res@ == resource_json(*self),
    {
        let mut obj: Vec<(String, JsonValue)> = Vec::new();
        push_member(&mut obj, "uri", JsonValue::String(self.uri.clone()));
        push_member(&mut obj, "name", JsonValue::String(self.name.clone()));
        push_opt_member(&mut obj, "description", opt_string_json(&self.description));
        push_opt_member(&mut obj, "mimeType", opt_string_json(&self.mime_type));
        let size = match self.size {
            Some(n) => Some(JsonValue::Number(JsonNumber::UInt(n))),
            None => None,
        };
        push_opt_member(&mut obj, "size", size);
        let ann = match &self.annotations {
            Some(a) => Some(a.deep_clone()),
            None => None,
        };
        push_opt_member(&mut obj, "annotations", ann);
        let res = JsonValue::Object(obj);
        assert(entries_view(obj@) =~= seq![("uri"@, Json::Str(self.uri@)), ("name"@, Json::Str(self.name@))]
            + opt_member("description"@, opt_str_json(self.description)) + opt_member(
            "mimeType"@,
            opt_str_json(self.mime_type),
        ) + opt_member(
            "size"@,
            match self.size {
                Some(n) => Some(Json::Int(n as int)),
                None => None,
            },
        ) + opt_member("annotations"@, opt_view(self.annotations)));
        assert(res@ =~= resource_json(*self));
        res
    }
}

/// A tool is listed with its name, its description exactly when it has one,
/// and its input schema, whose `type` is the schema's type and whose
/// `required` names the required properties exactly when there are any.
pub proof fn lemma_tool_json_members(t: Tool)
    ensures
        json_get(tool_json(t), "name"@) == Some(Json::Str(t.name@)),
        json_get(tool_json(t), "description"@) == opt_str_json(t.description),
        json_get(tool_json(t), "inputSchema"@) == Some(input_schema_json(t.input_schema)),
        json_get(input_schema_json(t.input_schema), "type"@) == Some(Json::Str(t.input_schema.schema_type@)),
        json_get(input_schema_json(t.input_schema), "required"@) == match t.input_schema.required {
            Some(rs) => Some(Json::Array(strs_json(rs@))),
            None => None,
        },
{
    reveal_strlit("name");
    reveal_strlit("description");
    reveal_strlit("inputSchema");
    reveal_strlit("type");
    reveal_strlit("properties");
    reveal_strlit("required");
    assert("name"@[0] != "description"@[0]);
    assert("name"@[0] != "inputSchema"@[0]);
    assert("description"@[0] != "inputSchema"@[0]);
    assert("type"@[0] != "properties"@[0]);
    assert("type"@[0] != "required"@[0]);
    assert("properties"@[0] != "required"@[0]);
    reveal_with_fuel(members_get, 4);
    let es = tool_json(t)->Object_0;
    let ss = input_schema_json(t.input_schema)->Object_0;
    if t.description is Some {
        assert(es.skip(1)[0].0 == "description"@);
        assert(es.skip(1).skip(1)[0].0 == "inputSchema"@);
    } else {
        assert(es.skip(1)[0].0 == "inputSchema"@);
    }
    if t.input_schema.properties is Some {
        assert(ss.skip(1)[0].0 == "properties"@);
        if t.input_schema.required is Some {
            assert(ss.skip(1).skip(1)[0].0 == "required"@);
        }
    } else if t.input_schema.required is Some {
        assert(ss.skip(1)[0].0 == "required"@);
    }
}

} // verus!
