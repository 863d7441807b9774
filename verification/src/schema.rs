//! Describing a function as a tool: from the names and kinds of its
//! parameters to the JSON schema that a model is shown.

use vstd::prelude::*;
use vstd::string::StringExecFns;
use crate::json::{map_insert, map_new, members_of, object_value, string_value, JsonValue};
use crate::text::{str_eq, trim, trimmed};
use crate::traits::{JsonSchema, JsonSchemaView, Tool, ToolView};

verus! {

/// The kinds of parameter that a schema tells apart.
#[derive(Debug, Clone, Copy, PartialEq, Eq, Structural)]
pub enum ParamKind {
    /// A whole number of any width, signed or not.
    Integer,
    /// A floating-point number.
    Number,
    /// A string.
    Text,
    /// A boolean.
    Boolean,
    /// Anything else.
    Object,
}

/// Whether `name` is the name of one of Rust's integer types.
pub open spec fn is_integer_name(name: Seq<char>) -> bool {
    ||| name == "i8"@
    ||| name == "i16"@
    ||| name == "i32"@
    ||| name == "i64"@
    ||| name == "i128"@
    ||| name == "isize"@
    ||| name == "u8"@
    ||| name == "u16"@
    ||| name == "u32"@
    ||| name == "u64"@
    ||| name == "u128"@
    ||| name == "usize"@
}

/// Whether `name` is the name of one of Rust's floating-point types: the
/// letter `f` before the width.
pub open spec fn is_float_name(name: Seq<char>) -> bool {
    name == "f"@ + "32"@ || name == "f"@ + "64"@
}

/// Whether `name` is one of the names under which Rust's strings appear.
pub open spec fn is_text_name(name: Seq<char>) -> bool {
    name == "String"@ || name == "& str"@ || name == "&'static str"@
}

impl ParamKind {
    /// The JSON type that stands for the kind in a schema.
    pub open spec fn spec_json_type(self) -> Seq<char> {
        match self {
            ParamKind::Integer => "integer"@,
            ParamKind::Number => "number"@,
            ParamKind::Text => "string"@,
            ParamKind::Boolean => "boolean"@,
            ParamKind::Object => "object"@,
        }
    }

    /// The kind of a parameter whose Rust type is written `name`.
    pub open spec fn of_type_name(name: Seq<char>) -> ParamKind {
        if is_integer_name(name) {
            ParamKind::Integer
        } else if is_float_name(name) {
            ParamKind::Number
        } else if is_text_name(name) {
            ParamKind::Text
        } else if name == "bool"@ {
            ParamKind::Boolean
        } else {
            ParamKind::Object
        }
    }

    /// The JSON type that stands for the kind in a schema.
    pub fn json_type(&self) -> (r: &'static str)
        ensures
            r@ == self.spec_json_type(),
    {
        match self {
            ParamKind::Integer => "integer",
            ParamKind::Number => "number",
            ParamKind::Text => "string",
            ParamKind::Boolean => "boolean",
            ParamKind::Object => "object",
        }
    }

    /// The kind of a parameter whose Rust type is written `name`, white space
    /// around the name aside.
    pub fn from_type_name(name: &str) -> (r: ParamKind)
        ensures
            r == Self::of_type_name(trimmed(name@)),
    {
        Self::from_trimmed_name(trim(name))
    }

    /// The kind of a parameter whose Rust type is written exactly `t`.
    pub fn from_trimmed_name(t: &str) -> (r: ParamKind)
        ensures
            r == Self::of_type_name(t@),
    {
        let mut single = "f".to_owned();
        single.append("32");
        let mut double = "f".to_owned();
        double.append("64");
        if str_eq(t, "i8") || str_eq(t, "i16") || str_eq(t, "i32") || str_eq(t, "i64") || str_eq(
            t,
            "i128",
        ) || str_eq(t, "isize") || str_eq(t, "u8") || str_eq(t, "u16") || str_eq(t, "u32")
            || str_eq(t, "u64") || str_eq(t, "u128") || str_eq(t, "usize") {
            ParamKind::Integer
        } else if str_eq(t, single.as_str()) || str_eq(t, double.as_str()) {
            ParamKind::Number
        } else if str_eq(t, "String") || str_eq(t, "& str") || str_eq(t, "&'static str") {
            ParamKind::Text
        } else if str_eq(t, "bool") {
            ParamKind::Boolean
        } else {
            ParamKind::Object
        }
    }
}

/// A parameter of a function that is offered as a tool.
#[derive(Debug)]
pub struct ToolParameter {
    /// The parameter's name.
    pub name: String,
    /// The parameter's kind.
    pub kind: ParamKind,
}

/// The content of a [`ToolParameter`].
pub struct ToolParameterView {
    pub name: Seq<char>,
    pub kind: ParamKind,
}

impl View for ToolParameter {
    type V = ToolParameterView;

    open spec fn view(&self) -> ToolParameterView {
        ToolParameterView { name: self.name@, kind: self.kind }
    }
}

impl DeepView for ToolParameter {
    type V = ToolParameterView;

    open spec fn deep_view(&self) -> ToolParameterView {
        self@
    }
}

/// The schema fragment of a parameter of the given kind: `{"type": ...}`.
pub open spec fn type_fragment(kind: ParamKind) -> JsonValue {
    JsonValue::Object(Map::empty().insert("type"@, JsonValue::String(kind.spec_json_type())))
}

/// The properties of a schema for the given parameters: for each name the
/// fragment of its kind, that of the last parameter of that name.
pub open spec fn properties_for(params: Seq<ToolParameterView>) -> Map<Seq<char>, JsonValue>
    decreases params.len(),
{
    if params.len() == 0 {
        Map::empty()
    } else {
        properties_for(params.drop_last()).insert(
            params.last().name,
            type_fragment(params.last().kind),
        )
    }
}

/// The names of the given parameters, in order.
pub open spec fn required_for(params: Seq<ToolParameterView>) -> Seq<Seq<char>> {
    Seq::new(params.len(), |i: int| params[i].name)
}

/// The schema for the given parameters: an object that has each of them as a
/// property and requires all of them.
pub open spec fn schema_for(params: Seq<ToolParameterView>) -> JsonSchemaView {
    JsonSchemaView {
        schema_type: "object"@,
        properties: Some(properties_for(params)),
        required: Some(required_for(params)),
    }
}

/// The description of a tool for which none is given.
pub open spec fn default_description(name: Seq<char>) -> Seq<char> {
    "Tool function: "@ + name
}

/// The tool that describes a function with the given name and parameters.
pub open spec fn tool_for(
    name: Seq<char>,
    description: Option<Seq<char>>,
    params: Seq<ToolParameterView>,
) -> ToolView {
    ToolView {
        name,
        description: match description {
            Some(d) => d,
            None => default_description(name),
        },
        parameters: schema_for(params),
    }
}

/// Builds the schema for the given parameters.
pub fn build_schema(params: &Vec<ToolParameter>) -> (r: JsonSchema)
    ensures
        r@ == schema_for(params.deep_view()),
{
    let ghost all = params.deep_view();
    let mut properties = map_new();
    let mut required: Vec<String> = Vec::new();
    let mut i: usize = 0;
    assert(all.take(0) =~= Seq::<ToolParameterView>::empty());
    while i < params.len()
        invariant
            i <= params@.len(),
            all == params.deep_view(),
            members_of(properties) == properties_for(all.take(i as int)),
            required@.len() == i,
            forall|j: int| 0 <= j < i ==> (#[trigger] required@[j])@ == all[j].name,
        decreases params@.len() - i,
    {
        let p = &params[i];
        proof {
            assert(all.take(i as int + 1).drop_last() =~= all.take(i as int));
            assert(all.take(i as int + 1).last() == p@);
        }
        let mut fragment = map_new();
        map_insert(&mut fragment, "type".to_owned(), string_value(p.kind.json_type().to_owned()));
        map_insert(&mut properties, p.name.clone(), object_value(fragment));
        required.push(p.name.clone());
        i = i + 1;
    }
    assert(all.take(i as int) =~= all);
    assert(required.deep_view() =~= required_for(all));
    JsonSchema {
        schema_type: "object".to_owned(),
        properties: Some(properties),
        required: Some(required),
    }
}

/// Describes a function as a tool. Without a description the tool is described
/// by its name.
pub fn describe_tool(name: String, description: Option<String>, params: &Vec<ToolParameter>) -> (r:
    Tool)
    ensures
        r@ == tool_for(name@, description.deep_view(), params.deep_view()),
{
    let description = match description {
        Some(d) => d,
        None => {
            let mut d = "Tool function: ".to_owned();
            d.append(name.as_str());
            d
        },
    };
    Tool { name, description, parameters: build_schema(params) }
}

/// A schema shows each parameter under its name with the JSON type of its
/// kind, and requires it, where no two parameters share a name. So an integer
/// parameter is marked `"integer"`, a string parameter `"string"`, and the
/// names of both are among the required ones.
pub proof fn lemma_schema_marks_kinds(params: Seq<ToolParameterView>, k: int)
    requires
        0 <= k < params.len(),
        forall|i: int, j: int|
            0 <= i < params.len() && 0 <= j < params.len() && params[i].name == params[j].name
                ==> i == j,
    ensures
        properties_for(params).contains_key(params[k].name),
        properties_for(params)[params[k].name] == JsonValue::Object(
            Map::empty().insert("type"@, JsonValue::String(params[k].kind.spec_json_type())),
        ),
        params[k].kind == ParamKind::Integer ==> params[k].kind.spec_json_type() == "integer"@,
        params[k].kind == ParamKind::Text ==> params[k].kind.spec_json_type() == "string"@,
        schema_for(params).required == Some(required_for(params)),
        required_for(params).contains(params[k].name),
    decreases params.len(),
{
    assert(required_for(params)[k] == params[k].name);
    if k < params.len() - 1 {
        let rest = params.drop_last();
        assert forall|i: int, j: int|
            0 <= i < rest.len() && 0 <= j < rest.len() && rest[i].name == rest[j].name implies i
            == j by {
            assert(params[i].name == params[j].name);
        }
        lemma_schema_marks_kinds(rest, k);
        assert(rest[k] == params[k]);
        assert(params.last().name != params[k].name);
    }
}

} // verus!
