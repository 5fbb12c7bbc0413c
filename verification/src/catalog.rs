//! The tools that the server offers, and the description it gives of itself.

use vstd::prelude::*;
use crate::json::{members_of, values_of, Json, JsonValue};

verus! {

/// The protocol revision that the server speaks.
pub open spec fn protocol_version() -> Seq<char> {
    "2024-11-05"@
}

/// What the server says of itself: its name, its version and the protocol
/// revision.
pub open spec fn server_info_value() -> JsonValue {
    JsonValue::Object(
        seq![
            ("name"@, JsonValue::Text("Calculator MCP Server"@)),
            ("version"@, JsonValue::Text("1.0.0"@)),
            ("protocolVersion"@, JsonValue::Text(protocol_version())),
        ],
    )
}

/// Builds the server's description of itself.
pub fn server_info() -> (info: Json)
    ensures
        info@ == server_info_value(),
{
    let mut members: Vec<(String, Json)> = Vec::new();
    members.push(Json::named("name", Json::text("Calculator MCP Server")));
    members.push(Json::named("version", Json::text("1.0.0")));
    members.push(Json::named("protocolVersion", Json::text("2024-11-05")));
    assert(members_of(members@) =~= server_info_value()->Object_0);
    Json::object(members)
}

/// One entry of the catalog: a tool's name, what it does, and the schema of
/// the arguments it takes.
#[derive(Debug, PartialEq)]
pub struct Tool {
    pub name: String,
    pub description: String,
    pub input_schema: Json,
}

/// The model of a catalog entry.
pub struct ToolView {
    pub name: Seq<char>,
    pub description: Seq<char>,
    pub input_schema: JsonValue,
}

impl View for Tool {
    type V = ToolView;

    open spec fn view(&self) -> ToolView {
        ToolView {
            name: self.name@,
            description: self.description@,
            input_schema: self.input_schema@,
        }
    }
}

/// The models of a sequence of catalog entries, one for one.
pub open spec fn tools_of(tools: Seq<Tool>) -> Seq<ToolView> {
    Seq::new(tools.len(), |i: int| tools[i]@)
}

/// The schema of one numeric argument with its description.
pub open spec fn number_property(description: Seq<char>) -> JsonValue {
    JsonValue::Object(
        seq![
            ("type"@, JsonValue::Text("number"@)),
            ("description"@, JsonValue::Text(description)),
        ],
    )
}

/// The schema of a tool that takes two numbers, `a` and `b`, both required.
pub open spec fn pair_schema(first: Seq<char>, second: Seq<char>) -> JsonValue {
    JsonValue::Object(
        seq![
            ("type"@, JsonValue::Text("object"@)),
            (
                "properties"@,
                JsonValue::Object(
                    seq![("a"@, number_property(first)), ("b"@, number_property(second))],
                ),
            ),
            ("required"@, JsonValue::Array(seq![JsonValue::Text("a"@), JsonValue::Text("b"@)])),
        ],
    )
}

/// The schema of a tool that takes one number, `number`, which is required.
pub open spec fn single_schema(about: Seq<char>) -> JsonValue {
    JsonValue::Object(
        seq![
            ("type"@, JsonValue::Text("object"@)),
            ("properties"@, JsonValue::Object(seq![("number"@, number_property(about))])),
            ("required"@, JsonValue::Array(seq![JsonValue::Text("number"@)])),
        ],
    )
}

/// The catalog: four tools, in the order in which they are listed.
pub open spec fn catalog() -> Seq<ToolView> {
    seq![
        ToolView {
            name: "add"@,
            description: "Add two numbers together"@,
            input_schema: pair_schema("The first number to add"@, "The second number to add"@),
        },
        ToolView {
            name: "multiply"@,
            description: "Multiply two numbers together"@,
            input_schema: pair_schema(
                "The first number to multiply"@,
                "The second number to multiply"@,
            ),
        },
        ToolView {
            name: "square"@,
            description: "Calculate the square of a number"@,
            input_schema: single_schema("The number to square"@),
        },
        ToolView {
            name: "sqrt"@,
            description: "Calculate the square root of a number"@,
            input_schema: single_schema(
                "The number to find square root of (must be non-negative)"@,
            ),
        },
    ]
}

/// Builds the schema of one numeric argument.
fn number_property_json(description: &str) -> (schema: Json)
    ensures
        schema@ == number_property(description@),
{
    let mut members: Vec<(String, Json)> = Vec::new();
    members.push(Json::named("type", Json::text("number")));
    members.push(Json::named("description", Json::text(description)));
    assert(members_of(members@) =~= number_property(description@)->Object_0);
    Json::object(members)
}

/// Builds the schema of a tool that takes `a` and `b`.
fn pair_schema_json(first: &str, second: &str) -> (schema: Json)
    ensures
        schema@ == pair_schema(first@, second@),
{
    let mut properties: Vec<(String, Json)> = Vec::new();
    properties.push(Json::named("a", number_property_json(first)));
    properties.push(Json::named("b", number_property_json(second)));
    assert(members_of(properties@) =~= seq![
        ("a"@, number_property(first@)),
        ("b"@, number_property(second@)),
    ]);
    let mut required: Vec<Json> = Vec::new();
    required.push(Json::text("a"));
    required.push(Json::text("b"));
    assert(values_of(required@) =~= seq![JsonValue::Text("a"@), JsonValue::Text("b"@)]);
    let mut members: Vec<(String, Json)> = Vec::new();
    members.push(Json::named("type", Json::text("object")));
    members.push(Json::named("properties", Json::object(properties)));
    members.push(Json::named("required", Json::array(required)));
    assert(members_of(members@) =~= pair_schema(first@, second@)->Object_0);
    Json::object(members)
}

/// Builds the schema of a tool that takes `number`.
fn single_schema_json(about: &str) -> (schema: Json)
    ensures
        schema@ == single_schema(about@),
{
    let mut properties: Vec<(String, Json)> = Vec::new();
    properties.push(Json::named("number", number_property_json(about)));
    assert(members_of(properties@) =~= seq![("number"@, number_property(about@))]);
    let mut required: Vec<Json> = Vec::new();
    required.push(Json::text("number"));
    assert(values_of(required@) =~= seq![JsonValue::Text("number"@)]);
    let mut members: Vec<(String, Json)> = Vec::new();
    members.push(Json::named("type", Json::text("object")));
    members.push(Json::named("properties", Json::object(properties)));
    members.push(Json::named("required", Json::array(required)));
    assert(members_of(members@) =~= single_schema(about@)->Object_0);
    Json::object(members)
}

/// Builds the catalog.
pub fn tools() -> (tools: Vec<Tool>)
    ensures
        tools_of(tools@) == catalog(),
{
    let mut tools: Vec<Tool> = Vec::new();
    tools.push(
        Tool {
            name: "add".to_owned(),
            description: "Add two numbers together".to_owned(),
            input_schema: pair_schema_json("The first number to add", "The second number to add"),
        },
    );
    tools.push(
        Tool {
            name: "multiply".to_owned(),
            description: "Multiply two numbers together".to_owned(),
            input_schema: pair_schema_json(
                "The first number to multiply",
                "The second number to multiply",
            ),
        },
    );
    tools.push(
        Tool {
            name: "square".to_owned(),
            description: "Calculate the square of a number".to_owned(),
            input_schema: single_schema_json("The number to square"),
        },
    );
    tools.push(
        Tool {
            name: "sqrt".to_owned(),
            description: "Calculate the square root of a number".to_owned(),
            input_schema: single_schema_json(
                "The number to find square root of (must be non-negative)",
            ),
        },
    );
    assert(tools_of(tools@) =~= catalog());
    tools
}

} // verus!
