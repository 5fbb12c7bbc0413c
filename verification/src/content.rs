//! What the server puts into its results: the answer to `initialize`, the
//! listing of the tools, and the sentence that reports a calculation.

use vstd::prelude::*;
use vstd::string::StringExecFns;
use crate::catalog::{catalog, protocol_version, server_info_value, tools_of, Tool, ToolView};
use crate::json::{members_of, values_of, Json, JsonValue};

verus! {

/// The handshake around a server's description of itself: the protocol
/// revision, the capabilities (the server offers tools, with nothing more to
/// say of them) and the description.
pub open spec fn handshake(server_info: JsonValue) -> JsonValue {
    JsonValue::Object(
        seq![
            ("protocolVersion"@, JsonValue::Text(protocol_version())),
            (
                "capabilities"@,
                JsonValue::Object(seq![("tools"@, JsonValue::Object(Seq::empty()))]),
            ),
            ("serverInfo"@, server_info),
        ],
    )
}

/// The result of `initialize`: the handshake of this server.
pub open spec fn initialize_result() -> JsonValue {
    handshake(server_info_value())
}

/// Builds the handshake around a server's description.
pub fn handshake_json(server_info: Json) -> (result: Json)
    ensures
        result@ == handshake(server_info@),
{
    let none: Vec<(String, Json)> = Vec::new();
    assert(members_of(none@) =~= Seq::empty());
    let mut capabilities: Vec<(String, Json)> = Vec::new();
    capabilities.push(Json::named("tools", Json::object(none)));
    assert(members_of(capabilities@) =~= seq![("tools"@, JsonValue::Object(Seq::empty()))]);
    let mut members: Vec<(String, Json)> = Vec::new();
    members.push(Json::named("protocolVersion", Json::text("2024-11-05")));
    members.push(Json::named("capabilities", Json::object(capabilities)));
    members.push(Json::named("serverInfo", server_info));
    assert(members_of(members@) =~= handshake(server_info@)->Object_0);
    Json::object(members)
}

/// A catalog entry as it is listed: its name, its description and its
/// schema under the key `inputSchema`.
pub open spec fn tool_value(tool: ToolView) -> JsonValue {
    JsonValue::Object(
        seq![
            ("name"@, JsonValue::Text(tool.name)),
            ("description"@, JsonValue::Text(tool.description)),
            ("inputSchema"@, tool.input_schema),
        ],
    )
}

/// Builds the listing of one catalog entry.
pub fn tool_json(tool: &Tool) -> (listed: Json)
    ensures
        listed@ == tool_value(tool@),
{
    let mut members: Vec<(String, Json)> = Vec::new();
    members.push(Json::named("name", Json::Text(tool.name.clone())));
    members.push(Json::named("description", Json::Text(tool.description.clone())));
    members.push(Json::named("inputSchema", tool.input_schema.duplicate()));
    assert(members_of(members@) =~= tool_value(tool@)->Object_0);
    Json::object(members)
}

/// The listing of some catalog entries, one for one and in their order.
pub open spec fn listing(tools: Seq<ToolView>) -> JsonValue {
    JsonValue::Object(
        seq![("tools"@, JsonValue::Array(Seq::new(tools.len(), |i: int| tool_value(tools[i]))))],
    )
}

/// The result of `tools/list`: the listing of the whole catalog.
pub open spec fn tools_list_result() -> JsonValue {
    listing(catalog())
}

/// Builds the listing of some catalog entries.
pub fn listing_json(tools: &Vec<Tool>) -> (result: Json)
    ensures
        result@ == listing(tools_of(tools@)),
{
    let ghost views = tools_of(tools@);
    let mut listed: Vec<Json> = Vec::new();
    let mut i: usize = 0;
    while i < tools.len()
        invariant
            i <= tools.len(),
            listed@.len() == i,
            forall|k: int| 0 <= k < i ==> listed@[k]@ == tool_value(tools@[k]@),
        decreases tools.len() - i,
    {
        listed.push(tool_json(&tools[i]));
        i += 1;
    }
    assert(values_of(listed@) =~= Seq::new(views.len(), |i: int| tool_value(views[i])));
    let mut members: Vec<(String, Json)> = Vec::new();
    members.push(Json::named("tools", Json::array(listed)));
    assert(members_of(members@) =~= listing(views)->Object_0);
    Json::object(members)
}

/// The result of a tool that succeeded: one piece of content, of type
/// `text`, that holds the sentence.
pub open spec fn text_content(text: Seq<char>) -> JsonValue {
    JsonValue::Object(
        seq![
            (
                "content"@,
                JsonValue::Array(
                    seq![
                        JsonValue::Object(
                            seq![
                                ("type"@, JsonValue::Text("text"@)),
                                ("text"@, JsonValue::Text(text)),
                            ],
                        ),
                    ],
                ),
            ),
        ],
    )
}

/// Wraps a sentence as the result of a tool.
pub fn text_content_json(text: String) -> (result: Json)
    ensures
        result@ == text_content(text@),
{
    let mut piece: Vec<(String, Json)> = Vec::new();
    piece.push(Json::named("type", Json::text("text")));
    piece.push(Json::named("text", Json::Text(text)));
    assert(members_of(piece@) =~= seq![
        ("type"@, JsonValue::Text("text"@)),
        ("text"@, JsonValue::Text(text@)),
    ]);
    let mut pieces: Vec<Json> = Vec::new();
    pieces.push(Json::object(piece));
    assert(values_of(pieces@) =~= text_content(text@)->Object_0[0].1->Array_0);
    let mut members: Vec<(String, Json)> = Vec::new();
    members.push(Json::named("content", Json::array(pieces)));
    assert(members_of(members@) =~= text_content(text@)->Object_0);
    Json::object(members)
}

/// The sentence that reports an addition, from the decimal renderings of
/// the operands and of their sum.
pub open spec fn sum_text(a: Seq<char>, b: Seq<char>, sum: Seq<char>) -> Seq<char> {
    a + " + "@ + b + " = "@ + sum
}

/// The sentence that reports a multiplication, from the decimal renderings
/// of the operands and of their product.
pub open spec fn product_text(a: Seq<char>, b: Seq<char>, product: Seq<char>) -> Seq<char> {
    a + " \u{d7} "@ + b + " = "@ + product
}

/// The sentence that reports a squaring, from the decimal renderings of the
/// number and of its square.
pub open spec fn square_text(number: Seq<char>, square: Seq<char>) -> Seq<char> {
    number + "\u{b2} = "@ + square
}

/// The sentence that reports a square root, from the decimal renderings of
/// the number and of its root.
pub open spec fn root_text(number: Seq<char>, root: Seq<char>) -> Seq<char> {
    "\u{221a}"@ + number + " = "@ + root
}

/// The message that refuses the square root of a number below zero, from
/// the decimal rendering of the number.
pub open spec fn negative_root_message(number: Seq<char>) -> Seq<char> {
    "Cannot calculate square root of negative number: "@ + number
}

/// Writes the sentence that reports an addition.
pub fn sum_sentence(a: &str, b: &str, sum: &str) -> (text: String)
    ensures
        text@ == sum_text(a@, b@, sum@),
{
    let mut text = a.to_owned();
    text.append(" + ");
    text.append(b);
    text.append(" = ");
    text.append(sum);
    text
}

/// Writes the sentence that reports a multiplication.
pub fn product_sentence(a: &str, b: &str, product: &str) -> (text: String)
    ensures
        text@ == product_text(a@, b@, product@),
{
    let mut text = a.to_owned();
    text.append(" \u{d7} ");
    text.append(b);
    text.append(" = ");
    text.append(product);
    text
}

/// Writes the sentence that reports a squaring.
pub fn square_sentence(number: &str, square: &str) -> (text: String)
    ensures
        text@ == square_text(number@, square@),
{
    let mut text = number.to_owned();
    text.append("\u{b2} = ");
    text.append(square);
    text
}

/// Writes the sentence that reports a square root.
pub fn root_sentence(number: &str, root: &str) -> (text: String)
    ensures
        text@ == root_text(number@, root@),
{
    let mut text = "\u{221a}".to_owned();
    text.append(number);
    text.append(" = ");
    text.append(root);
    text
}

/// Writes the message that refuses the square root of a number below zero.
pub fn negative_root_sentence(number: &str) -> (text: String)
    ensures
        text@ == negative_root_message(number@),
{
    let mut text = "Cannot calculate square root of negative number: ".to_owned();
    text.append(number);
    text
}

} // verus!
