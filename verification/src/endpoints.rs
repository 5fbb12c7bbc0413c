//! What the service sends besides answers to requests: its health report,
//! and the one event of its event stream.

use vstd::prelude::*;
use crate::content::initialize_result;
use crate::json::{members_of, Json, JsonValue, Number};
use crate::message::{JsonRpcRequest, JsonRpcResponse, RequestView, ResponseView};
use crate::server::{step_for, McpServer, StepView};

verus! {

/// The health report: the service is healthy, with its name and version.
pub open spec fn health_value() -> JsonValue {
    JsonValue::Object(
        seq![
            ("status"@, JsonValue::Text("healthy"@)),
            ("server"@, JsonValue::Text("mcp-calculator-server"@)),
            ("version"@, JsonValue::Text("1.0.0"@)),
        ],
    )
}

/// Builds the health report.
pub fn health() -> (report: Json)
    ensures
        report@ == health_value(),
{
    let mut members: Vec<(String, Json)> = Vec::new();
    members.push(Json::named("status", Json::text("healthy")));
    members.push(Json::named("server", Json::text("mcp-calculator-server")));
    members.push(Json::named("version", Json::text("1.0.0")));
    assert(members_of(members@) =~= health_value()->Object_0);
    Json::object(members)
}

/// The parameters of the request that opens an event stream: what a client
/// says of itself when it initializes.
pub open spec fn opening_params() -> JsonValue {
    JsonValue::Object(
        seq![
            ("protocolVersion"@, JsonValue::Text("2024-11-05"@)),
            ("capabilities"@, JsonValue::Object(Seq::empty())),
            (
                "clientInfo"@,
                JsonValue::Object(
                    seq![
                        ("name"@, JsonValue::Text("cursor-client"@)),
                        ("version"@, JsonValue::Text("1.0.0"@)),
                    ],
                ),
            ),
        ],
    )
}

/// The request that opens an event stream: `initialize`, with the id 1. The
/// stream answers this request and no other, whatever the client sent.
pub open spec fn opening_request_value() -> RequestView {
    RequestView {
        jsonrpc: "2.0"@,
        id: Some(JsonValue::Number(Number::PosInt(1))),
        method: "initialize"@,
        params: Some(opening_params()),
    }
}

/// Builds the request that opens an event stream.
pub fn opening_request() -> (request: JsonRpcRequest)
    ensures
        request@ == opening_request_value(),
{
    let none: Vec<(String, Json)> = Vec::new();
    assert(members_of(none@) =~= Seq::empty());
    let mut client: Vec<(String, Json)> = Vec::new();
    client.push(Json::named("name", Json::text("cursor-client")));
    client.push(Json::named("version", Json::text("1.0.0")));
    assert(members_of(client@) =~= seq![
        ("name"@, JsonValue::Text("cursor-client"@)),
        ("version"@, JsonValue::Text("1.0.0"@)),
    ]);
    let mut members: Vec<(String, Json)> = Vec::new();
    members.push(Json::named("protocolVersion", Json::text("2024-11-05")));
    members.push(Json::named("capabilities", Json::object(none)));
    members.push(Json::named("clientInfo", Json::object(client)));
    assert(members_of(members@) =~= opening_params()->Object_0);
    JsonRpcRequest {
        jsonrpc: "2.0".to_owned(),
        id: Some(Json::Number(Number::PosInt(1))),
        method: "initialize".to_owned(),
        params: Some(Json::object(members)),
    }
}

/// The events of an event stream, in the order in which they are sent: one
/// event, the answer to the opening request. After it the stream ends.
pub fn stream_events(server: &McpServer) -> (events: Vec<JsonRpcResponse>)
    ensures
        events@.len() == 1,
        step_for(opening_request_value()) == StepView::Reply(events@[0]@),
        events@[0]@ == ResponseView::success(
            Some(JsonValue::Number(Number::PosInt(1))),
            initialize_result(),
        ),
{
    let request = opening_request();
    let mut events: Vec<JsonRpcResponse> = Vec::new();
    events.push(server.handle_initialize(request.id));
    events
}

} // verus!
