use mcp_calculator::json::{Json, Number};
use mcp_calculator::message::{JsonRpcRequest, JsonRpcResponse, INVALID_PARAMS, METHOD_NOT_FOUND};
use mcp_calculator::server::{McpServer, Pending, Step, Task};

fn double(number: Number) -> f64 {
    match number {
        Number::PosInt(u) => u as f64,
        Number::NegInt(i) => i as f64,
        Number::Float(bits) => f64::from_bits(bits),
    }
}

fn float(x: f64) -> Json {
    Json::Number(Number::Float(x.to_bits()))
}

fn text(s: &str) -> Json {
    Json::Text(s.to_string())
}

fn object(members: Vec<(&str, Json)>) -> Json {
    Json::Object(members.into_iter().map(|(k, v)| (k.to_string(), v)).collect())
}

fn call(id: Option<Json>, name: &str, arguments: Json) -> JsonRpcRequest {
    JsonRpcRequest {
        jsonrpc: "2.0".to_string(),
        id,
        method: "tools/call".to_string(),
        params: Some(object(vec![("name", text(name)), ("arguments", arguments)])),
    }
}

fn work_out(task: Task) -> (f64, f64, f64) {
    match task {
        Task::Sum { a, b } => (double(a), double(b), double(a) + double(b)),
        Task::Product { a, b } => (double(a), double(b), double(a) * double(b)),
        Task::Square { number } => (double(number), double(number), double(number) * double(number)),
        Task::Root { number } => (double(number), double(number), double(number).sqrt()),
        Task::NegativeRoot { number } => (double(number), double(number), double(number)),
    }
}

fn respond(server: &McpServer, request: JsonRpcRequest) -> JsonRpcResponse {
    match server.handle_request(request) {
        Step::Reply(response) => response,
        Step::Evaluate(pending) => {
            let (first, second, value) = work_out(pending.task);
            server.complete(pending, &first.to_string(), &second.to_string(), &value.to_string())
        }
    }
}

fn content_text(response: &JsonRpcResponse) -> String {
    let result = response.result.as_ref().expect("a result");
    let pieces = match result.get("content") {
        Some(Json::Array(pieces)) => pieces,
        other => panic!("content is {:?}", other),
    };
    assert_eq!(pieces.len(), 1);
    assert_eq!(pieces[0].get("type"), Some(&text("text")));
    match pieces[0].get("text") {
        Some(Json::Text(t)) => t.clone(),
        other => panic!("text is {:?}", other),
    }
}

fn error_of(response: &JsonRpcResponse) -> (i32, String) {
    assert!(response.result.is_none());
    let error = response.error.as_ref().expect("an error");
    assert!(error.data.is_none());
    (error.code, error.message.clone())
}

#[test]
fn test_addition_tool() {
    let server = McpServer::new();

    let request = JsonRpcRequest {
        jsonrpc: "2.0".to_string(),
        id: Some(Json::Number(Number::PosInt(1))),
        method: "tools/call".to_string(),
        params: Some(object(vec![
            ("name", text("add")),
            ("arguments", object(vec![("a", float(5.0)), ("b", float(3.0))])),
        ])),
    };

    let response = respond(&server, request);
    assert!(response.error.is_none());
    assert!(response.result.is_some());
}

#[test]
fn test_multiplication_tool() {
    let server = McpServer::new();

    let request = JsonRpcRequest {
        jsonrpc: "2.0".to_string(),
        id: Some(Json::Number(Number::PosInt(1))),
        method: "tools/call".to_string(),
        params: Some(object(vec![
            ("name", text("multiply")),
            ("arguments", object(vec![("a", float(4.0)), ("b", float(3.0))])),
        ])),
    };

    let response = respond(&server, request);
    assert!(response.error.is_none());
    assert!(response.result.is_some());
}

#[test]
fn test_tools_list() {
    let server = McpServer::new();

    let request = JsonRpcRequest {
        jsonrpc: "2.0".to_string(),
        id: Some(Json::Number(Number::PosInt(1))),
        method: "tools/list".to_string(),
        params: None,
    };

    let response = respond(&server, request);
    assert!(response.error.is_none());
    assert!(response.result.is_some());
}

#[test]
fn add_five_and_three() {
    let server = McpServer::new();
    let id = Some(Json::Number(Number::PosInt(1)));
    let arguments = object(vec![
        ("a", Json::Number(Number::PosInt(5))),
        ("b", Json::Number(Number::PosInt(3))),
    ]);
    let response = respond(&server, call(id, "add", arguments));
    let expected = JsonRpcResponse {
        jsonrpc: "2.0".to_string(),
        id: Some(Json::Number(Number::PosInt(1))),
        result: Some(object(vec![(
            "content",
            Json::Array(vec![object(vec![("type", text("text")), ("text", text("5 + 3 = 8"))])]),
        )])),
        error: None,
    };
    assert_eq!(response, expected);
}

#[test]
fn sqrt_of_minus_four_is_refused() {
    let server = McpServer::new();
    let arguments = object(vec![("number", Json::Number(Number::NegInt(-4)))]);
    let request = JsonRpcRequest {
        jsonrpc: String::new(),
        id: None,
        method: "tools/call".to_string(),
        params: Some(object(vec![("name", text("sqrt")), ("arguments", arguments)])),
    };
    let response = respond(&server, request);
    let (code, message) = error_of(&response);
    assert_eq!(code, -32602);
    assert!(message.contains("-4"));
    assert_eq!(message, "Cannot calculate square root of negative number: -4");
    assert_eq!(response.jsonrpc, "2.0");
    assert_eq!(response.id, None);
}

#[test]
fn addition_asks_for_the_sum_of_the_operands_as_given() {
    let server = McpServer::new();
    let arguments = object(vec![("a", float(1.5)), ("b", Json::Number(Number::NegInt(-2)))]);
    let step = server.handle_request(call(Some(text("q")), "add", arguments));
    match step {
        Step::Evaluate(pending) => {
            assert_eq!(pending.id, Some(text("q")));
            assert_eq!(
                pending.task,
                Task::Sum { a: Number::Float(1.5f64.to_bits()), b: Number::NegInt(-2) }
            );
        }
        other => panic!("not evaluated: {:?}", other),
    }
}

#[test]
fn addition_of_fractions() {
    let server = McpServer::new();
    let arguments = object(vec![("a", float(0.1)), ("b", float(0.2))]);
    let response = respond(&server, call(None, "add", arguments));
    assert!(response.error.is_none());
    assert_eq!(content_text(&response), "0.1 + 0.2 = 0.30000000000000004");
}

#[test]
fn multiplication_of_four_and_three() {
    let server = McpServer::new();
    let arguments = object(vec![("a", float(4.0)), ("b", float(3.0))]);
    let response = respond(&server, call(None, "multiply", arguments));
    assert!(response.error.is_none());
    assert_eq!(content_text(&response), "4 \u{d7} 3 = 12");
}

#[test]
fn multiplication_with_a_negative_fraction() {
    let server = McpServer::new();
    let arguments = object(vec![("a", float(-2.5)), ("b", Json::Number(Number::PosInt(4)))]);
    let response = respond(&server, call(None, "multiply", arguments));
    assert_eq!(content_text(&response), "-2.5 \u{d7} 4 = -10");
}

#[test]
fn square_of_seven() {
    let server = McpServer::new();
    let arguments = object(vec![("number", float(7.0))]);
    let response = respond(&server, call(None, "square", arguments));
    assert!(response.error.is_none());
    assert_eq!(content_text(&response), "7\u{b2} = 49");
}

#[test]
fn square_of_a_negative_number() {
    let server = McpServer::new();
    let arguments = object(vec![("number", float(-1.5))]);
    let response = respond(&server, call(None, "square", arguments));
    assert_eq!(content_text(&response), "-1.5\u{b2} = 2.25");
}

#[test]
fn sqrt_of_sixteen() {
    let server = McpServer::new();
    let arguments = object(vec![("number", float(16.0))]);
    let response = respond(&server, call(None, "sqrt", arguments));
    assert!(response.error.is_none());
    assert_eq!(content_text(&response), "\u{221a}16 = 4");
}

#[test]
fn sqrt_of_two() {
    let server = McpServer::new();
    let arguments = object(vec![("number", Json::Number(Number::PosInt(2)))]);
    let response = respond(&server, call(None, "sqrt", arguments));
    assert_eq!(content_text(&response), "\u{221a}2 = 1.4142135623730951");
}

#[test]
fn sqrt_of_zero_and_of_negative_zero() {
    let server = McpServer::new();
    let response = respond(&server, call(None, "sqrt", object(vec![("number", float(0.0))])));
    assert_eq!(content_text(&response), "\u{221a}0 = 0");
    let response = respond(&server, call(None, "sqrt", object(vec![("number", float(-0.0))])));
    assert!(response.error.is_none());
    assert_eq!(content_text(&response), "\u{221a}-0 = -0");
}

#[test]
fn sqrt_of_a_negative_fraction_is_refused() {
    let server = McpServer::new();
    let step = server.handle_request(call(None, "sqrt", object(vec![("number", float(-0.25))])));
    match &step {
        Step::Evaluate(pending) => {
            assert_eq!(pending.task, Task::NegativeRoot { number: Number::Float((-0.25f64).to_bits()) })
        }
        other => panic!("not refused: {:?}", other),
    }
    let response = respond(&server, call(None, "sqrt", object(vec![("number", float(-0.25))])));
    let (code, message) = error_of(&response);
    assert_eq!(code, INVALID_PARAMS);
    assert_eq!(message, "Cannot calculate square root of negative number: -0.25");
}

#[test]
fn unknown_method_is_not_found() {
    let server = McpServer::new();
    let request = JsonRpcRequest {
        jsonrpc: "2.0".to_string(),
        id: Some(text("abc")),
        method: "foo/bar".to_string(),
        params: Some(object(vec![("name", text("add"))])),
    };
    let response = respond(&server, request);
    let (code, message) = error_of(&response);
    assert_eq!(code, -32601);
    assert_eq!(code, METHOD_NOT_FOUND);
    assert_eq!(message, "Method not found");
    assert_eq!(response.id, Some(text("abc")));
    assert_eq!(response.jsonrpc, "2.0");
}

#[test]
fn method_names_are_matched_exactly() {
    let server = McpServer::new();
    for method in ["Initialize", "initialize ", "tools/list/", "tools", "", "tools/Call"] {
        let request = JsonRpcRequest {
            jsonrpc: "2.0".to_string(),
            id: None,
            method: method.to_string(),
            params: None,
        };
        let (code, _) = error_of(&respond(&server, request));
        assert_eq!(code, -32601);
    }
}

#[test]
fn unknown_tool_is_refused() {
    let server = McpServer::new();
    let arguments = object(vec![("a", float(6.0)), ("b", float(3.0))]);
    let response = respond(&server, call(Some(Json::Number(Number::PosInt(9))), "divide", arguments));
    let (code, message) = error_of(&response);
    assert_eq!(code, -32602);
    assert!(message.contains("Unknown tool"));
    assert_eq!(message, "Unknown tool");
    assert_eq!(response.id, Some(Json::Number(Number::PosInt(9))));
}

#[test]
fn call_without_params_is_refused() {
    let server = McpServer::new();
    let request = JsonRpcRequest {
        jsonrpc: "2.0".to_string(),
        id: Some(Json::Number(Number::PosInt(3))),
        method: "tools/call".to_string(),
        params: None,
    };
    let response = respond(&server, request);
    let (code, message) = error_of(&response);
    assert_eq!(code, -32602);
    assert_eq!(message, "Invalid params");
}

#[test]
fn params_of_the_wrong_shape_are_refused() {
    let server = McpServer::new();
    let cases: Vec<(Json, &str)> = vec![
        (Json::Null, "Invalid params: expected an object"),
        (text("add"), "Invalid params: expected an object"),
        (Json::Array(vec![text("add"), object(vec![])]), "Invalid params: expected an object"),
        (object(vec![]), "Invalid params: missing field `name`"),
        (object(vec![("arguments", object(vec![]))]), "Invalid params: missing field `name`"),
        (
            object(vec![("name", Json::Number(Number::PosInt(5)))]),
            "Invalid params: field `name` is not a string",
        ),
        (object(vec![("name", text("add"))]), "Invalid params: missing field `arguments`"),
    ];
    for (params, expected) in cases {
        let request = JsonRpcRequest {
            jsonrpc: "2.0".to_string(),
            id: None,
            method: "tools/call".to_string(),
            params: Some(params),
        };
        let (code, message) = error_of(&respond(&server, request));
        assert_eq!(code, -32602);
        assert_eq!(message, expected);
    }
}

#[test]
fn arguments_of_the_wrong_shape_are_refused_by_each_tool() {
    let server = McpServer::new();
    let cases: Vec<(&str, Json, &str)> = vec![
        ("add", Json::Null, "Invalid add parameters: expected an object"),
        ("add", object(vec![("b", float(1.0))]), "Invalid add parameters: missing field `a`"),
        ("add", object(vec![("a", float(1.0))]), "Invalid add parameters: missing field `b`"),
        (
            "add",
            object(vec![("a", text("1")), ("b", float(1.0))]),
            "Invalid add parameters: field `a` is not a number",
        ),
        (
            "multiply",
            Json::Array(vec![float(1.0), float(2.0)]),
            "Invalid multiply parameters: expected an object",
        ),
        (
            "multiply",
            object(vec![("a", float(1.0)), ("b", Json::Bool(true))]),
            "Invalid multiply parameters: field `b` is not a number",
        ),
        ("square", object(vec![]), "Invalid square parameters: missing field `number`"),
        (
            "square",
            object(vec![("number", Json::Null)]),
            "Invalid square parameters: field `number` is not a number",
        ),
        ("sqrt", text("4"), "Invalid sqrt parameters: expected an object"),
        (
            "sqrt",
            object(vec![("a", float(4.0))]),
            "Invalid sqrt parameters: missing field `number`",
        ),
    ];
    for (name, arguments, expected) in cases {
        let (code, message) = error_of(&respond(&server, call(None, name, arguments)));
        assert_eq!(code, -32602);
        assert_eq!(message, expected);
    }
}

#[test]
fn members_that_are_not_asked_for_are_ignored() {
    let server = McpServer::new();
    let arguments = object(vec![("c", text("x")), ("b", float(2.0)), ("a", float(1.0))]);
    let request = JsonRpcRequest {
        jsonrpc: "2.0".to_string(),
        id: None,
        method: "tools/call".to_string(),
        params: Some(object(vec![
            ("arguments", arguments),
            ("extra", Json::Bool(false)),
            ("name", text("add")),
        ])),
    };
    let response = respond(&server, request);
    assert_eq!(content_text(&response), "1 + 2 = 3");
}

#[test]
fn initialize_gives_the_handshake() {
    let server = McpServer::new();
    let request = JsonRpcRequest {
        jsonrpc: "2.0".to_string(),
        id: Some(Json::Number(Number::PosInt(1))),
        method: "initialize".to_string(),
        params: Some(object(vec![("protocolVersion", text("1999-01-01"))])),
    };
    let response = respond(&server, request);
    assert!(response.error.is_none());
    assert_eq!(response.id, Some(Json::Number(Number::PosInt(1))));
    let result = response.result.expect("a result");
    assert_eq!(result.get("protocolVersion"), Some(&text("2024-11-05")));
    assert_eq!(
        result.get("capabilities"),
        Some(&object(vec![("tools", object(vec![]))]))
    );
    let info = result.get("serverInfo").expect("serverInfo");
    assert_ne!(info, &Json::Null);
    assert_eq!(
        info,
        &object(vec![
            ("name", text("Calculator MCP Server")),
            ("version", text("1.0.0")),
            ("protocolVersion", text("2024-11-05")),
        ])
    );
    assert_eq!(info, server.server_info());
}

#[test]
fn initialize_ignores_its_params() {
    let server = McpServer::new();
    let with = JsonRpcRequest {
        jsonrpc: "2.0".to_string(),
        id: None,
        method: "initialize".to_string(),
        params: Some(Json::Bool(true)),
    };
    let without = JsonRpcRequest {
        jsonrpc: "2.0".to_string(),
        id: None,
        method: "initialize".to_string(),
        params: None,
    };
    assert_eq!(respond(&server, with), respond(&server, without));
}

#[test]
fn tools_list_gives_the_four_tools_in_order() {
    let server = McpServer::new();
    let request = JsonRpcRequest {
        jsonrpc: "2.0".to_string(),
        id: None,
        method: "tools/list".to_string(),
        params: Some(Json::Null),
    };
    let response = respond(&server, request);
    let result = response.result.expect("a result");
    let listed = match result.get("tools") {
        Some(Json::Array(listed)) => listed,
        other => panic!("tools is {:?}", other),
    };
    assert_eq!(listed.len(), 4);
    let names: Vec<&Json> = listed.iter().map(|t| t.get("name").expect("name")).collect();
    assert_eq!(names, vec![&text("add"), &text("multiply"), &text("square"), &text("sqrt")]);
    for tool in listed {
        assert!(matches!(tool.get("description"), Some(Json::Text(_))));
        let schema = tool.get("inputSchema").expect("inputSchema");
        assert_eq!(schema.get("type"), Some(&text("object")));
        let required = match schema.get("required") {
            Some(Json::Array(required)) => required,
            other => panic!("required is {:?}", other),
        };
        let properties = schema.get("properties").expect("properties");
        assert!(matches!(properties, Json::Object(_)));
        assert!(!required.is_empty());
        for name in required {
            let name = match name {
                Json::Text(name) => name,
                other => panic!("required name is {:?}", other),
            };
            let property = properties.get(name).expect("a property");
            assert_eq!(property.get("type"), Some(&text("number")));
            assert!(matches!(property.get("description"), Some(Json::Text(_))));
        }
    }
}

#[test]
fn the_schema_of_add_is_written_out() {
    let server = McpServer::new();
    let tools = server.tools();
    assert_eq!(tools.len(), 4);
    assert_eq!(tools[0].name, "add");
    assert_eq!(tools[0].description, "Add two numbers together");
    assert_eq!(
        tools[0].input_schema,
        object(vec![
            ("type", text("object")),
            (
                "properties",
                object(vec![
                    (
                        "a",
                        object(vec![
                            ("type", text("number")),
                            ("description", text("The first number to add")),
                        ])
                    ),
                    (
                        "b",
                        object(vec![
                            ("type", text("number")),
                            ("description", text("The second number to add")),
                        ])
                    ),
                ])
            ),
            ("required", Json::Array(vec![text("a"), text("b")])),
        ])
    );
    assert_eq!(tools[3].name, "sqrt");
    assert_eq!(
        tools[3].input_schema.get("properties").and_then(|p| p.get("number")),
        Some(&object(vec![
            ("type", text("number")),
            (
                "description",
                text("The number to find square root of (must be non-negative)")
            ),
        ]))
    );
}

#[test]
fn every_response_holds_exactly_one_of_result_and_error() {
    let server = McpServer::new();
    let requests = vec![
        call(None, "add", object(vec![("a", float(1.0)), ("b", float(2.0))])),
        call(None, "add", Json::Null),
        call(None, "sqrt", object(vec![("number", float(-1.0))])),
        call(None, "sqrt", object(vec![("number", float(1.0))])),
        call(None, "nothing", Json::Null),
        JsonRpcRequest {
            jsonrpc: "1.0".to_string(),
            id: None,
            method: "initialize".to_string(),
            params: None,
        },
        JsonRpcRequest {
            jsonrpc: "2.0".to_string(),
            id: None,
            method: "tools/list".to_string(),
            params: None,
        },
        JsonRpcRequest {
            jsonrpc: "2.0".to_string(),
            id: None,
            method: "other".to_string(),
            params: None,
        },
    ];
    for request in requests {
        let response = respond(&server, request);
        assert_eq!(response.jsonrpc, "2.0");
        assert_ne!(response.result.is_some(), response.error.is_some());
    }
}

#[test]
fn the_id_is_handed_back_as_it_came() {
    let server = McpServer::new();
    let ids = vec![
        None,
        Some(Json::Null),
        Some(Json::Number(Number::PosInt(7))),
        Some(Json::Number(Number::Float(1.5f64.to_bits()))),
        Some(text("seven")),
        Some(object(vec![("nested", Json::Array(vec![Json::Bool(true)]))])),
    ];
    for id in ids {
        let copy = id.as_ref().map(|j| j.duplicate());
        let arguments = object(vec![("number", float(3.0))]);
        let response = respond(&server, call(id, "square", arguments));
        assert_eq!(response.id, copy);
    }
}

#[test]
fn complete_ends_each_task_in_its_own_way() {
    let server = McpServer::new();
    let n = Number::PosInt(0);
    let id = || Some(text("id"));
    let cases: Vec<(Task, Result<&str, &str>)> = vec![
        (Task::Sum { a: n, b: n }, Ok("F + S = V")),
        (Task::Product { a: n, b: n }, Ok("F \u{d7} S = V")),
        (Task::Square { number: n }, Ok("F\u{b2} = V")),
        (Task::Root { number: n }, Ok("\u{221a}F = V")),
        (
            Task::NegativeRoot { number: n },
            Err("Cannot calculate square root of negative number: F"),
        ),
    ];
    for (task, expected) in cases {
        let response = server.complete(Pending { id: id(), task }, "F", "S", "V");
        assert_eq!(response.jsonrpc, "2.0");
        assert_eq!(response.id, id());
        match expected {
            Ok(sentence) => {
                assert!(response.error.is_none());
                assert_eq!(content_text(&response), sentence);
            }
            Err(message) => assert_eq!(error_of(&response), (-32602, message.to_string())),
        }
    }
}

#[test]
fn complete_agrees_with_the_result_of_each_tool() {
    let server = McpServer::new();
    let n = Number::NegInt(-1);
    let pending = |task| Pending { id: Some(Json::Bool(true)), task };
    let id = || Some(Json::Bool(true));
    assert_eq!(
        server.complete(pending(Task::Sum { a: n, b: n }), "1", "2", "3"),
        server.addition_result(id(), "1", "2", "3")
    );
    assert_eq!(
        server.complete(pending(Task::Product { a: n, b: n }), "1", "2", "3"),
        server.multiplication_result(id(), "1", "2", "3")
    );
    assert_eq!(
        server.complete(pending(Task::Square { number: n }), "1", "2", "3"),
        server.square_result(id(), "1", "3")
    );
    assert_eq!(
        server.complete(pending(Task::Root { number: n }), "1", "2", "3"),
        server.sqrt_result(id(), "1", "3")
    );
    assert_eq!(
        server.complete(pending(Task::NegativeRoot { number: n }), "1", "2", "3"),
        server.negative_sqrt_error(id(), "1")
    );
}

#[test]
fn addition_without_b_is_refused_under_the_name_of_the_tool() {
    let server = McpServer::new();
    let id = Some(Json::Number(Number::PosInt(3)));
    let arguments = object(vec![("a", Json::Number(Number::PosInt(5)))]);
    match server.handle_addition(id, arguments) {
        Step::Reply(response) => {
            let (code, message) = error_of(&response);
            assert_eq!(code, -32602);
            assert!(message.starts_with("Invalid add parameters: "));
            assert_eq!(response.id, Some(Json::Number(Number::PosInt(3))));
        }
        other => panic!("not refused: {:?}", other),
    }
}

#[test]
fn multiplication_without_b_is_refused_under_the_name_of_the_tool() {
    let server = McpServer::new();
    let arguments = object(vec![("a", Json::Number(Number::PosInt(2)))]);
    match server.handle_multiplication(None, arguments) {
        Step::Reply(response) => {
            let (code, message) = error_of(&response);
            assert_eq!(code, -32602);
            assert!(message.starts_with("Invalid multiply parameters: "));
            assert_eq!(response.id, None);
        }
        other => panic!("not refused: {:?}", other),
    }
}

#[test]
fn every_tool_is_refused_under_its_own_name() {
    let server = McpServer::new();
    for name in ["add", "multiply", "square", "sqrt"] {
        let (code, message) = error_of(&respond(&server, call(None, name, Json::Bool(false))));
        assert_eq!(code, -32602);
        assert_eq!(message, format!("Invalid {} parameters: expected an object", name));
    }
}
