use mcp_server::{JsonNumber, JsonValue, McpRequest, McpServer};

fn number(n: u64) -> JsonValue {
    JsonValue::Number(JsonNumber::PosInt(n))
}

fn text(s: &str) -> JsonValue {
    JsonValue::String(s.to_string())
}

fn object(members: Vec<(&str, JsonValue)>) -> JsonValue {
    JsonValue::Object(members.into_iter().map(|(k, v)| (k.to_string(), v)).collect())
}

fn items(value: Option<&JsonValue>) -> &Vec<JsonValue> {
    match value {
        Some(JsonValue::Array(items)) => items,
        other => panic!("not an array: {:?}", other),
    }
}

fn request(id: u64, method: &str, params: Option<JsonValue>) -> McpRequest {
    McpRequest {
        jsonrpc: "2.0".to_string(),
        id: Some(number(id)),
        method: method.to_string(),
        params,
    }
}

#[test]
fn test_server_initialization() {
    let server = McpServer::new();
    let request = McpRequest {
        jsonrpc: "2.0".to_string(),
        id: Some(number(1)),
        method: "initialize".to_string(),
        params: Some(object(vec![(
            "clientInfo",
            object(vec![("name", text("test")), ("version", text("1.0"))]),
        )])),
    };

    let response = server.handle_request(request);

    assert_eq!(response.jsonrpc, "2.0");
    assert_eq!(response.id, Some(number(1)));
    assert!(response.error.is_none());

    let result = response.result.unwrap();
    assert_eq!(result.get("protocolVersion"), Some(&text("2024-11-05")));
    let server_info = result.get("serverInfo").unwrap();
    assert_eq!(server_info.get("name"), Some(&text("mcp-server")));
    assert_eq!(server_info.get("version"), Some(&text("0.1.0")));
}

#[test]
fn test_tools_list() {
    let server = McpServer::new();
    let request = request(2, "tools/list", None);

    let response = server.handle_request(request);

    assert_eq!(response.jsonrpc, "2.0");
    assert_eq!(response.id, Some(number(2)));
    assert!(response.error.is_none());

    let result = response.result.unwrap();
    let tools = items(result.get("tools"));
    assert_eq!(tools.len(), 1);
    assert_eq!(tools[0].get("name"), Some(&text("echo")));
    assert_eq!(tools[0].get("description"), Some(&text("Echo back the input text")));
}

#[test]
fn test_echo_tool_execution() {
    let server = McpServer::new();
    let request = request(
        3,
        "tools/call",
        Some(object(vec![
            ("name", text("echo")),
            ("arguments", object(vec![("text", text("Hello, World!"))])),
        ])),
    );

    let response = server.handle_request(request);

    assert_eq!(response.jsonrpc, "2.0");
    assert_eq!(response.id, Some(number(3)));
    assert!(response.error.is_none());

    let result = response.result.unwrap();
    let content = items(result.get("content"));
    assert_eq!(content.len(), 1);
    assert_eq!(content[0].get("type"), Some(&text("text")));
    assert_eq!(content[0].get("text"), Some(&text("Echo: Hello, World!")));
}

#[test]
fn test_echo_tool_without_text() {
    let server = McpServer::new();
    let request = request(
        4,
        "tools/call",
        Some(object(vec![("name", text("echo")), ("arguments", object(vec![]))])),
    );

    let response = server.handle_request(request);

    assert_eq!(response.jsonrpc, "2.0");
    assert_eq!(response.id, Some(number(4)));
    assert!(response.error.is_none());

    let result = response.result.unwrap();
    let content = items(result.get("content"));
    assert_eq!(content[0].get("text"), Some(&text("Echo: No text provided")));
}

#[test]
fn test_unknown_method_error() {
    let server = McpServer::new();
    let request = request(5, "unknown/method", None);

    let response = server.handle_request(request);

    assert_eq!(response.jsonrpc, "2.0");
    assert_eq!(response.id, Some(number(5)));
    assert!(response.result.is_none());

    let error = response.error.unwrap();
    assert_eq!(error.code, -32601);
    assert_eq!(error.message, "Method not found");
}

#[test]
fn test_unknown_tool_error() {
    let server = McpServer::new();
    let request = request(
        6,
        "tools/call",
        Some(object(vec![("name", text("unknown_tool")), ("arguments", object(vec![]))])),
    );

    let response = server.handle_request(request);

    assert_eq!(response.jsonrpc, "2.0");
    assert_eq!(response.id, Some(number(6)));
    assert!(response.result.is_none());

    let error = response.error.unwrap();
    assert_eq!(error.code, -32601);
    assert_eq!(error.message, "Tool not found");
}

#[test]
fn test_tool_call_without_params() {
    let server = McpServer::new();
    let request = request(7, "tools/call", None);

    let response = server.handle_request(request);

    assert_eq!(response.jsonrpc, "2.0");
    assert_eq!(response.id, Some(number(7)));
    assert!(response.result.is_none());

    let error = response.error.unwrap();
    assert_eq!(error.code, -32602);
    assert_eq!(error.message, "Invalid params");
}

#[test]
fn test_tool_call_without_name() {
    let server = McpServer::new();
    let request = request(
        8,
        "tools/call",
        Some(object(vec![("arguments", object(vec![("text", text("test"))]))])),
    );

    let response = server.handle_request(request);

    assert_eq!(response.jsonrpc, "2.0");
    assert_eq!(response.id, Some(number(8)));
    assert!(response.result.is_none());

    let error = response.error.unwrap();
    assert_eq!(error.code, -32602);
    assert_eq!(error.message, "Tool name required");
}

#[test]
fn test_server_creation() {
    let server = McpServer::new();
    assert_eq!(server.tools().len(), 1);
    assert!(server.tools().contains("echo"));
}

#[test]
fn test_tool_schema() {
    let server = McpServer::new();
    let echo_tool = server.tools().get("echo").unwrap();

    assert_eq!(echo_tool.name, "echo");
    assert_eq!(echo_tool.description, "Echo back the input text");

    let schema = &echo_tool.input_schema;
    assert_eq!(schema.get("type"), Some(&text("object")));
    let properties = schema.get("properties").unwrap();
    assert!(matches!(properties.get("text"), Some(JsonValue::Object(_))));
    assert_eq!(items(schema.get("required")).len(), 1);
    assert_eq!(items(schema.get("required"))[0], text("text"));
}

#[test]
fn initialize_result_is_the_whole_fixed_document() {
    let server = McpServer::new();
    let response = server.handle_request(request(1, "initialize", None));
    let expected = object(vec![
        ("protocolVersion", text("2024-11-05")),
        ("capabilities", object(vec![("tools", object(vec![]))])),
        (
            "serverInfo",
            object(vec![("name", text("mcp-server")), ("version", text("0.1.0"))]),
        ),
    ]);
    assert_eq!(response.result, Some(expected));
    assert!(response.error.is_none());
}

#[test]
fn initialize_ignores_its_params() {
    let server = McpServer::new();
    let plain = server.handle_request(request(1, "initialize", None));
    let odd = server.handle_request(request(1, "initialize", Some(text("not an object"))));
    let null = server.handle_request(request(1, "initialize", Some(JsonValue::Null)));
    assert_eq!(plain.result, odd.result);
    assert_eq!(plain.result, null.result);
    assert_eq!(
        plain.result.unwrap().get("protocolVersion"),
        Some(&text("2024-11-05"))
    );
}

#[test]
fn tools_list_holds_the_echo_descriptor_with_its_schema() {
    let server = McpServer::new();
    let response = server.handle_request(request(2, "tools/list", Some(text("ignored"))));
    let schema = object(vec![
        ("type", text("object")),
        (
            "properties",
            object(vec![(
                "text",
                object(vec![
                    ("type", text("string")),
                    ("description", text("Text to echo back")),
                ]),
            )]),
        ),
        ("required", JsonValue::Array(vec![text("text")])),
    ]);
    let expected = object(vec![(
        "tools",
        JsonValue::Array(vec![object(vec![
            ("name", text("echo")),
            ("description", text("Echo back the input text")),
            ("input_schema", schema),
        ])]),
    )]);
    assert_eq!(response.result, Some(expected));
}

#[test]
fn echo_result_is_one_text_item() {
    let server = McpServer::new();
    let response = server.handle_request(request(
        3,
        "tools/call",
        Some(object(vec![
            ("name", text("echo")),
            ("arguments", object(vec![("text", text("Hello, World!"))])),
        ])),
    ));
    let expected = object(vec![(
        "content",
        JsonValue::Array(vec![object(vec![
            ("type", text("text")),
            ("text", text("Echo: Hello, World!")),
        ])]),
    )]);
    assert_eq!(response.result, Some(expected));
}

#[test]
fn echo_falls_back_when_text_is_not_a_string() {
    let server = McpServer::new();
    let cases = vec![
        object(vec![("name", text("echo"))]),
        object(vec![("name", text("echo")), ("arguments", JsonValue::Null)]),
        object(vec![("name", text("echo")), ("arguments", text("text"))]),
        object(vec![
            ("name", text("echo")),
            ("arguments", object(vec![("text", number(7))])),
        ]),
        object(vec![
            ("name", text("echo")),
            ("arguments", object(vec![("text", JsonValue::Null)])),
        ]),
        object(vec![
            ("name", text("echo")),
            ("arguments", JsonValue::Array(vec![text("text")])),
        ]),
    ];
    for params in cases {
        let response = server.handle_request(request(4, "tools/call", Some(params)));
        let result = response.result.unwrap();
        let content = items(result.get("content"));
        assert_eq!(content.len(), 1);
        assert_eq!(content[0].get("text"), Some(&text("Echo: No text provided")));
    }
}

#[test]
fn echo_of_the_empty_text() {
    let server = McpServer::new();
    let response = server.handle_request(request(
        4,
        "tools/call",
        Some(object(vec![
            ("name", text("echo")),
            ("arguments", object(vec![("text", text(""))])),
        ])),
    ));
    let result = response.result.unwrap();
    assert_eq!(items(result.get("content"))[0].get("text"), Some(&text("Echo: ")));
}

#[test]
fn tool_name_must_be_a_string() {
    let server = McpServer::new();
    let cases = vec![
        object(vec![("name", number(1))]),
        object(vec![("name", JsonValue::Null)]),
        object(vec![]),
        JsonValue::Null,
        text("echo"),
        JsonValue::Array(vec![text("echo")]),
    ];
    for params in cases {
        let response = server.handle_request(request(8, "tools/call", Some(params)));
        assert!(response.result.is_none());
        let error = response.error.unwrap();
        assert_eq!(error.code, -32602);
        assert_eq!(error.message, "Tool name required");
        assert_eq!(error.data, None);
    }
}

#[test]
fn method_names_are_matched_exactly() {
    let server = McpServer::new();
    for method in ["Initialize", "initialize ", "tools/List", "tools", "", "tools/call/"] {
        let response = server.handle_request(request(5, method, None));
        assert!(response.result.is_none());
        let error = response.error.unwrap();
        assert_eq!(error.code, -32601);
        assert_eq!(error.message, "Method not found");
        assert_eq!(error.data, None);
    }
}

#[test]
fn the_id_is_handed_back_as_it_came() {
    let server = McpServer::new();
    let ids = vec![
        None,
        Some(JsonValue::Null),
        Some(number(0)),
        Some(JsonValue::Number(JsonNumber::NegInt(-5))),
        Some(JsonValue::Number(JsonNumber::Float(1.5f64.to_bits()))),
        Some(text("abc")),
    ];
    for method in ["initialize", "tools/list", "tools/call", "nothing"] {
        for id in &ids {
            let response = server.handle_request(McpRequest {
                jsonrpc: "1.0".to_string(),
                id: id.clone(),
                method: method.to_string(),
                params: None,
            });
            assert_eq!(&response.id, id);
            assert_eq!(response.jsonrpc, "2.0");
        }
    }
}

#[test]
fn every_response_has_exactly_one_outcome() {
    let server = McpServer::new();
    let params = vec![
        None,
        Some(JsonValue::Null),
        Some(object(vec![("name", text("echo"))])),
        Some(object(vec![("name", text("other"))])),
        Some(object(vec![("arguments", object(vec![]))])),
    ];
    for method in ["initialize", "tools/list", "tools/call", "nothing"] {
        for p in &params {
            let response = server.handle_request(McpRequest {
                jsonrpc: "2.0".to_string(),
                id: None,
                method: method.to_string(),
                params: p.clone(),
            });
            assert_ne!(response.result.is_some(), response.error.is_some());
        }
    }
}

#[test]
fn echo_is_answered_whatever_the_registry_holds() {
    let server = McpServer::new();
    assert!(!server.tools().contains("other"));
    let response = server.handle_request(request(
        9,
        "tools/call",
        Some(object(vec![("name", text("other"))])),
    ));
    assert_eq!(response.error.unwrap().message, "Tool not found");
}
