//! What the broker and its clients say to each other, and the tool service.

use leepanel::json::Json;
use leepanel::json_text::compact_json;
use leepanel::protocol::{
    audit_entry, find_broker, finish_request, new_discovery, new_token, receive_request,
    request_value, stored_success, take_reply, token_of, BrokerDiscovery, BrokerRequest, BrokerResponse,
    DiscoveryRead, Reply, DISCOVERY_FILE, MAX_REQUEST_BYTES,
};
use leepanel::rpc::{finish_call, handle_line, json_rpc_error, McpAction};
use leepanel::tools::{tool_definitions, tool_to_broker_method};

fn request(token: &str) -> BrokerRequest {
    BrokerRequest {
        token: token.to_string(),
        method: "read_file".to_string(),
        params: Json::object().with("profile_id", Json::text("p")).with("path", Json::text("/x")),
    }
}

fn printed(value: &Json) -> String {
    compact_json(value).unwrap()
}

#[test]
fn tokens_are_random_hexadecimal_digits() {
    let token = new_token();
    assert_eq!(token.len(), 64);
    assert!(token.chars().all(|c| c.is_ascii_digit() || ('a'..='f').contains(&c)));
    assert_eq!(&token[12..13], "4");
    assert_eq!(&token[44..45], "4");
    assert_ne!(token, new_token());
    assert_ne!(token[..32], token[32..]);
    assert_eq!(token_of("ab", "cd"), "abcd");
}

#[test]
fn a_broker_is_found_where_it_was_published() {
    let discovery = new_discovery(4711, 12);
    assert_eq!((discovery.version, discovery.port, discovery.pid), (1, 4711, 12));
    assert_eq!(discovery.host, "127.0.0.1");
    let token = discovery.token.clone();
    let found = find_broker(DiscoveryRead::Found(discovery)).unwrap();
    assert_eq!(found.token, token);
    assert_eq!(
        printed(&request_value(&found, "list_sites", Json::object())),
        format!("{{\"method\":\"list_sites\",\"params\":{{}},\"token\":\"{}\"}}", token)
    );
    assert_eq!(DISCOVERY_FILE, "mcp-runtime.json");
    assert_eq!(MAX_REQUEST_BYTES, 1024 * 1024);
}

#[test]
fn unusable_brokers_are_not_asked() {
    let invalid = "LeePanel AI Broker discovery data is invalid. Restart LeePanel.".to_string();
    assert_eq!(
        find_broker(DiscoveryRead::Missing),
        Err("LeePanel AI Broker is not running. Start LeePanel first.".to_string())
    );
    assert_eq!(find_broker(DiscoveryRead::Malformed), Err(invalid.clone()));
    for (version, host) in [(2, "127.0.0.1"), (1, "10.0.0.1")] {
        let discovery = BrokerDiscovery {
            version,
            host: host.to_string(),
            port: 1,
            token: String::new(),
            pid: 1,
        };
        assert_eq!(find_broker(DiscoveryRead::Found(discovery)), Err(invalid.clone()));
    }
}

#[test]
fn requests_without_the_secret_are_refused() {
    let response = receive_request(request("wrong"), "right").unwrap_err();
    assert_eq!(
        response,
        BrokerResponse {
            ok: false,
            result: None,
            error: Some("Unauthorized LeePanel AI Broker request".to_string())
        }
    );
    let accepted = receive_request(request("right"), "right").unwrap();
    assert_eq!(accepted.method, "read_file");
    assert_eq!(accepted.profile_id, "p");
    assert_eq!(accepted.target, "/x");
}

#[test]
fn outcomes_are_sent_and_recorded() {
    let accepted = receive_request(request("t"), "t").unwrap();
    let (response, record) = finish_request(accepted, Ok(Json::text("content")));
    assert_eq!(record.message, "success");
    assert!(record.success);
    assert_eq!(take_reply(Reply::Response(response)), Ok(Json::text("content")));
    let accepted = receive_request(request("t"), "t").unwrap();
    let (response, record) = finish_request(accepted, Err("e".repeat(600)));
    assert_eq!(record.message, "e".repeat(500));
    assert!(!record.success);
    assert_eq!(
        (record.profile_id.as_str(), record.method.as_str(), record.target.as_str()),
        ("p", "read_file", "/x")
    );
    assert_eq!(take_reply(Reply::Response(response)), Err("e".repeat(600)));
}

#[test]
fn replies_that_do_not_come_are_errors() {
    let errors = [
        (Reply::Unreachable, "LeePanel AI Broker is not reachable. Start or restart LeePanel."),
        (Reply::SendFailed("broken pipe".to_string()), "broken pipe"),
        (Reply::ReadFailed("timeout".to_string()), "LeePanel AI Broker response failed: timeout"),
        (Reply::Malformed, "LeePanel AI Broker returned an invalid response. Restart LeePanel."),
        (
            Reply::Response(BrokerResponse { ok: false, result: None, error: None }),
            "LeePanel AI Broker request failed",
        ),
    ];
    for (reply, message) in errors {
        assert_eq!(take_reply(reply), Err(message.to_string()));
    }
    let empty = BrokerResponse { ok: true, result: None, error: None };
    assert_eq!(take_reply(Reply::Response(empty)), Ok(Json::Null));
}

#[test]
fn records_are_read_back() {
    for success in [true, false] {
        let text = |t: &str| t.to_string();
        let record = (text("p"), text("m"), text("t"), stored_success(success), text("x"));
        let entry = audit_entry(7, "today".to_string(), record);
        assert_eq!(entry.success, success);
        assert_eq!(entry.id, 7);
        assert_eq!(entry.target, "t");
    }
}

fn answer(line: &str) -> String {
    match handle_line(line, "1.2.3") {
        McpAction::Respond(response) => printed(&response),
        other => panic!("{:?}", other),
    }
}

#[test]
fn lines_are_answered_by_their_method() {
    assert_eq!(
        answer("{\"id\": 1, \"method\": \"ping\"}"),
        "{\"id\":1,\"jsonrpc\":\"2.0\",\"result\":{}}"
    );
    assert_eq!(
        answer("{\"id\": \"a\", \"method\": \"initialize\"}"),
        "{\"id\":\"a\",\"jsonrpc\":\"2.0\",\"result\":{\"capabilities\":{\"tools\":{\"listChanged\":false}},\"protocolVersion\":\"2025-06-18\",\"serverInfo\":{\"name\":\"leepanel\",\"version\":\"1.2.3\"}}}"
    );
    assert_eq!(
        answer("{\"id\": 2, \"method\": \"resources/list\"}"),
        "{\"error\":{\"code\":-32601,\"message\":\"Method not found: resources/list\"},\"id\":2,\"jsonrpc\":\"2.0\"}"
    );
    assert_eq!(
        answer("{\"id\": null}"),
        "{\"error\":{\"code\":-32601,\"message\":\"Method not found: \"},\"id\":null,\"jsonrpc\":\"2.0\"}"
    );
    assert_eq!(
        answer("{\"id\": 3, \"method\": \"tools/call\", \"params\": {\"name\": \"rm\"}}"),
        "{\"error\":{\"code\":-32602,\"message\":\"Unknown LeePanel tool: rm\"},\"id\":3,\"jsonrpc\":\"2.0\"}"
    );
    assert!(answer("{\"id\": 4, \"method\": \"tools/list\"}").contains("leepanel_read_file"));
}

#[test]
fn lines_that_are_no_requests_are_not_served() {
    assert_eq!(handle_line("  \t", "1"), McpAction::Ignore);
    assert_eq!(handle_line("{\"method\": \"ping\"}", "1"), McpAction::Ignore);
    assert_eq!(handle_line("[1]", "1"), McpAction::Ignore);
    assert_eq!(
        answer("{"),
        "{\"error\":{\"code\":-32700,\"message\":\"EOF while parsing an object at line 1 column 1\"},\"id\":null,\"jsonrpc\":\"2.0\"}"
    );
}

#[test]
fn tools_are_called_through_the_broker() {
    let line = "{\"id\": 5, \"method\": \"tools/call\", \"params\": {\"name\": \"leepanel_list_sites\", \"arguments\": {\"profile_id\": \"p\"}}}";
    let (id, method, arguments) = match handle_line(line, "1") {
        McpAction::Ask { id, method, arguments } => (id, method, arguments),
        other => panic!("{:?}", other),
    };
    assert_eq!(method, "list_sites");
    assert_eq!(arguments.get_str("profile_id"), Some("p"));
    assert_eq!(
        printed(&finish_call(id.clone(), Ok(Json::array()))),
        "{\"id\":5,\"jsonrpc\":\"2.0\",\"result\":{\"content\":[{\"text\":\"[]\",\"type\":\"text\"}],\"structuredContent\":[]}}"
    );
    assert_eq!(
        printed(&finish_call(id, Err("no".to_string()))),
        "{\"id\":5,\"jsonrpc\":\"2.0\",\"result\":{\"content\":[{\"text\":\"no\",\"type\":\"text\"}],\"isError\":true}}"
    );
    let line = "{\"id\": 6, \"method\": \"tools/call\", \"params\": {\"name\": \"leepanel_list_servers\"}}";
    match handle_line(line, "1") {
        McpAction::Ask { arguments, .. } => assert_eq!(arguments, Json::object()),
        other => panic!("{:?}", other),
    }
}

#[test]
fn every_tool_has_a_method() {
    for tool in tool_definitions() {
        let name = tool.get_str("name").unwrap();
        let method = tool_to_broker_method(name).unwrap();
        assert_eq!(format!("leepanel_{}", method), name);
    }
    assert_eq!(tool_to_broker_method("leepanel_"), None);
    assert_eq!(tool_to_broker_method("list_servers"), None);
}

#[test]
fn schemas_are_written_out() {
    let tools = tool_definitions();
    assert_eq!(
        printed(&tools[0]),
        "{\"annotations\":{\"destructiveHint\":false,\"idempotentHint\":true,\"openWorldHint\":false,\"readOnlyHint\":true},\"description\":\"List server profiles saved in LeePanel and show whether each one is currently connected. Passwords and private keys are never returned.\",\"inputSchema\":{\"additionalProperties\":false,\"properties\":{},\"type\":\"object\"},\"name\":\"leepanel_list_servers\"}"
    );
    assert_eq!(
        printed(tools[9].get("inputSchema").unwrap()),
        "{\"additionalProperties\":false,\"properties\":{\"command\":{\"description\":\"Shell command or script body to execute.\",\"maxLength\":65536,\"minLength\":1,\"type\":\"string\"},\"profile_id\":{\"description\":\"LeePanel profile ID returned by leepanel_list_servers.\",\"type\":\"string\"},\"timeout_seconds\":{\"default\":60,\"maximum\":300,\"minimum\":1,\"type\":\"integer\"}},\"required\":[\"profile_id\",\"command\"],\"type\":\"object\"}"
    );
    assert_eq!(
        printed(&json_rpc_error(Json::Unsigned(1), -1, "m")),
        "{\"error\":{\"code\":-1,\"message\":\"m\"},\"id\":1,\"jsonrpc\":\"2.0\"}"
    );
}
