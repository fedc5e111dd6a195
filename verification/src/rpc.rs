//! The JSON-RPC service that clients of the tools talk to, line by line.

use crate::calls::is_profile_method;
use crate::json::{outcome_view, Json, JsonView};
use crate::json_text::{parse_json, parsed_text, pretty_json, shown_text};
use crate::spaces::{blank, is_blank};
use crate::text::{cat2, text_eq};
use crate::tools::{
    law_advertised_tools_are_known, law_callable_tools_are_advertised, tool_definitions,
    tool_method, tool_to_broker_method, tool_view, tools, Tool,
};
use vstd::prelude::*;

verus! {

/// A response with a result.
pub open spec fn result_view(id: JsonView, result: JsonView) -> JsonView {
    JsonView::Object(
        map!["jsonrpc"@ => JsonView::Text("2.0"@), "id"@ => id, "result"@ => result],
    )
}

fn json_rpc_result(id: Json, result: Json) -> (response: Json)
    ensures
        response@ == result_view(id@, result@),
{
    Json::object().with("jsonrpc", Json::text("2.0")).with("id", id).with("result", result)
}

/// A response with an error.
pub open spec fn error_view(id: JsonView, code: int, message: Seq<char>) -> JsonView {
    JsonView::Object(
        map![
            "jsonrpc"@ => JsonView::Text("2.0"@),
            "id"@ => id,
            "error"@ => JsonView::Object(
                map!["code"@ => JsonView::Int(code), "message"@ => JsonView::Text(message)],
            ),
        ],
    )
}

/// A response with an error.
pub fn json_rpc_error(id: Json, code: i32, message: &str) -> (response: Json)
    ensures
        response@ == error_view(id@, code as int, message@),
{
    let error = Json::object().with("code", Json::Signed(code as i64)).with(
        "message",
        Json::text(message),
    );
    Json::object().with("jsonrpc", Json::text("2.0")).with("id", id).with("error", error)
}

/// The id of a request; null where it has none.
pub open spec fn request_id(request: JsonView) -> JsonView {
    match request.field("id"@) {
        Some(id) => id,
        None => JsonView::Null,
    }
}

/// The method of a request; empty where it has none.
pub open spec fn request_method(request: JsonView) -> Seq<char> {
    match request.text_field("method"@) {
        Some(method) => method,
        None => ""@,
    }
}

/// A text among the parameters of a request.
pub open spec fn text_param(request: JsonView, name: Seq<char>, default: Seq<char>) -> Seq<char> {
    match request.field2("params"@, name) {
        Some(JsonView::Text(text)) => text,
        _ => default,
    }
}

fn request_text<'a>(request: &'a Json, name: &str, default: &'a str) -> (text: &'a str)
    ensures
        text@ == text_param(request@, name@, default@),
{
    match request.get2("params", name) {
        Some(value) => match value.as_str() {
            Some(text) => text,
            None => default,
        },
        None => default,
    }
}

/// What the service tells of itself: the protocol that the client asked for, if it asked.
pub open spec fn introduction(request: JsonView, version: Seq<char>) -> JsonView {
    JsonView::Object(
        map![
            "protocolVersion"@ => JsonView::Text(
                text_param(request, "protocolVersion"@, "2025-06-18"@),
            ),
            "capabilities"@ => JsonView::Object(
                map![
                    "tools"@ => JsonView::Object(map!["listChanged"@ => JsonView::Bool(false)]),
                ],
            ),
            "serverInfo"@ => JsonView::Object(
                map![
                    "name"@ => JsonView::Text("leepanel"@),
                    "version"@ => JsonView::Text(version),
                ],
            ),
        ],
    )
}

fn introduce(request: &Json, version: &str) -> (result: Json)
    ensures
        result@ == introduction(request@, version@),
{
    let protocol = request_text(request, "protocolVersion", "2025-06-18");
    let capabilities = Json::object().with(
        "tools",
        Json::object().with("listChanged", Json::Bool(false)),
    );
    let server_info = Json::object().with("name", Json::text("leepanel")).with(
        "version",
        Json::text(version),
    );
    Json::object().with("protocolVersion", Json::text(protocol)).with(
        "capabilities",
        capabilities,
    ).with("serverInfo", server_info)
}

/// The list of the tools.
pub open spec fn tool_list() -> JsonView {
    JsonView::Object(
        map!["tools"@ => JsonView::Array(tools().map_values(|tool: Tool| tool_view(tool)))],
    )
}

/// What is done for a request: it is answered at once, or the broker is asked.
#[derive(Debug, PartialEq)]
pub enum McpAction {
    /// Nothing.
    Ignore,
    /// Answer.
    Respond(Json),
    /// Ask the broker, and answer the request with this id.
    Ask { id: Json, method: &'static str, arguments: Json },
}

/// What an action says.
pub enum ActionView {
    Ignore,
    Respond(JsonView),
    Ask { id: JsonView, method: Seq<char>, arguments: JsonView },
}

impl View for McpAction {
    type V = ActionView;

    open spec fn view(&self) -> ActionView {
        match *self {
            McpAction::Ignore => ActionView::Ignore,
            McpAction::Respond(response) => ActionView::Respond(response@),
            McpAction::Ask { id, method, arguments } => ActionView::Ask {
                id: id@,
                method: method@,
                arguments: arguments@,
            },
        }
    }
}

/// The arguments of a tool call; none where the request has none.
pub open spec fn call_arguments(request: JsonView) -> JsonView {
    match request.field2("params"@, "arguments"@) {
        Some(arguments) => arguments,
        None => JsonView::Object(Map::empty()),
    }
}

/// What is done for the call of a tool.
pub open spec fn tool_action(request: JsonView) -> ActionView {
    let name = text_param(request, "name"@, ""@);
    match tool_method(name) {
        Some(method) => ActionView::Ask {
            id: request_id(request),
            method,
            arguments: call_arguments(request),
        },
        None => ActionView::Respond(
            error_view(request_id(request), -32602, "Unknown LeePanel tool: "@ + name),
        ),
    }
}

/// What is done for a request.
pub open spec fn action_for(request: JsonView, version: Seq<char>) -> ActionView {
    let id = request_id(request);
    let method = request_method(request);
    if method == "initialize"@ {
        ActionView::Respond(result_view(id, introduction(request, version)))
    } else if method == "ping"@ {
        ActionView::Respond(result_view(id, JsonView::Object(Map::empty())))
    } else if method == "tools/list"@ {
        ActionView::Respond(result_view(id, tool_list()))
    } else if method == "tools/call"@ {
        tool_action(request)
    } else {
        ActionView::Respond(error_view(id, -32601, "Method not found: "@ + method))
    }
}

/// Decides what is done for a request to a service of some version.
pub fn handle_mcp_request(request: &Json, version: &str) -> (action: McpAction)
    ensures
        action@ == action_for(request@, version@),
{
    let id = match request.get("id") {
        Some(id) => id.clone(),
        None => Json::Null,
    };
    let method = match request.get_str("method") {
        Some(method) => method,
        None => "",
    };
    if text_eq(method, "initialize") {
        McpAction::Respond(json_rpc_result(id, introduce(request, version)))
    } else if text_eq(method, "ping") {
        McpAction::Respond(json_rpc_result(id, Json::object()))
    } else if text_eq(method, "tools/list") {
        let list = Json::object().with("tools", Json::Array(tool_definitions()));
        McpAction::Respond(json_rpc_result(id, list))
    } else if text_eq(method, "tools/call") {
        let name = request_text(request, "name", "");
        match tool_to_broker_method(name) {
            Some(method) => {
                let arguments = match request.get2("params", "arguments") {
                    Some(arguments) => arguments.clone(),
                    None => Json::object(),
                };
                McpAction::Ask { id, method, arguments }
            },
            None => {
                let message = cat2("Unknown LeePanel tool: ", name);
                McpAction::Respond(json_rpc_error(id, -32602, message.as_str()))
            },
        }
    } else {
        let message = cat2("Method not found: ", method);
        McpAction::Respond(json_rpc_error(id, -32601, message.as_str()))
    }
}

/// A text as the content of a tool result.
pub open spec fn text_content(text: Seq<char>) -> JsonView {
    JsonView::Array(
        seq![
            JsonView::Object(
                map!["type"@ => JsonView::Text("text"@), "text"@ => JsonView::Text(text)],
            ),
        ],
    )
}

fn content_value(text: String) -> (content: Json)
    ensures
        content@ == text_content(text@),
{
    let content = Json::array().and(
        Json::object().with("type", Json::text("text")).with("text", Json::Text(text)),
    );
    assert(content@->Array_0 =~= text_content(text@)->Array_0);
    content
}

/// The response to the call of a tool, from the outcome at the broker and from how its result
/// is shown as text.
pub open spec fn tool_response(
    id: JsonView,
    outcome: Result<JsonView, Seq<char>>,
    shown: Seq<char>,
) -> JsonView {
    match outcome {
        Ok(result) => result_view(
            id,
            JsonView::Object(
                map!["content"@ => text_content(shown), "structuredContent"@ => result],
            ),
        ),
        Err(error) => result_view(
            id,
            JsonView::Object(
                map!["content"@ => text_content(error), "isError"@ => JsonView::Bool(true)],
            ),
        ),
    }
}

/// The response to the call of a tool, where its result is shown as `shown`.
pub fn respond_to_call(id: Json, outcome: Result<Json, String>, shown: String) -> (response: Json)
    ensures
        response@ == tool_response(id@, outcome_view(outcome), shown@),
{
    match outcome {
        Ok(result) => json_rpc_result(
            id,
            Json::object().with("content", content_value(shown)).with("structuredContent", result),
        ),
        Err(error) => json_rpc_result(
            id,
            Json::object().with("content", content_value(error)).with("isError", Json::Bool(true)),
        ),
    }
}

/// The response to the call of a tool, from the outcome at the broker.
pub fn finish_call(id: Json, outcome: Result<Json, String>) -> (response: Json)
    ensures
        response@ == tool_response(
            id@,
            outcome_view(outcome),
            match outcome {
                Ok(result) => shown_text(result@),
                Err(_) => Seq::empty(),
            },
        ),
{
    let shown = match &outcome {
        Ok(result) => pretty_json(result),
        Err(_) => String::new(),
    };
    respond_to_call(id, outcome, shown)
}

/// What is done for a line, from what its parser made of it: nothing for a request without an
/// id.
pub open spec fn parsed_action(
    parsed: Result<JsonView, Seq<char>>,
    version: Seq<char>,
) -> ActionView {
    match parsed {
        Err(error) => ActionView::Respond(error_view(JsonView::Null, -32700, error)),
        Ok(request) => if request.field("id"@) is None {
            ActionView::Ignore
        } else {
            action_for(request, version)
        },
    }
}

/// Decides what is done for a line, from what its parser made of it.
pub fn handle_parsed(parsed: Result<Json, String>, version: &str) -> (action: McpAction)
    ensures
        action@ == parsed_action(outcome_view(parsed), version@),
{
    match parsed {
        Err(error) => McpAction::Respond(json_rpc_error(Json::Null, -32700, error.as_str())),
        Ok(request) => match request.get("id") {
            None => McpAction::Ignore,
            Some(_) => handle_mcp_request(&request, version),
        },
    }
}

/// Decides what is done for a line of input: nothing for a blank one.
pub fn handle_line(line: &str, version: &str) -> (action: McpAction)
    ensures
        action@ == if is_blank(line@) {
            ActionView::Ignore
        } else {
            parsed_action(parsed_text(line@), version@)
        },
{
    if blank(line) {
        return McpAction::Ignore;
    }
    handle_parsed(parse_json(line), version)
}

/// Whether a value is a response to the request with an id: it holds a result or an error, and
/// not both.
pub open spec fn is_response(response: JsonView, id: JsonView) -> bool {
    &&& response.field("jsonrpc"@) == Some(JsonView::Text("2.0"@))
    &&& response.field("id"@) == Some(id)
    &&& (response.field("result"@) is Some) != (response.field("error"@) is Some)
}

proof fn lemma_member_names()
    ensures
        "jsonrpc"@ != "id"@,
        "jsonrpc"@ != "result"@,
        "jsonrpc"@ != "error"@,
        "id"@ != "result"@,
        "id"@ != "error"@,
        "result"@ != "error"@,
{
    reveal_strlit("jsonrpc");
    reveal_strlit("id");
    reveal_strlit("result");
    reveal_strlit("error");
    assert("jsonrpc"@.len() == 7 && "id"@.len() == 2 && "result"@.len() == 6 && "error"@.len()
        == 5);
}

/// Every answer to a request carries the id of the request, and a result or an error.
pub proof fn law_answers_carry_the_id(request: JsonView, version: Seq<char>)
    ensures
        match action_for(request, version) {
            ActionView::Ignore => false,
            ActionView::Respond(response) => is_response(response, request_id(request)),
            ActionView::Ask { id, .. } => id == request_id(request),
        },
{
    lemma_member_names();
}

/// Every answer to the call of a tool carries the id of the request, and a result: an error of
/// the broker is told in it.
pub proof fn law_tool_answers_carry_the_id(
    id: JsonView,
    outcome: Result<JsonView, Seq<char>>,
    shown: Seq<char>,
)
    ensures
        is_response(tool_response(id, outcome, shown), id),
        tool_response(id, outcome, shown).field("result"@) is Some,
        outcome is Err <==> tool_response(id, outcome, shown).field2("result"@, "isError"@)
            == Some(JsonView::Bool(true)),
        outcome matches Ok(result) ==> tool_response(id, outcome, shown).field2(
            "result"@,
            "structuredContent"@,
        ) == Some(result),
{
    lemma_member_names();
    reveal_strlit("content");
    reveal_strlit("structuredContent");
    reveal_strlit("isError");
    assert("content"@.len() == 7 && "structuredContent"@.len() == 17);
    assert("isError"@.len() == 7 && "isError"@[0] == 'i' && "content"@[0] == 'c');
}

/// A line without an id is not answered, whatever it asks for.
pub proof fn law_notifications_are_not_answered(
    parsed: Result<JsonView, Seq<char>>,
    version: Seq<char>,
)
    ensures
        parsed_action(parsed, version) is Ignore <==> (parsed matches Ok(request) && request.field(
            "id"@,
        ) is None),
{
    if let Ok(request) = parsed {
        law_answers_carry_the_id(request, version);
    }
}

/// The broker is asked only for tools that are advertised.
pub proof fn law_only_advertised_tools_are_called(request: JsonView, version: Seq<char>)
    requires
        action_for(request, version) is Ask,
    ensures
        request_method(request) == "tools/call"@,
        exists|place: int|
            0 <= place < tools().len() && (#[trigger] tools()[place]).name == text_param(
                request,
                "name"@,
                ""@,
            ) && tool_method(tools()[place].name) == Some(
                action_for(request, version)->Ask_method,
            ),
{
    law_callable_tools_are_advertised(text_param(request, "name"@, ""@));
}

/// The broker is asked only for methods that it knows.
pub proof fn law_asked_methods_are_known(request: JsonView, version: Seq<char>)
    requires
        action_for(request, version) is Ask,
    ensures
        action_for(request, version)->Ask_method == "list_servers"@ || is_profile_method(
            action_for(request, version)->Ask_method,
        ),
{
    law_only_advertised_tools_are_called(request, version);
    let place = choose|place: int|
        0 <= place < tools().len() && (#[trigger] tools()[place]).name == text_param(
            request,
            "name"@,
            ""@,
        ) && tool_method(tools()[place].name) == Some(action_for(request, version)->Ask_method);
    law_advertised_tools_are_known(place);
}

proof fn lemma_introduction_names()
    ensures
        "protocolVersion"@ != "capabilities"@,
        "protocolVersion"@ != "serverInfo"@,
        "capabilities"@ != "serverInfo"@,
        "name"@ != "version"@,
        "code"@ != "message"@,
        "type"@ != "text"@,
        "content"@ != "structuredContent"@,
        "content"@ != "isError"@,
{
    reveal_strlit("protocolVersion");
    reveal_strlit("capabilities");
    reveal_strlit("serverInfo");
    reveal_strlit("name");
    reveal_strlit("version");
    reveal_strlit("code");
    reveal_strlit("message");
    reveal_strlit("type");
    reveal_strlit("text");
    reveal_strlit("content");
    reveal_strlit("structuredContent");
    reveal_strlit("isError");
    assert("protocolVersion"@.len() == 15 && "capabilities"@.len() == 12);
    assert("serverInfo"@.len() == 10 && "name"@.len() == 4 && "version"@.len() == 7);
    assert("code"@.len() == 4 && "message"@.len() == 7);
    assert("type"@[1] == 'y' && "text"@[1] == 'e');
    assert("content"@.len() == 7 && "structuredContent"@.len() == 17);
    assert("isError"@.len() == 7 && "isError"@[0] == 'i' && "content"@[0] == 'c');
}

/// Whether a response tells an error with a code and a message.
pub open spec fn tells_error(response: JsonView, code: int, message: Seq<char>) -> bool {
    &&& response.field2("error"@, "code"@) == Some(JsonView::Int(code))
    &&& response.field2("error"@, "message"@) == Some(JsonView::Text(message))
    &&& response.field("result"@) is None
}

/// A request that calls a tool asks the broker for the method of that tool, with the arguments of
/// the request as they are, or without any where it has none. A tool that is not known is
/// answered with an error that names it.
pub proof fn law_tool_calls_are_passed_on(request: JsonView, version: Seq<char>, name: Seq<char>)
    requires
        request.field("method"@) == Some(JsonView::Text("tools/call"@)),
        request.field2("params"@, "name"@) == Some(JsonView::Text(name)),
    ensures
        match tool_method(name) {
            Some(method) => action_for(request, version) matches ActionView::Ask {
                id,
                method: asked,
                arguments,
            } && {
                &&& asked == method
                &&& request.field("id"@) is Some ==> Some(id) == request.field("id"@)
                &&& match request.field2("params"@, "arguments"@) {
                    Some(given) => arguments == given,
                    None => arguments == JsonView::Object(Map::empty()),
                }
            },
            None => action_for(request, version) matches ActionView::Respond(response)
                && tells_error(response, -32602, "Unknown LeePanel tool: "@ + name),
        },
{
    lemma_member_names();
    lemma_introduction_names();
    lemma_rpc_methods();
}

proof fn lemma_rpc_methods()
    ensures
        "initialize"@ != "ping"@,
        "initialize"@ != "tools/list"@,
        "initialize"@ != "tools/call"@,
        "ping"@ != "tools/list"@,
        "ping"@ != "tools/call"@,
        "tools/list"@ != "tools/call"@,
{
    reveal_strlit("initialize");
    reveal_strlit("ping");
    reveal_strlit("tools/list");
    reveal_strlit("tools/call");
    assert("initialize"@.len() == 10 && "ping"@.len() == 4);
    assert("tools/list"@.len() == 10 && "tools/call"@.len() == 10);
    assert("initialize"@[0] == 'i' && "tools/list"@[0] == 't' && "tools/call"@[0] == 't');
    assert("tools/list"@[6] == 'l' && "tools/call"@[6] == 'c');
}

/// A client that introduces itself is told the protocol that it asked for, or one that the
/// service knows where it asked for none, and the name and the version of the service.
pub proof fn law_service_introduces_itself(request: JsonView, version: Seq<char>)
    requires
        request.field("method"@) == Some(JsonView::Text("initialize"@)),
    ensures
        action_for(request, version) matches ActionView::Respond(response) && {
            let result = response.field("result"@)->0;
            &&& response.field("result"@) is Some
            &&& result.field("protocolVersion"@) == match request.field2(
                "params"@,
                "protocolVersion"@,
            ) {
                Some(JsonView::Text(asked)) => Some(JsonView::Text(asked)),
                _ => Some(JsonView::Text("2025-06-18"@)),
            }
            &&& result.field2("serverInfo"@, "name"@) == Some(JsonView::Text("leepanel"@))
            &&& result.field2("serverInfo"@, "version"@) == Some(JsonView::Text(version))
            &&& result.field2("capabilities"@, "tools"@) matches Some(tools) && tools.field(
                "listChanged"@,
            ) == Some(JsonView::Bool(false))
        },
{
    lemma_member_names();
    lemma_introduction_names();
}

/// A request for the tools is answered with all of them, in their order, each as it is told of.
/// One that asks for a sign of life is answered with nothing. Any other method is answered with an
/// error that names it.
pub proof fn law_other_methods_are_answered(
    request: JsonView,
    version: Seq<char>,
    method: Seq<char>,
)
    requires
        request.field("method"@) == Some(JsonView::Text(method)),
    ensures
        method == "tools/list"@ ==> (action_for(request, version) matches ActionView::Respond(
            response,
        ) && (response.field2("result"@, "tools"@) matches Some(JsonView::Array(list)) && list.len()
            == tools().len() && forall|i: int|
            0 <= i < list.len() ==> #[trigger] list[i] == tool_view(tools()[i]))),
        method == "ping"@ ==> (action_for(request, version) matches ActionView::Respond(response)
            && response.field("result"@) == Some(JsonView::Object(Map::empty()))),
        method != "initialize"@ && method != "ping"@ && method != "tools/list"@ && method
            != "tools/call"@ ==> (action_for(request, version) matches ActionView::Respond(response)
            && tells_error(response, -32601, "Method not found: "@ + method)),
{
    lemma_member_names();
    lemma_introduction_names();
    lemma_rpc_methods();
}

/// A line that cannot be read is answered with an error that says why, and a request is answered
/// as such wherever it has an id.
pub proof fn law_lines_are_answered(parsed: Result<JsonView, Seq<char>>, version: Seq<char>)
    ensures
        parsed matches Err(error) ==> (parsed_action(parsed, version) matches ActionView::Respond(
            response,
        ) && tells_error(response, -32700, error) && response.field("id"@) == Some(
            JsonView::Null,
        )),
        parsed matches Ok(request) ==> (request.field("id"@) is Some ==> parsed_action(
            parsed,
            version,
        ) == action_for(request, version)),
{
    lemma_member_names();
    lemma_introduction_names();
}

/// The answer to the call of a tool shows its text: how the result is shown where the call
/// succeeded, and the error where it failed.
pub proof fn law_tool_answers_show_their_text(
    id: JsonView,
    outcome: Result<JsonView, Seq<char>>,
    shown: Seq<char>,
)
    ensures
        tool_response(id, outcome, shown).field2("result"@, "content"@) matches Some(
            JsonView::Array(content),
        ) && content.len() == 1 && content[0].text_field("type"@) == Some("text"@)
            && content[0].text_field("text"@) == Some(
            match outcome {
                Ok(_) => shown,
                Err(error) => error,
            },
        ),
{
    lemma_member_names();
    lemma_introduction_names();
}

/// What is done for a request says its answer, or what is asked of the broker.
pub proof fn law_service_actions_say_what_they_hold(action: McpAction)
    ensures
        action is Ignore <==> action@ is Ignore,
        action matches McpAction::Respond(response) ==> action@ == ActionView::Respond(response@),
        action matches McpAction::Ask { id, method, arguments } ==> action@ == (ActionView::Ask {
            id: id@,
            method: method@,
            arguments: arguments@,
        }),
{
}

} // verus!
