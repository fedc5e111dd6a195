//! What the broker and its clients say to each other: where the broker is found, the requests
//! that it takes, its responses, and the record that it keeps of each request.

use crate::json::{outcome_view, Json, JsonView};
use crate::limits::{first_chars, take_chars};
use crate::params::{audit_target, target_of};
use crate::text::{cat2, text_eq};
use vstd::prelude::*;

verus! {

/// The name of the file that tells where the broker is found.
pub const DISCOVERY_FILE: &'static str = "mcp-runtime.json";

/// How many bytes of a request or a response are read.
pub const MAX_REQUEST_BYTES: u64 = 1048576;

/// Where the broker is found, and the secret that its clients show.
#[derive(Debug, PartialEq, Eq)]
pub struct BrokerDiscovery {
    pub version: u8,
    pub host: String,
    pub port: u16,
    pub token: String,
    pub pid: u32,
}

/// A request to the broker.
#[derive(Debug, PartialEq)]
pub struct BrokerRequest {
    pub token: String,
    pub method: String,
    pub params: Json,
}

/// A response of the broker.
#[derive(Debug, PartialEq)]
pub struct BrokerResponse {
    pub ok: bool,
    pub result: Option<Json>,
    pub error: Option<String>,
}

/// A lower-case hexadecimal digit.
pub open spec fn is_hex(c: char) -> bool {
    ('0' <= c && c <= '9') || ('a' <= c && c <= 'f')
}

/// Whether a text is a random identifier of version 4 without its hyphens.
pub open spec fn is_identifier(text: Seq<char>) -> bool {
    &&& text.len() == 32
    &&& forall|i: int| 0 <= i < 32 ==> is_hex(#[trigger] text[i])
    &&& text[12] == '4'
    &&& text[16] == '8' || text[16] == '9' || text[16] == 'a' || text[16] == 'b'
}

/// `Uuid::new_v4` makes a random identifier and `Uuid::simple` writes it in lower-case
/// hexadecimal digits without hyphens: 32 of them, of which the thirteenth is the version, 4,
/// and the seventeenth begins with the bits of the variant. The other digits are random.
#[verifier::external_body]
fn random_identifier() -> (text: String)
    ensures
        is_identifier(text@),
{
    uuid::Uuid::new_v4().simple().to_string()
}

/// Whether a text is a secret of the broker: two random identifiers.
pub open spec fn is_token(token: Seq<char>) -> bool {
    &&& token.len() == 64
    &&& is_identifier(token.take(32))
    &&& is_identifier(token.skip(32))
}

/// The secret that is made of two identifiers, one behind the other.
pub fn token_of(first: &str, second: &str) -> (token: String)
    ensures
        token@ == first@ + second@,
{
    cat2(first, second)
}

/// A new secret, made of two identifiers that are drawn for it. Nothing is said of which they
/// are.
pub fn new_token() -> (token: String)
    ensures
        is_token(token@),
{
    let first = random_identifier();
    let second = random_identifier();
    let token = token_of(first.as_str(), second.as_str());
    assert(token@.take(32) == first@);
    assert(token@.skip(32) == second@);
    token
}

/// Where a broker is found that listens on a port of this machine.
pub fn new_discovery(port: u16, pid: u32) -> (discovery: BrokerDiscovery)
    ensures
        discovery.version == 1,
        discovery.host@ == "127.0.0.1"@,
        discovery.port == port,
        discovery.pid == pid,
        is_token(discovery.token@),
        usable(discovery),
{
    BrokerDiscovery {
        version: 1,
        host: "127.0.0.1".to_owned(),
        port,
        token: new_token(),
        pid,
    }
}

/// A request that showed the secret, with what is recorded of it.
#[derive(Debug, PartialEq)]
pub struct AcceptedRequest {
    pub method: String,
    pub params: Json,
    pub profile_id: String,
    pub target: String,
}

/// The text of a parameter, or nothing.
pub open spec fn text_or_empty(params: JsonView, name: Seq<char>) -> Seq<char> {
    match params.text_field(name) {
        Some(text) => text,
        None => Seq::empty(),
    }
}

/// The response to a request that does not show the secret.
pub open spec fn unauthorized_response(response: BrokerResponse) -> bool {
    &&& !response.ok
    &&& response.result is None
    &&& response.error is Some
    &&& response.error->0@ == "Unauthorized LeePanel AI Broker request"@
}

/// Accepts a request that shows the secret, and refuses every other one.
pub fn receive_request(request: BrokerRequest, expected_token: &str) -> (received: Result<
    AcceptedRequest,
    BrokerResponse,
>)
    ensures
        received is Ok <==> request.token@ == expected_token@,
        match received {
            Ok(accepted) => {
                &&& accepted.method@ == request.method@
                &&& accepted.params@ == request.params@
                &&& accepted.profile_id@ == text_or_empty(request.params@, "profile_id"@)
                &&& accepted.target@ == target_of(request.params@)
            },
            Err(response) => unauthorized_response(response),
        },
{
    if !text_eq(request.token.as_str(), expected_token) {
        return Err(
            BrokerResponse {
                ok: false,
                result: None,
                error: Some("Unauthorized LeePanel AI Broker request".to_owned()),
            },
        );
    }
    let profile_id = match request.params.get_str("profile_id") {
        Some(text) => text.to_owned(),
        None => String::new(),
    };
    let target = audit_target(&request.params);
    Ok(AcceptedRequest { method: request.method, params: request.params, profile_id, target })
}

/// What is recorded of a request.
#[derive(Debug, PartialEq, Eq)]
pub struct AuditRecord {
    pub profile_id: String,
    pub method: String,
    pub target: String,
    pub success: bool,
    pub message: String,
}

/// What is recorded of the outcome of a request: at most 500 characters.
pub open spec fn recorded_message(outcome: Result<JsonView, Seq<char>>) -> Seq<char> {
    match outcome {
        Ok(_) => first_chars("success"@, 500),
        Err(message) => first_chars(message, 500),
    }
}

/// Whether a record is that of a request and its outcome.
pub open spec fn records(
    record: AuditRecord,
    request: AcceptedRequest,
    outcome: Result<JsonView, Seq<char>>,
) -> bool {
    &&& record.profile_id@ == request.profile_id@
    &&& record.method@ == request.method@
    &&& record.target@ == request.target@
    &&& record.success == outcome is Ok
    &&& record.message@ == recorded_message(outcome)
}

/// What a client reads in a response.
pub open spec fn reply_of(response: BrokerResponse) -> Result<JsonView, Seq<char>> {
    if response.ok {
        Ok(
            match response.result {
                Some(value) => value@,
                None => JsonView::Null,
            },
        )
    } else {
        Err(
            match response.error {
                Some(message) => message@,
                None => "LeePanel AI Broker request failed"@,
            },
        )
    }
}

/// Whether a response gives an outcome: a result or an error, never both.
pub open spec fn responds(response: BrokerResponse, outcome: Result<JsonView, Seq<char>>) -> bool {
    match outcome {
        Ok(value) => {
            &&& response.ok
            &&& response.result is Some
            &&& response.result->0@ == value
            &&& response.error is None
        },
        Err(message) => {
            &&& !response.ok
            &&& response.result is None
            &&& response.error is Some
            &&& response.error->0@ == message
        },
    }
}

/// Makes the response to a request and what is recorded of it.
pub fn finish_request(request: AcceptedRequest, outcome: Result<Json, String>) -> (finished: (
    BrokerResponse,
    AuditRecord,
))
    ensures
        responds(finished.0, outcome_view(outcome)),
        records(finished.1, request, outcome_view(outcome)),
{
    let (success, message) = match &outcome {
        Ok(_) => (true, take_chars("success", 500)),
        Err(error) => (false, take_chars(error.as_str(), 500)),
    };
    let record = AuditRecord {
        profile_id: request.profile_id,
        method: request.method,
        target: request.target,
        success,
        message,
    };
    let response = match outcome {
        Ok(value) => BrokerResponse { ok: true, result: Some(value), error: None },
        Err(error) => BrokerResponse { ok: false, result: None, error: Some(error) },
    };
    (response, record)
}

/// What came of reading where the broker is found.
#[derive(Debug, PartialEq, Eq)]
pub enum DiscoveryRead {
    /// There is nothing to read.
    Missing,
    /// What is there cannot be understood.
    Malformed,
    /// What is there.
    Found(BrokerDiscovery),
}

/// Whether a client connects to a broker: it must speak this version, on this machine.
pub open spec fn usable(discovery: BrokerDiscovery) -> bool {
    discovery.version == 1 && discovery.host@ == "127.0.0.1"@
}

/// Finds the broker to connect to.
pub fn find_broker(read: DiscoveryRead) -> (found: Result<BrokerDiscovery, String>)
    ensures
        match found {
            Ok(discovery) => read == DiscoveryRead::Found(discovery) && usable(discovery),
            Err(message) => {
                &&& !(read is Found && usable(read->Found_0))
                &&& message@ == if read is Missing {
                    "LeePanel AI Broker is not running. Start LeePanel first."@
                } else {
                    "LeePanel AI Broker discovery data is invalid. Restart LeePanel."@
                }
            },
        },
{
    match read {
        DiscoveryRead::Missing => Err(
            "LeePanel AI Broker is not running. Start LeePanel first.".to_owned(),
        ),
        DiscoveryRead::Malformed => Err(
            "LeePanel AI Broker discovery data is invalid. Restart LeePanel.".to_owned(),
        ),
        DiscoveryRead::Found(discovery) => if discovery.version != 1 || !text_eq(
            discovery.host.as_str(),
            "127.0.0.1",
        ) {
            Err("LeePanel AI Broker discovery data is invalid. Restart LeePanel.".to_owned())
        } else {
            Ok(discovery)
        },
    }
}

/// The request that a client sends.
pub open spec fn request_view(
    token: Seq<char>,
    method: Seq<char>,
    params: JsonView,
) -> JsonView {
    JsonView::Object(
        map![
            "token"@ => JsonView::Text(token),
            "method"@ => JsonView::Text(method),
            "params"@ => params,
        ],
    )
}

/// The request that a client sends.
pub fn request_value(discovery: &BrokerDiscovery, method: &str, params: Json) -> (request: Json)
    ensures
        request@ == request_view(discovery.token@, method@, params@),
{
    Json::object().with("token", Json::text(discovery.token.as_str())).with(
        "method",
        Json::text(method),
    ).with("params", params)
}

/// A request carries the secret of the broker that was found, the method and the parameters, as
/// they were given.
pub proof fn law_requests_carry_the_secret(token: Seq<char>, method: Seq<char>, params: JsonView)
    ensures
        request_view(token, method, params).text_field("token"@) == Some(token),
        request_view(token, method, params).text_field("method"@) == Some(method),
        request_view(token, method, params).field("params"@) == Some(params),
{
    reveal_strlit("token");
    reveal_strlit("method");
    reveal_strlit("params");
    assert("token"@.len() == 5 && "method"@.len() == 6 && "params"@.len() == 6);
    assert("method"@[0] == 'm' && "params"@[0] == 'p');
}

/// What came of a request that a client sent.
#[derive(Debug, PartialEq)]
pub enum Reply {
    /// The broker cannot be reached.
    Unreachable,
    /// The request could not be sent.
    SendFailed(String),
    /// The response could not be read.
    ReadFailed(String),
    /// The response cannot be understood.
    Malformed,
    /// The response.
    Response(BrokerResponse),
}

/// What a client makes of a reply.
pub open spec fn reply_outcome(reply: Reply) -> Result<JsonView, Seq<char>> {
    match reply {
        Reply::Unreachable => Err(
            "LeePanel AI Broker is not reachable. Start or restart LeePanel."@,
        ),
        Reply::SendFailed(error) => Err(error@),
        Reply::ReadFailed(error) => Err("LeePanel AI Broker response failed: "@ + error@),
        Reply::Malformed => Err(
            "LeePanel AI Broker returned an invalid response. Restart LeePanel."@,
        ),
        Reply::Response(response) => reply_of(response),
    }
}

/// What a client makes of a reply.
pub fn take_reply(reply: Reply) -> (outcome: Result<Json, String>)
    ensures
        outcome_view(outcome) == reply_outcome(reply),
{
    match reply {
        Reply::Unreachable => Err(
            "LeePanel AI Broker is not reachable. Start or restart LeePanel.".to_owned(),
        ),
        Reply::SendFailed(error) => Err(error),
        Reply::ReadFailed(error) => Err(
            cat2("LeePanel AI Broker response failed: ", error.as_str()),
        ),
        Reply::Malformed => Err(
            "LeePanel AI Broker returned an invalid response. Restart LeePanel.".to_owned(),
        ),
        Reply::Response(response) => if response.ok {
            match response.result {
                Some(value) => Ok(value),
                None => Ok(Json::Null),
            }
        } else {
            match response.error {
                Some(message) => Err(message),
                None => Err("LeePanel AI Broker request failed".to_owned()),
            }
        },
    }
}

/// A client gets the outcome that the broker came to.
pub proof fn law_client_gets_the_outcome(
    response: BrokerResponse,
    outcome: Result<JsonView, Seq<char>>,
)
    requires
        responds(response, outcome),
    ensures
        reply_outcome(Reply::Response(response)) == outcome,
{
}

/// A client gets an error where the broker refused the request, and nothing else.
pub proof fn law_client_gets_the_refusal(response: BrokerResponse)
    requires
        unauthorized_response(response),
    ensures
        !response.ok,
        response.result is None,
        reply_outcome(Reply::Response(response)) == Err::<JsonView, Seq<char>>(
            "Unauthorized LeePanel AI Broker request"@,
        ),
{
}

/// The number that stores whether a request succeeded.
pub open spec fn success_number(success: bool) -> int {
    if success {
        1
    } else {
        0
    }
}

/// The number that stores whether a request succeeded.
pub fn stored_success(success: bool) -> (number: i64)
    ensures
        number == success_number(success),
{
    if success {
        1
    } else {
        0
    }
}

/// A stored record of a request.
#[derive(Debug, PartialEq, Eq)]
pub struct McpAuditEntry {
    pub id: i64,
    pub created_at: String,
    pub profile_id: String,
    pub method: String,
    pub target: String,
    pub success: bool,
    pub message: String,
}

/// Reads back a stored record, with the number that stores whether the request succeeded.
pub fn audit_entry(id: i64, created_at: String, record: (String, String, String, i64, String)) -> (
entry: McpAuditEntry)
    ensures
        entry.id == id,
        entry.created_at == created_at,
        entry.profile_id == record.0,
        entry.method == record.1,
        entry.target == record.2,
        entry.success == (record.3 == 1),
        entry.message == record.4,
{
    let (profile_id, method, target, success, message) = record;
    McpAuditEntry { id, created_at, profile_id, method, target, success: success == 1, message }
}

/// A record says as much of the success of a request when it is read back as when it was
/// stored.
pub proof fn law_success_is_read_back(success: bool)
    ensures
        (success_number(success) == 1) == success,
{
}

/// No record of a request keeps more than 500 characters of its outcome, nor more than 200 of
/// its target.
pub proof fn law_records_are_short(outcome: Result<JsonView, Seq<char>>, params: JsonView)
    ensures
        recorded_message(outcome).len() <= 500,
        target_of(params).len() <= 200,
{
    crate::params::law_target_is_short(params);
}

/// What is recorded of a request: its profile, its method and its target, whether it succeeded,
/// and its error, or that it succeeded, in at most 500 characters.
pub proof fn law_record_tells_the_request(
    record: AuditRecord,
    request: AcceptedRequest,
    outcome: Result<JsonView, Seq<char>>,
)
    requires
        records(record, request, outcome),
    ensures
        record.profile_id@ == request.profile_id@,
        record.method@ == request.method@,
        record.target@ == request.target@,
        record.success <==> outcome is Ok,
        outcome is Ok ==> record.message@ == "success"@,
        outcome matches Err(error) ==> record.message@.is_prefix_of(error) && (record.message@
            == error || record.message@.len() == 500),
{
    reveal_strlit("success");
    assert("success"@.len() == 7);
    if let Err(error) = outcome {
        crate::limits::law_first_chars_begin_the_text(error, 500);
        if error.len() <= 500 {
            assert(first_chars(error, 500) =~= error);
        }
    }
}

/// A response is a success with its result, or a failure with its error, and nothing else.
pub proof fn law_response_gives_the_outcome(
    response: BrokerResponse,
    outcome: Result<JsonView, Seq<char>>,
)
    requires
        responds(response, outcome),
    ensures
        response.ok <==> outcome is Ok,
        response.result is Some <==> outcome is Ok,
        response.error is Some <==> outcome is Err,
        outcome matches Ok(value) ==> response.result->0@ == value,
        outcome matches Err(message) ==> response.error->0@ == message,
{
}

/// The profile that is recorded of a request is the one that it gives as a text, and nothing
/// where it gives none.
pub proof fn law_recorded_profile_is_the_given_one(params: JsonView, text: Seq<char>)
    ensures
        params.field("profile_id"@) == Some(JsonView::Text(text)) ==> text_or_empty(
            params,
            "profile_id"@,
        ) == text,
        !(params.field("profile_id"@) matches Some(JsonView::Text(_))) ==> text_or_empty(
            params,
            "profile_id"@,
        ).len() == 0,
{
}

/// A client connects to a broker of its own version on this machine and to no other.
pub proof fn law_only_this_machine_is_usable(discovery: BrokerDiscovery)
    ensures
        usable(discovery) <==> discovery.version == 1 && discovery.host@ == "127.0.0.1"@,
{
}

/// A client gets an error, and never a result, where there is no response that it understands.
pub proof fn law_no_response_is_an_error(reply: Reply)
    ensures
        !(reply is Response) ==> reply_outcome(reply) is Err,
        reply matches Reply::SendFailed(error) ==> reply_outcome(reply) == Err::<
            JsonView,
            Seq<char>,
        >(error@),
        reply matches Reply::ReadFailed(error) ==> reply_outcome(reply) == Err::<
            JsonView,
            Seq<char>,
        >("LeePanel AI Broker response failed: "@ + error@),
        reply is Unreachable ==> reply_outcome(reply) == Err::<JsonView, Seq<char>>(
            "LeePanel AI Broker is not reachable. Start or restart LeePanel."@,
        ),
        reply is Malformed ==> reply_outcome(reply) == Err::<JsonView, Seq<char>>(
            "LeePanel AI Broker returned an invalid response. Restart LeePanel."@,
        ),
        reply matches Reply::Response(response) ==> (reply_outcome(reply) is Ok <==> response.ok),
        reply matches Reply::Response(response) ==> {
            &&& response.ok && response.result is Some ==> reply_outcome(reply) == Ok::<
                JsonView,
                Seq<char>,
            >(response.result->0@)
            &&& response.ok && response.result is None ==> reply_outcome(reply) == Ok::<
                JsonView,
                Seq<char>,
            >(JsonView::Null)
            &&& !response.ok && response.error is Some ==> reply_outcome(reply) == Err::<
                JsonView,
                Seq<char>,
            >(response.error->0@)
            &&& !response.ok && response.error is None ==> reply_outcome(reply) == Err::<
                JsonView,
                Seq<char>,
            >("LeePanel AI Broker request failed"@)
        },
{
}

} // verus!
