//! The tools that are advertised to clients, and the methods of the broker that they call.

use crate::access::PermissionLevel;
use crate::calls::{is_profile_method, planned};
use crate::json::{items_view, lemma_items_view, Json, JsonView};
use crate::text::text_eq;
use vstd::prelude::*;

verus! {

/// What is told of one parameter: its type and what it is for.
pub open spec fn property_view(kind: Seq<char>, description: Seq<char>) -> JsonView {
    JsonView::Object(
        map!["type"@ => JsonView::Text(kind), "description"@ => JsonView::Text(description)],
    )
}

fn property(kind: &str, description: &str) -> (value: Json)
    ensures
        value@ == property_view(kind@, description@),
{
    Json::object().with("type", Json::text(kind)).with("description", Json::text(description))
}

/// What is told of a whole number: its bounds and its default.
pub open spec fn number_view(maximum: int, default: int) -> JsonView {
    JsonView::Object(
        map![
            "type"@ => JsonView::Text("integer"@),
            "minimum"@ => JsonView::Int(1),
            "maximum"@ => JsonView::Int(maximum),
            "default"@ => JsonView::Int(default),
        ],
    )
}

fn number(maximum: u64, default: u64) -> (value: Json)
    ensures
        value@ == number_view(maximum as int, default as int),
{
    Json::object().with("type", Json::text("integer")).with("minimum", Json::Unsigned(1)).with(
        "maximum",
        Json::Unsigned(maximum),
    ).with("default", Json::Unsigned(default))
}

/// What is told of the profile of a call.
pub open spec fn profile_property_view() -> JsonView {
    property_view("string"@, "LeePanel profile ID returned by leepanel_list_servers."@)
}

fn profile_property() -> (value: Json)
    ensures
        value@ == profile_property_view(),
{
    property("string", "LeePanel profile ID returned by leepanel_list_servers.")
}

/// One name.
pub open spec fn names1(a: Seq<char>) -> Seq<JsonView> {
    seq![JsonView::Text(a)]
}

/// Two names.
pub open spec fn names2(a: Seq<char>, b: Seq<char>) -> Seq<JsonView> {
    seq![JsonView::Text(a), JsonView::Text(b)]
}

/// Three names.
pub open spec fn names3(a: Seq<char>, b: Seq<char>, c: Seq<char>) -> Seq<JsonView> {
    seq![JsonView::Text(a), JsonView::Text(b), JsonView::Text(c)]
}

fn list1(a: &str) -> (list: Json)
    ensures
        list@ == JsonView::Array(names1(a@)),
{
    let list = Json::array().and(Json::text(a));
    assert(list@->Array_0 =~= names1(a@));
    list
}

fn list2(a: &str, b: &str) -> (list: Json)
    ensures
        list@ == JsonView::Array(names2(a@, b@)),
{
    let list = Json::array().and(Json::text(a)).and(Json::text(b));
    assert(list@->Array_0 =~= names2(a@, b@));
    list
}

fn list3(a: &str, b: &str, c: &str) -> (list: Json)
    ensures
        list@ == JsonView::Array(names3(a@, b@, c@)),
{
    let list = Json::array().and(Json::text(a)).and(Json::text(b)).and(Json::text(c));
    assert(list@->Array_0 =~= names3(a@, b@, c@));
    list
}

/// The parameters of a tool, of which some are required; it takes no others.
pub open spec fn schema_view(
    properties: Map<Seq<char>, JsonView>,
    required: Seq<JsonView>,
) -> JsonView {
    JsonView::Object(
        map![
            "type"@ => JsonView::Text("object"@),
            "properties"@ => JsonView::Object(properties),
            "required"@ => JsonView::Array(required),
            "additionalProperties"@ => JsonView::Bool(false),
        ],
    )
}

fn schema(properties: Json, required: Json) -> (value: Json)
    requires
        properties@ is Object,
        required@ is Array,
    ensures
        value@ == schema_view(properties@->Object_0, required@->Array_0),
{
    Json::object().with("type", Json::text("object")).with("properties", properties).with(
        "required",
        required,
    ).with("additionalProperties", Json::Bool(false))
}

/// The parameters of a tool that takes none.
pub open spec fn empty_schema_view() -> JsonView {
    JsonView::Object(
        map![
            "type"@ => JsonView::Text("object"@),
            "properties"@ => JsonView::Object(Map::empty()),
            "additionalProperties"@ => JsonView::Bool(false),
        ],
    )
}

fn empty_schema() -> (value: Json)
    ensures
        value@ == empty_schema_view(),
{
    Json::object().with("type", Json::text("object")).with("properties", Json::object()).with(
        "additionalProperties",
        Json::Bool(false),
    )
}

/// The parameters of a tool that takes a profile.
pub open spec fn profile_schema_view() -> JsonView {
    schema_view(
        map!["profile_id"@ => profile_property_view()],
        names1("profile_id"@),
    )
}

/// The parameters of a tool that takes a profile.
pub fn profile_schema() -> (value: Json)
    ensures
        value@ == profile_schema_view(),
{
    schema(
        Json::object().with("profile_id", profile_property()),
        list1("profile_id"),
    )
}

/// The parameters of a tool that runs a command.
pub open spec fn command_schema_view() -> JsonView {
    schema_view(
        map![
            "profile_id"@ => profile_property_view(),
            "command"@ => JsonView::Object(
                map![
                    "type"@ => JsonView::Text("string"@),
                    "minLength"@ => JsonView::Int(1),
                    "maxLength"@ => JsonView::Int(65536),
                    "description"@ => JsonView::Text("Shell command or script body to execute."@),
                ],
            ),
            "timeout_seconds"@ => number_view(300, 60),
        ],
        names2("profile_id"@, "command"@),
    )
}

/// The parameters of a tool that runs a command.
pub fn command_schema() -> (value: Json)
    ensures
        value@ == command_schema_view(),
{
    let command = Json::object().with("type", Json::text("string")).with(
        "minLength",
        Json::Unsigned(1),
    ).with("maxLength", Json::Unsigned(65536)).with(
        "description",
        Json::text("Shell command or script body to execute."),
    );
    schema(
        Json::object().with("profile_id", profile_property()).with("command", command).with(
            "timeout_seconds",
            number(300, 60),
        ),
        list2("profile_id", "command"),
    )
}

/// What is told of a container that a tool acts on.
pub open spec fn container_property_view() -> JsonView {
    property_view("string"@, "Exact container ID or name returned by leepanel_list_containers."@)
}

/// The parameters of the tool that reads the log of a container.
pub open spec fn logs_schema_view() -> JsonView {
    schema_view(
        map![
            "profile_id"@ => profile_property_view(),
            "container"@ => container_property_view(),
            "lines"@ => JsonView::Object(
                map![
                    "type"@ => JsonView::Text("integer"@),
                    "minimum"@ => JsonView::Int(1),
                    "maximum"@ => JsonView::Int(1000),
                    "default"@ => JsonView::Int(200),
                    "description"@ => JsonView::Text("Number of recent log lines to return."@),
                ],
            ),
        ],
        names2("profile_id"@, "container"@),
    )
}

fn logs_schema() -> (value: Json)
    ensures
        value@ == logs_schema_view(),
{
    let lines = number(1000, 200).with(
        "description",
        Json::text("Number of recent log lines to return."),
    );
    schema(
        Json::object().with("profile_id", profile_property()).with(
            "container",
            property(
                "string",
                "Exact container ID or name returned by leepanel_list_containers.",
            ),
        ).with("lines", lines),
        list2("profile_id", "container"),
    )
}

/// What is told of the path of a file.
pub open spec fn path_property_view() -> JsonView {
    property_view("string"@, "Absolute remote file path."@)
}

/// The parameters of the tool that reads a file.
pub open spec fn read_schema_view() -> JsonView {
    schema_view(
        map![
            "profile_id"@ => profile_property_view(),
            "path"@ => path_property_view(),
            "max_bytes"@ => number_view(131072, 65536),
        ],
        names2("profile_id"@, "path"@),
    )
}

fn read_schema() -> (value: Json)
    ensures
        value@ == read_schema_view(),
{
    schema(
        Json::object().with("profile_id", profile_property()).with(
            "path",
            property("string", "Absolute remote file path."),
        ).with("max_bytes", number(131072, 65536)),
        list2("profile_id", "path"),
    )
}

/// The parameters of the tool that writes a file.
pub open spec fn write_schema_view() -> JsonView {
    schema_view(
        map![
            "profile_id"@ => profile_property_view(),
            "path"@ => path_property_view(),
            "content"@ => JsonView::Object(
                map![
                    "type"@ => JsonView::Text("string"@),
                    "maxLength"@ => JsonView::Int(131072),
                    "description"@ => JsonView::Text(
                        "Complete UTF-8 file content. Existing content is replaced."@,
                    ),
                ],
            ),
        ],
        names3("profile_id"@, "path"@, "content"@),
    )
}

fn write_schema() -> (value: Json)
    ensures
        value@ == write_schema_view(),
{
    let content = Json::object().with("type", Json::text("string")).with(
        "maxLength",
        Json::Unsigned(131072),
    ).with(
        "description",
        Json::text("Complete UTF-8 file content. Existing content is replaced."),
    );
    schema(
        Json::object().with("profile_id", profile_property()).with(
            "path",
            property("string", "Absolute remote file path."),
        ).with("content", content),
        list3("profile_id", "path", "content"),
    )
}

/// The parameters of the tool that acts on a container.
pub open spec fn action_schema_view() -> JsonView {
    schema_view(
        map![
            "profile_id"@ => profile_property_view(),
            "container"@ => container_property_view(),
            "action"@ => JsonView::Object(
                map![
                    "type"@ => JsonView::Text("string"@),
                    "enum"@ => JsonView::Array(
                        names3("start"@, "stop"@, "restart"@),
                    ),
                    "description"@ => JsonView::Text("Controlled lifecycle action to perform."@),
                ],
            ),
        ],
        names3("profile_id"@, "container"@, "action"@),
    )
}

fn action_schema() -> (value: Json)
    ensures
        value@ == action_schema_view(),
{
    let actions = list3("start", "stop", "restart");
    let action = Json::object().with("type", Json::text("string")).with("enum", actions).with(
        "description",
        Json::text("Controlled lifecycle action to perform."),
    );
    schema(
        Json::object().with("profile_id", profile_property()).with(
            "container",
            property(
                "string",
                "Exact container ID or name returned by leepanel_list_containers.",
            ),
        ).with("action", action),
        list3("profile_id", "container", "action"),
    )
}

/// The parameters of the tool that enables or disables a site.
pub open spec fn site_schema_view() -> JsonView {
    schema_view(
        map![
            "profile_id"@ => profile_property_view(),
            "domain"@ => property_view(
                "string"@,
                "Exact primary domain returned by leepanel_list_sites."@,
            ),
            "enabled"@ => property_view(
                "boolean"@,
                "True to enable the site; false to disable it."@,
            ),
        ],
        names3("profile_id"@, "domain"@, "enabled"@),
    )
}

fn site_schema() -> (value: Json)
    ensures
        value@ == site_schema_view(),
{
    schema(
        Json::object().with("profile_id", profile_property()).with(
            "domain",
            property("string", "Exact primary domain returned by leepanel_list_sites."),
        ).with("enabled", property("boolean", "True to enable the site; false to disable it.")),
        list3("profile_id", "domain", "enabled"),
    )
}

/// A tool: its name, what it does, the parameters that it takes, and what a client is told of
/// its effects.
#[verifier::ext_equal]
pub struct Tool {
    pub name: Seq<char>,
    pub description: Seq<char>,
    pub input_schema: JsonView,
    pub read_only: bool,
    pub destructive: bool,
    pub idempotent: bool,
}

/// What is told of a tool. No tool reaches beyond the servers of the panel.
pub open spec fn tool_view(tool: Tool) -> JsonView {
    JsonView::Object(
        map![
            "name"@ => JsonView::Text(tool.name),
            "description"@ => JsonView::Text(tool.description),
            "inputSchema"@ => tool.input_schema,
            "annotations"@ => JsonView::Object(
                map![
                    "readOnlyHint"@ => JsonView::Bool(tool.read_only),
                    "destructiveHint"@ => JsonView::Bool(tool.destructive),
                    "idempotentHint"@ => JsonView::Bool(tool.idempotent),
                    "openWorldHint"@ => JsonView::Bool(false),
                ],
            ),
        ],
    )
}

fn tool_value(
    name: &str,
    description: &str,
    input_schema: Json,
    read_only: bool,
    destructive: bool,
    idempotent: bool,
) -> (value: Json)
    ensures
        value@ == tool_view(
            (Tool {
                name: name@,
                description: description@,
                input_schema: input_schema@,
                read_only,
                destructive,
                idempotent,
            }),
        ),
{
    let annotations = Json::object().with("readOnlyHint", Json::Bool(read_only)).with(
        "destructiveHint",
        Json::Bool(destructive),
    ).with("idempotentHint", Json::Bool(idempotent)).with("openWorldHint", Json::Bool(false));
    Json::object().with("name", Json::text(name)).with("description", Json::text(description)).with(
        "inputSchema",
        input_schema,
    ).with("annotations", annotations)
}

/// The tools that are advertised.
pub open spec fn tools() -> Seq<Tool> {
    seq![
        Tool {
            name: "leepanel_list_servers"@,
            description: "List server profiles saved in LeePanel and show whether each one is currently connected. Passwords and private keys are never returned."@,
            input_schema: empty_schema_view(),
            read_only: true,
            destructive: false,
            idempotent: true,
        },
        Tool {
            name: "leepanel_get_server_status"@,
            description: "Read operating system, CPU, memory, disks, uptime, load, and core service status from a server currently connected in LeePanel."@,
            input_schema: profile_schema_view(),
            read_only: true,
            destructive: false,
            idempotent: true,
        },
        Tool {
            name: "leepanel_get_services"@,
            description: "Read the status of core services detected by LeePanel on a currently connected server."@,
            input_schema: profile_schema_view(),
            read_only: true,
            destructive: false,
            idempotent: true,
        },
        Tool {
            name: "leepanel_get_nginx_status"@,
            description: "Read Nginx service details, run a read-only nginx configuration test, and list detected virtual host configuration files."@,
            input_schema: profile_schema_view(),
            read_only: true,
            destructive: false,
            idempotent: true,
        },
        Tool {
            name: "leepanel_get_container_runtime"@,
            description: "Read the Docker or Podman runtime selected by LeePanel, including installation, version, Compose, and running status."@,
            input_schema: profile_schema_view(),
            read_only: true,
            destructive: false,
            idempotent: true,
        },
        Tool {
            name: "leepanel_list_containers"@,
            description: "List containers from the Docker or Podman runtime selected by LeePanel on a currently connected server."@,
            input_schema: profile_schema_view(),
            read_only: true,
            destructive: false,
            idempotent: true,
        },
        Tool {
            name: "leepanel_get_container_logs"@,
            description: "Read a bounded number of log lines from a container currently listed by LeePanel. The container must be identified by its exact ID or name."@,
            input_schema: logs_schema_view(),
            read_only: true,
            destructive: false,
            idempotent: true,
        },
        Tool {
            name: "leepanel_read_file"@,
            description: "Read a UTF-8 text file from a currently connected LeePanel server. Requires read access. Output is bounded and reports whether it was truncated."@,
            input_schema: read_schema_view(),
            read_only: true,
            destructive: false,
            idempotent: true,
        },
        Tool {
            name: "leepanel_write_file"@,
            description: "Create or replace a UTF-8 text file on a currently connected LeePanel server. Requires management access, or system access when the SSH profile uses root."@,
            input_schema: write_schema_view(),
            read_only: false,
            destructive: true,
            idempotent: true,
        },
        Tool {
            name: "leepanel_run_command"@,
            description: "Run a command or script as the connected SSH user. Requires management access; root profiles require system access. Direct sudo, su, doas, and pkexec usage is rejected; use the privileged command tool instead."@,
            input_schema: command_schema_view(),
            read_only: false,
            destructive: true,
            idempotent: false,
        },
        Tool {
            name: "leepanel_run_privileged_command"@,
            description: "Run a command or script as root through passwordless sudo, or directly when connected as root. Requires system access."@,
            input_schema: command_schema_view(),
            read_only: false,
            destructive: true,
            idempotent: false,
        },
        Tool {
            name: "leepanel_run_container_action"@,
            description: "Start, stop, or restart an existing Docker or Podman container currently listed by LeePanel. The exact container ID or name is required."@,
            input_schema: action_schema_view(),
            read_only: false,
            destructive: true,
            idempotent: false,
        },
        Tool {
            name: "leepanel_list_images"@,
            description: "List images from the Docker or Podman runtime selected by LeePanel on a currently connected server."@,
            input_schema: profile_schema_view(),
            read_only: true,
            destructive: false,
            idempotent: true,
        },
        Tool {
            name: "leepanel_list_sites"@,
            description: "List Nginx sites on a server currently connected in LeePanel, including domains, roots, PHP, SSL, proxy, and enabled state."@,
            input_schema: profile_schema_view(),
            read_only: true,
            destructive: false,
            idempotent: true,
        },
        Tool {
            name: "leepanel_set_site_enabled"@,
            description: "Enable or disable an existing Nginx site managed by LeePanel. LeePanel validates the site, runs nginx -t, reloads Nginx, and reverts when validation fails."@,
            input_schema: site_schema_view(),
            read_only: false,
            destructive: false,
            idempotent: true,
        },
    ]
}

/// The tools that are advertised.
pub fn tool_definitions() -> (values: Vec<Json>)
    ensures
        items_view(values@) == tools().map_values(|tool: Tool| tool_view(tool)),
{
    let values = vec![
        tool_value(
            "leepanel_list_servers",
            "List server profiles saved in LeePanel and show whether each one is currently connected. Passwords and private keys are never returned.",
            empty_schema(),
            true,
            false,
            true,
        ),
        tool_value(
            "leepanel_get_server_status",
            "Read operating system, CPU, memory, disks, uptime, load, and core service status from a server currently connected in LeePanel.",
            profile_schema(),
            true,
            false,
            true,
        ),
        tool_value(
            "leepanel_get_services",
            "Read the status of core services detected by LeePanel on a currently connected server.",
            profile_schema(),
            true,
            false,
            true,
        ),
        tool_value(
            "leepanel_get_nginx_status",
            "Read Nginx service details, run a read-only nginx configuration test, and list detected virtual host configuration files.",
            profile_schema(),
            true,
            false,
            true,
        ),
        tool_value(
            "leepanel_get_container_runtime",
            "Read the Docker or Podman runtime selected by LeePanel, including installation, version, Compose, and running status.",
            profile_schema(),
            true,
            false,
            true,
        ),
        tool_value(
            "leepanel_list_containers",
            "List containers from the Docker or Podman runtime selected by LeePanel on a currently connected server.",
            profile_schema(),
            true,
            false,
            true,
        ),
        tool_value(
            "leepanel_get_container_logs",
            "Read a bounded number of log lines from a container currently listed by LeePanel. The container must be identified by its exact ID or name.",
            logs_schema(),
            true,
            false,
            true,
        ),
        tool_value(
            "leepanel_read_file",
            "Read a UTF-8 text file from a currently connected LeePanel server. Requires read access. Output is bounded and reports whether it was truncated.",
            read_schema(),
            true,
            false,
            true,
        ),
        tool_value(
            "leepanel_write_file",
            "Create or replace a UTF-8 text file on a currently connected LeePanel server. Requires management access, or system access when the SSH profile uses root.",
            write_schema(),
            false,
            true,
            true,
        ),
        tool_value(
            "leepanel_run_command",
            "Run a command or script as the connected SSH user. Requires management access; root profiles require system access. Direct sudo, su, doas, and pkexec usage is rejected; use the privileged command tool instead.",
            command_schema(),
            false,
            true,
            false,
        ),
        tool_value(
            "leepanel_run_privileged_command",
            "Run a command or script as root through passwordless sudo, or directly when connected as root. Requires system access.",
            command_schema(),
            false,
            true,
            false,
        ),
        tool_value(
            "leepanel_run_container_action",
            "Start, stop, or restart an existing Docker or Podman container currently listed by LeePanel. The exact container ID or name is required.",
            action_schema(),
            false,
            true,
            false,
        ),
        tool_value(
            "leepanel_list_images",
            "List images from the Docker or Podman runtime selected by LeePanel on a currently connected server.",
            profile_schema(),
            true,
            false,
            true,
        ),
        tool_value(
            "leepanel_list_sites",
            "List Nginx sites on a server currently connected in LeePanel, including domains, roots, PHP, SSL, proxy, and enabled state.",
            profile_schema(),
            true,
            false,
            true,
        ),
        tool_value(
            "leepanel_set_site_enabled",
            "Enable or disable an existing Nginx site managed by LeePanel. LeePanel validates the site, runs nginx -t, reloads Nginx, and reverts when validation fails.",
            site_schema(),
            false,
            false,
            true,
        ),
    ];
    proof {
        lemma_items_view(values@);
        assert(items_view(values@) =~= tools().map_values(|tool: Tool| tool_view(tool)));
    }
    values
}

/// The method of the broker that a tool calls.
pub open spec fn tool_method(tool: Seq<char>) -> Option<Seq<char>> {
    if tool == "leepanel_list_servers"@ {
        Some("list_servers"@)
    } else if tool == "leepanel_get_server_status"@ {
        Some("get_server_status"@)
    } else if tool == "leepanel_get_services"@ {
        Some("get_services"@)
    } else if tool == "leepanel_get_nginx_status"@ {
        Some("get_nginx_status"@)
    } else if tool == "leepanel_get_container_runtime"@ {
        Some("get_container_runtime"@)
    } else if tool == "leepanel_list_containers"@ {
        Some("list_containers"@)
    } else if tool == "leepanel_get_container_logs"@ {
        Some("get_container_logs"@)
    } else if tool == "leepanel_read_file"@ {
        Some("read_file"@)
    } else if tool == "leepanel_write_file"@ {
        Some("write_file"@)
    } else if tool == "leepanel_run_command"@ {
        Some("run_command"@)
    } else if tool == "leepanel_run_privileged_command"@ {
        Some("run_privileged_command"@)
    } else if tool == "leepanel_run_container_action"@ {
        Some("run_container_action"@)
    } else if tool == "leepanel_list_images"@ {
        Some("list_images"@)
    } else if tool == "leepanel_list_sites"@ {
        Some("list_sites"@)
    } else if tool == "leepanel_set_site_enabled"@ {
        Some("set_site_enabled"@)
    } else {
        None
    }
}

/// The method of the broker that a tool calls.
pub fn tool_to_broker_method(tool: &str) -> (method: Option<&'static str>)
    ensures
        crate::json::text_view(method) == tool_method(tool@),
{
    if text_eq(tool, "leepanel_list_servers") {
        Some("list_servers")
    } else if text_eq(tool, "leepanel_get_server_status") {
        Some("get_server_status")
    } else if text_eq(tool, "leepanel_get_services") {
        Some("get_services")
    } else if text_eq(tool, "leepanel_get_nginx_status") {
        Some("get_nginx_status")
    } else if text_eq(tool, "leepanel_get_container_runtime") {
        Some("get_container_runtime")
    } else if text_eq(tool, "leepanel_list_containers") {
        Some("list_containers")
    } else if text_eq(tool, "leepanel_get_container_logs") {
        Some("get_container_logs")
    } else if text_eq(tool, "leepanel_read_file") {
        Some("read_file")
    } else if text_eq(tool, "leepanel_write_file") {
        Some("write_file")
    } else if text_eq(tool, "leepanel_run_command") {
        Some("run_command")
    } else if text_eq(tool, "leepanel_run_privileged_command") {
        Some("run_privileged_command")
    } else if text_eq(tool, "leepanel_run_container_action") {
        Some("run_container_action")
    } else if text_eq(tool, "leepanel_list_images") {
        Some("list_images")
    } else if text_eq(tool, "leepanel_list_sites") {
        Some("list_sites")
    } else if text_eq(tool, "leepanel_set_site_enabled") {
        Some("set_site_enabled")
    } else {
        None
    }
}

/// The methods of the broker, in the order of the tools that call them.
pub open spec fn methods() -> Seq<Seq<char>> {
    seq![
        "list_servers"@,
        "get_server_status"@,
        "get_services"@,
        "get_nginx_status"@,
        "get_container_runtime"@,
        "list_containers"@,
        "get_container_logs"@,
        "read_file"@,
        "write_file"@,
        "run_command"@,
        "run_privileged_command"@,
        "run_container_action"@,
        "list_images"@,
        "list_sites"@,
        "set_site_enabled"@,
    ]
}

/// No two methods have the same name.
pub proof fn lemma_methods_differ()
    ensures
        forall|i: int, j: int|
            0 <= i < j < methods().len() ==> #[trigger] methods()[i] != #[trigger] methods()[j],
{
    reveal_strlit("list_servers");
    reveal_strlit("get_server_status");
    reveal_strlit("get_services");
    reveal_strlit("get_nginx_status");
    reveal_strlit("get_container_runtime");
    reveal_strlit("list_containers");
    reveal_strlit("get_container_logs");
    reveal_strlit("read_file");
    reveal_strlit("write_file");
    reveal_strlit("run_command");
    reveal_strlit("run_privileged_command");
    reveal_strlit("run_container_action");
    reveal_strlit("list_images");
    reveal_strlit("list_sites");
    reveal_strlit("set_site_enabled");
    assert("list_servers"@.len() == 12);
    assert("get_server_status"@.len() == 17);
    assert("get_services"@.len() == 12);
    assert("get_nginx_status"@.len() == 16);
    assert("get_container_runtime"@.len() == 21);
    assert("list_containers"@.len() == 15);
    assert("get_container_logs"@.len() == 18);
    assert("read_file"@.len() == 9);
    assert("write_file"@.len() == 10);
    assert("run_command"@.len() == 11);
    assert("run_privileged_command"@.len() == 22);
    assert("run_container_action"@.len() == 20);
    assert("list_images"@.len() == 11);
    assert("list_sites"@.len() == 10);
    assert("set_site_enabled"@.len() == 16);
    assert("list_servers"@[0] == 'l');
    assert("get_services"@[0] == 'g');
    assert("get_nginx_status"@[0] == 'g');
    assert("set_site_enabled"@[0] == 's');
    assert("write_file"@[0] == 'w');
    assert("list_sites"@[0] == 'l');
    assert("run_command"@[0] == 'r');
    assert("list_images"@[0] == 'l');
}

/// Each tool calls the method in its place.
proof fn lemma_tools_call_methods()
    ensures
        tools().len() == methods().len(),
        forall|i: int|
            0 <= i < tools().len() ==> tool_method((#[trigger] tools()[i]).name) == Some(
                methods()[i],
            ),
{
    reveal_strlit("leepanel_list_servers");
    reveal_strlit("leepanel_get_server_status");
    reveal_strlit("leepanel_get_services");
    reveal_strlit("leepanel_get_nginx_status");
    reveal_strlit("leepanel_get_container_runtime");
    reveal_strlit("leepanel_list_containers");
    reveal_strlit("leepanel_get_container_logs");
    reveal_strlit("leepanel_read_file");
    reveal_strlit("leepanel_write_file");
    reveal_strlit("leepanel_run_command");
    reveal_strlit("leepanel_run_privileged_command");
    reveal_strlit("leepanel_run_container_action");
    reveal_strlit("leepanel_list_images");
    reveal_strlit("leepanel_list_sites");
    reveal_strlit("leepanel_set_site_enabled");
    assert("leepanel_list_servers"@.len() == 21);
    assert("leepanel_get_server_status"@.len() == 26);
    assert("leepanel_get_services"@.len() == 21);
    assert("leepanel_get_nginx_status"@.len() == 25);
    assert("leepanel_get_container_runtime"@.len() == 30);
    assert("leepanel_list_containers"@.len() == 24);
    assert("leepanel_get_container_logs"@.len() == 27);
    assert("leepanel_read_file"@.len() == 18);
    assert("leepanel_write_file"@.len() == 19);
    assert("leepanel_run_command"@.len() == 20);
    assert("leepanel_run_privileged_command"@.len() == 31);
    assert("leepanel_run_container_action"@.len() == 29);
    assert("leepanel_list_images"@.len() == 20);
    assert("leepanel_list_sites"@.len() == 19);
    assert("leepanel_set_site_enabled"@.len() == 25);
    assert("leepanel_list_servers"@[9] == 'l');
    assert("leepanel_get_services"@[9] == 'g');
    assert("leepanel_get_nginx_status"@[9] == 'g');
    assert("leepanel_set_site_enabled"@[9] == 's');
    assert("leepanel_write_file"@[9] == 'w');
    assert("leepanel_list_sites"@[9] == 'l');
    assert("leepanel_run_command"@[9] == 'r');
    assert("leepanel_list_images"@[9] == 'l');
}

/// The broker knows exactly the methods in the list.
proof fn lemma_known_methods(method: Seq<char>)
    ensures
        methods().contains(method) <==> (method == "list_servers"@ || is_profile_method(method)),
{
    assert(methods()[0] == "list_servers"@);
    assert(methods()[1] == "get_server_status"@);
    assert(methods()[2] == "get_services"@);
    assert(methods()[3] == "get_nginx_status"@);
    assert(methods()[4] == "get_container_runtime"@);
    assert(methods()[5] == "list_containers"@);
    assert(methods()[6] == "get_container_logs"@);
    assert(methods()[7] == "read_file"@);
    assert(methods()[8] == "write_file"@);
    assert(methods()[9] == "run_command"@);
    assert(methods()[10] == "run_privileged_command"@);
    assert(methods()[11] == "run_container_action"@);
    assert(methods()[12] == "list_images"@);
    assert(methods()[13] == "list_sites"@);
    assert(methods()[14] == "set_site_enabled"@);
}

/// Every tool that is advertised calls a method that the broker knows.
pub proof fn law_advertised_tools_are_known(place: int)
    requires
        0 <= place < tools().len(),
    ensures
        tool_method(tools()[place].name) matches Some(method) && (method == "list_servers"@
            || is_profile_method(method)),
{
    lemma_tools_call_methods();
    lemma_known_methods(methods()[place]);
    assert(methods().contains(methods()[place]));
}

/// Only tools that are advertised can be called.
pub proof fn law_callable_tools_are_advertised(tool: Seq<char>)
    requires
        tool_method(tool) is Some,
    ensures
        exists|place: int| 0 <= place < tools().len() && (#[trigger] tools()[place]).name == tool,
{
    assert(tools()[0].name == "leepanel_list_servers"@);
    assert(tools()[1].name == "leepanel_get_server_status"@);
    assert(tools()[2].name == "leepanel_get_services"@);
    assert(tools()[3].name == "leepanel_get_nginx_status"@);
    assert(tools()[4].name == "leepanel_get_container_runtime"@);
    assert(tools()[5].name == "leepanel_list_containers"@);
    assert(tools()[6].name == "leepanel_get_container_logs"@);
    assert(tools()[7].name == "leepanel_read_file"@);
    assert(tools()[8].name == "leepanel_write_file"@);
    assert(tools()[9].name == "leepanel_run_command"@);
    assert(tools()[10].name == "leepanel_run_privileged_command"@);
    assert(tools()[11].name == "leepanel_run_container_action"@);
    assert(tools()[12].name == "leepanel_list_images"@);
    assert(tools()[13].name == "leepanel_list_sites"@);
    assert(tools()[14].name == "leepanel_set_site_enabled"@);
}

/// The name of each tool is that of the method in its place, behind the name of the panel.
proof fn lemma_tool_names()
    ensures
        tools().len() == methods().len(),
        forall|i: int|
            0 <= i < tools().len() ==> (#[trigger] tools()[i]).name == "leepanel_"@
                + methods()[i],
{
    reveal_strlit("leepanel_");
    reveal_strlit("list_servers");
    reveal_strlit("leepanel_list_servers");
    reveal_strlit("get_server_status");
    reveal_strlit("leepanel_get_server_status");
    reveal_strlit("get_services");
    reveal_strlit("leepanel_get_services");
    reveal_strlit("get_nginx_status");
    reveal_strlit("leepanel_get_nginx_status");
    reveal_strlit("get_container_runtime");
    reveal_strlit("leepanel_get_container_runtime");
    reveal_strlit("list_containers");
    reveal_strlit("leepanel_list_containers");
    reveal_strlit("get_container_logs");
    reveal_strlit("leepanel_get_container_logs");
    reveal_strlit("read_file");
    reveal_strlit("leepanel_read_file");
    reveal_strlit("write_file");
    reveal_strlit("leepanel_write_file");
    reveal_strlit("run_command");
    reveal_strlit("leepanel_run_command");
    reveal_strlit("run_privileged_command");
    reveal_strlit("leepanel_run_privileged_command");
    reveal_strlit("run_container_action");
    reveal_strlit("leepanel_run_container_action");
    reveal_strlit("list_images");
    reveal_strlit("leepanel_list_images");
    reveal_strlit("list_sites");
    reveal_strlit("leepanel_list_sites");
    reveal_strlit("set_site_enabled");
    reveal_strlit("leepanel_set_site_enabled");
    assert("leepanel_list_servers"@ =~= "leepanel_"@ + "list_servers"@);
    assert("leepanel_get_server_status"@ =~= "leepanel_"@ + "get_server_status"@);
    assert("leepanel_get_services"@ =~= "leepanel_"@ + "get_services"@);
    assert("leepanel_get_nginx_status"@ =~= "leepanel_"@ + "get_nginx_status"@);
    assert("leepanel_get_container_runtime"@ =~= "leepanel_"@ + "get_container_runtime"@);
    assert("leepanel_list_containers"@ =~= "leepanel_"@ + "list_containers"@);
    assert("leepanel_get_container_logs"@ =~= "leepanel_"@ + "get_container_logs"@);
    assert("leepanel_read_file"@ =~= "leepanel_"@ + "read_file"@);
    assert("leepanel_write_file"@ =~= "leepanel_"@ + "write_file"@);
    assert("leepanel_run_command"@ =~= "leepanel_"@ + "run_command"@);
    assert("leepanel_run_privileged_command"@ =~= "leepanel_"@ + "run_privileged_command"@);
    assert("leepanel_run_container_action"@ =~= "leepanel_"@ + "run_container_action"@);
    assert("leepanel_list_images"@ =~= "leepanel_"@ + "list_images"@);
    assert("leepanel_list_sites"@ =~= "leepanel_"@ + "list_sites"@);
    assert("leepanel_set_site_enabled"@ =~= "leepanel_"@ + "set_site_enabled"@);
}

/// A tool calls the method that it is named after, behind the name of the panel, and can be
/// called exactly where the broker knows that method.
pub proof fn law_tools_are_named_after_their_methods(tool: Seq<char>, method: Seq<char>)
    ensures
        tool_method(tool) == Some(method) <==> (method == "list_servers"@ || is_profile_method(
            method,
        )) && tool == "leepanel_"@ + method,
{
    lemma_tools_call_methods();
    lemma_tool_names();
    lemma_known_methods(method);
    if tool_method(tool) == Some(method) {
        law_callable_tools_are_advertised(tool);
        let place = choose|place: int|
            0 <= place < tools().len() && (#[trigger] tools()[place]).name == tool;
        assert(methods()[place] == method);
        assert(methods().contains(method));
    }
    if methods().contains(method) && tool == "leepanel_"@ + method {
        let place = choose|place: int| 0 <= place < methods().len() && methods()[place] == method;
        assert(tools()[place].name == tool);
    }
}

/// Every method that the broker knows is called by exactly one tool.
pub proof fn law_every_method_has_one_tool(method: Seq<char>)
    requires
        method == "list_servers"@ || is_profile_method(method),
    ensures
        exists|place: int|
            0 <= place < tools().len() && tool_method((#[trigger] tools()[place]).name) == Some(
                method,
            ),
        forall|one: int, other: int|
            0 <= one < tools().len() && 0 <= other < tools().len() && tool_method(
                (#[trigger] tools()[one]).name,
            ) == Some(method) && tool_method((#[trigger] tools()[other]).name) == Some(method)
                ==> one == other,
{
    lemma_tools_call_methods();
    lemma_methods_differ();
    lemma_known_methods(method);
    let place = choose|place: int| 0 <= place < methods().len() && methods()[place] == method;
    assert(tool_method(tools()[place].name) == Some(method));
    assert forall|one: int, other: int|
        0 <= one < tools().len() && 0 <= other < tools().len() && tool_method(
            (#[trigger] tools()[one]).name,
        ) == Some(method) && tool_method((#[trigger] tools()[other]).name) == Some(
            method,
        ) implies one == other by {
        assert(methods()[one] == method);
        assert(methods()[other] == method);
    }
}

/// A tool is advertised as one that only reads exactly where its calls need no more than read
/// access.
pub proof fn law_read_only_tools_need_read_access(place: int, params: JsonView)
    requires
        0 <= place < tools().len(),
    ensures
        planned(tool_method(tools()[place].name)->0, params) matches Ok(call) ==> (
        tools()[place].read_only <==> call.level() == PermissionLevel::Read),
{
    lemma_tools_call_methods();
    lemma_methods_differ();
    assert(methods()[0] == "list_servers"@);
    assert(methods()[1] == "get_server_status"@);
    assert(methods()[2] == "get_services"@);
    assert(methods()[3] == "get_nginx_status"@);
    assert(methods()[4] == "get_container_runtime"@);
    assert(methods()[5] == "list_containers"@);
    assert(methods()[6] == "get_container_logs"@);
    assert(methods()[7] == "read_file"@);
    assert(methods()[8] == "write_file"@);
    assert(methods()[9] == "run_command"@);
    assert(methods()[10] == "run_privileged_command"@);
    assert(methods()[11] == "run_container_action"@);
    assert(methods()[12] == "list_images"@);
    assert(methods()[13] == "list_sites"@);
    assert(methods()[14] == "set_site_enabled"@);
}

/// A list of names as values.
pub open spec fn name_list(names: Seq<Seq<char>>) -> JsonView {
    JsonView::Array(names.map_values(|name: Seq<char>| JsonView::Text(name)))
}

/// Whether a schema takes exactly the parameters with some names, of which the first `required`
/// ones must be given.
pub open spec fn takes(schema: JsonView, names: Seq<Seq<char>>, required: nat) -> bool {
    &&& schema.text_field("type"@) == Some("object"@)
    &&& schema.field("additionalProperties"@) == Some(JsonView::Bool(false))
    &&& schema.field("required"@) == Some(name_list(names.take(required as int)))
    &&& schema.field("properties"@) matches Some(JsonView::Object(properties))
        && properties.dom() =~= names.to_set()
}

/// What a schema says of a parameter.
pub open spec fn parameter(schema: JsonView, name: Seq<char>) -> JsonView {
    schema.field2("properties"@, name)->0
}

/// Whether a schema takes a text under a name.
pub open spec fn takes_text(schema: JsonView, name: Seq<char>) -> bool {
    parameter(schema, name).text_field("type"@) == Some("string"@)
}

/// Whether a schema takes a whole number under a name, from one to a maximum, and says what it
/// is where none is given.
pub open spec fn takes_number(schema: JsonView, name: Seq<char>, max: int, default: int) -> bool {
    let number = parameter(schema, name);
    &&& number.text_field("type"@) == Some("integer"@)
    &&& number.field("minimum"@) == Some(JsonView::Int(1))
    &&& number.field("maximum"@) == Some(JsonView::Int(max))
    &&& number.field("default"@) == Some(JsonView::Int(default))
}

proof fn lemma_schema_names()
    ensures
        "type"@ != "properties"@,
        "type"@ != "required"@,
        "type"@ != "additionalProperties"@,
        "properties"@ != "required"@,
        "properties"@ != "additionalProperties"@,
        "required"@ != "additionalProperties"@,
        "type"@ != "description"@,
        "type"@ != "minLength"@,
        "type"@ != "maxLength"@,
        "minLength"@ != "maxLength"@,
        "minLength"@ != "description"@,
        "maxLength"@ != "description"@,
        "type"@ != "minimum"@,
        "type"@ != "maximum"@,
        "type"@ != "default"@,
        "minimum"@ != "maximum"@,
        "minimum"@ != "default"@,
        "maximum"@ != "default"@,
        "minimum"@ != "description"@,
        "maximum"@ != "description"@,
        "default"@ != "description"@,
        "type"@ != "enum"@,
        "enum"@ != "description"@,
        "profile_id"@ != "command"@,
        "profile_id"@ != "timeout_seconds"@,
        "command"@ != "timeout_seconds"@,
        "profile_id"@ != "container"@,
        "profile_id"@ != "lines"@,
        "container"@ != "lines"@,
        "profile_id"@ != "path"@,
        "profile_id"@ != "max_bytes"@,
        "path"@ != "max_bytes"@,
        "profile_id"@ != "content"@,
        "path"@ != "content"@,
        "profile_id"@ != "action"@,
        "container"@ != "action"@,
        "profile_id"@ != "domain"@,
        "profile_id"@ != "enabled"@,
        "domain"@ != "enabled"@,
{
    reveal_strlit("type");
    reveal_strlit("properties");
    reveal_strlit("required");
    reveal_strlit("additionalProperties");
    reveal_strlit("description");
    reveal_strlit("minLength");
    reveal_strlit("maxLength");
    reveal_strlit("minimum");
    reveal_strlit("maximum");
    reveal_strlit("default");
    reveal_strlit("enum");
    reveal_strlit("profile_id");
    reveal_strlit("command");
    reveal_strlit("timeout_seconds");
    reveal_strlit("container");
    reveal_strlit("lines");
    reveal_strlit("path");
    reveal_strlit("max_bytes");
    reveal_strlit("content");
    reveal_strlit("action");
    reveal_strlit("domain");
    reveal_strlit("enabled");
    assert("type"@.len() == 4 && "properties"@.len() == 10 && "required"@.len() == 8);
    assert("additionalProperties"@.len() == 20 && "description"@.len() == 11);
    assert("minLength"@.len() == 9 && "maxLength"@.len() == 9 && "minimum"@.len() == 7);
    assert("maximum"@.len() == 7 && "default"@.len() == 7 && "enum"@.len() == 4);
    assert("profile_id"@.len() == 10 && "command"@.len() == 7 && "timeout_seconds"@.len() == 15);
    assert("container"@.len() == 9 && "lines"@.len() == 5 && "path"@.len() == 4);
    assert("max_bytes"@.len() == 9 && "content"@.len() == 7 && "action"@.len() == 6);
    assert("domain"@.len() == 6 && "enabled"@.len() == 7);
    assert("minLength"@[1] == 'i' && "maxLength"@[1] == 'a');
    assert("minimum"@[1] == 'i' && "maximum"@[1] == 'a' && "default"@[0] == 'd');
    assert("minimum"@[0] == 'm' && "maximum"@[0] == 'm');
    assert("type"@[0] == 't' && "enum"@[0] == 'e');
}

proof fn lemma_takes(
    schema: JsonView,
    properties: Map<Seq<char>, JsonView>,
    listed: Seq<JsonView>,
    names: Seq<Seq<char>>,
    required: nat,
)
    requires
        schema == schema_view(properties, listed),
        required <= names.len(),
        listed.len() == required,
        forall|i: int| 0 <= i < required ==> #[trigger] listed[i] == JsonView::Text(names[i]),
        properties.dom() =~= names.to_set(),
    ensures
        takes(schema, names, required),
        forall|name: Seq<char>| #[trigger]
            properties.dom().contains(name) ==> parameter(schema, name) == properties[name],
{
    lemma_schema_names();
    assert(name_list(names.take(required as int)) == JsonView::Array(listed)) by {
        assert(names.take(required as int).map_values(|name: Seq<char>| JsonView::Text(name))
            =~= listed);
    }
}

/// A tool says of its parameters what its calls take: which there are, which must be given, and
/// between which bounds the numbers lie. Nothing else can be given.
pub proof fn law_tools_say_what_they_take(place: int)
    requires
        0 <= place < tools().len(),
    ensures
        ({
            let name = tools()[place].name;
            let schema = tools()[place].input_schema;
            &&& name == "leepanel_list_servers"@ ==> {
                &&& schema.field("properties"@) == Some(JsonView::Object(Map::empty()))
                &&& schema.field("additionalProperties"@) == Some(JsonView::Bool(false))
            }
            &&& name != "leepanel_list_servers"@ ==> takes_text(schema, "profile_id"@)
            &&& place == 1 || place == 2 || place == 3 || place == 4 || place == 5 || place == 12
                || place == 13 ==> takes(schema, seq!["profile_id"@], 1)
            &&& name == "leepanel_get_container_logs"@ ==> {
                &&& takes(schema, seq!["profile_id"@, "container"@, "lines"@], 2)
                &&& takes_text(schema, "container"@)
                &&& takes_number(schema, "lines"@, 1000, 200)
            }
            &&& name == "leepanel_read_file"@ ==> {
                &&& takes(schema, seq!["profile_id"@, "path"@, "max_bytes"@], 2)
                &&& takes_text(schema, "path"@)
                &&& takes_number(schema, "max_bytes"@, 131072, 65536)
            }
            &&& name == "leepanel_write_file"@ ==> {
                &&& takes(schema, seq!["profile_id"@, "path"@, "content"@], 3)
                &&& takes_text(schema, "path"@)
                &&& takes_text(schema, "content"@)
                &&& parameter(schema, "content"@).field("maxLength"@) == Some(
                    JsonView::Int(131072),
                )
            }
            &&& name == "leepanel_run_command"@ || name == "leepanel_run_privileged_command"@ ==> {
                &&& takes(schema, seq!["profile_id"@, "command"@, "timeout_seconds"@], 2)
                &&& takes_text(schema, "command"@)
                &&& parameter(schema, "command"@).field("minLength"@) == Some(JsonView::Int(1))
                &&& parameter(schema, "command"@).field("maxLength"@) == Some(
                    JsonView::Int(65536),
                )
                &&& takes_number(schema, "timeout_seconds"@, 300, 60)
            }
            &&& name == "leepanel_run_container_action"@ ==> {
                &&& takes(schema, seq!["profile_id"@, "container"@, "action"@], 3)
                &&& takes_text(schema, "container"@)
                &&& takes_text(schema, "action"@)
                &&& parameter(schema, "action"@).field("enum"@) == Some(
                    name_list(seq!["start"@, "stop"@, "restart"@]),
                )
            }
            &&& name == "leepanel_set_site_enabled"@ ==> {
                &&& takes(schema, seq!["profile_id"@, "domain"@, "enabled"@], 3)
                &&& takes_text(schema, "domain"@)
                &&& parameter(schema, "enabled"@).text_field("type"@) == Some("boolean"@)
            }
        }),
{
    lemma_tools_call_methods();
    lemma_methods_differ();
    lemma_tool_names();
    lemma_schema_names();
    lemma_set_of_three("profile_id"@, "container"@, "lines"@);
    lemma_set_of_three("profile_id"@, "path"@, "max_bytes"@);
    lemma_set_of_three("profile_id"@, "path"@, "content"@);
    lemma_set_of_three("profile_id"@, "command"@, "timeout_seconds"@);
    lemma_set_of_three("profile_id"@, "container"@, "action"@);
    lemma_set_of_three("profile_id"@, "domain"@, "enabled"@);
    let schema = tools()[place].input_schema;
    if place == 0 {
    } else if place == 6 {
        lemma_takes(
            schema,
            schema.field("properties"@)->0->Object_0,
            names2("profile_id"@, "container"@),
            seq!["profile_id"@, "container"@, "lines"@],
            2,
        );
    } else if place == 7 {
        lemma_takes(
            schema,
            schema.field("properties"@)->0->Object_0,
            names2("profile_id"@, "path"@),
            seq!["profile_id"@, "path"@, "max_bytes"@],
            2,
        );
    } else if place == 8 {
        lemma_takes(
            schema,
            schema.field("properties"@)->0->Object_0,
            names3("profile_id"@, "path"@, "content"@),
            seq!["profile_id"@, "path"@, "content"@],
            3,
        );
    } else if place == 9 || place == 10 {
        lemma_takes(
            schema,
            schema.field("properties"@)->0->Object_0,
            names2("profile_id"@, "command"@),
            seq!["profile_id"@, "command"@, "timeout_seconds"@],
            2,
        );
    } else if place == 11 {
        lemma_takes(
            schema,
            schema.field("properties"@)->0->Object_0,
            names3("profile_id"@, "container"@, "action"@),
            seq!["profile_id"@, "container"@, "action"@],
            3,
        );
        assert(seq!["start"@, "stop"@, "restart"@].map_values(
            |name: Seq<char>| JsonView::Text(name),
        ) =~= names3("start"@, "stop"@, "restart"@));
    } else if place == 14 {
        lemma_takes(
            schema,
            schema.field("properties"@)->0->Object_0,
            names3("profile_id"@, "domain"@, "enabled"@),
            seq!["profile_id"@, "domain"@, "enabled"@],
            3,
        );
    } else {
        assert(seq!["profile_id"@].to_set() =~= set!["profile_id"@]) by {
            assert(seq!["profile_id"@][0] == "profile_id"@);
        }
        lemma_takes(
            schema,
            schema.field("properties"@)->0->Object_0,
            names1("profile_id"@),
            seq!["profile_id"@],
            1,
        );
    }
}

proof fn lemma_set_of_three(a: Seq<char>, b: Seq<char>, c: Seq<char>)
    ensures
        seq![a, b, c].to_set() =~= set![a, b, c],
{
    let s = seq![a, b, c];
    assert(s[0] == a && s[1] == b && s[2] == c);
    assert(s.contains(a) && s.contains(b) && s.contains(c));
}

/// What is told of a tool is its name, what it does, what it takes and what its effects are, each
/// under its own name. A tool that only reads is never told to destroy anything.
pub proof fn law_tools_are_told_as_they_are(tool: Tool, place: int)
    requires
        0 <= place < tools().len(),
    ensures
        tool_view(tool).text_field("name"@) == Some(tool.name),
        tool_view(tool).text_field("description"@) == Some(tool.description),
        tool_view(tool).field("inputSchema"@) == Some(tool.input_schema),
        tool_view(tool).field2("annotations"@, "readOnlyHint"@) == Some(
            JsonView::Bool(tool.read_only),
        ),
        tool_view(tool).field2("annotations"@, "destructiveHint"@) == Some(
            JsonView::Bool(tool.destructive),
        ),
        tool_view(tool).field2("annotations"@, "idempotentHint"@) == Some(
            JsonView::Bool(tool.idempotent),
        ),
        tool_view(tool).field2("annotations"@, "openWorldHint"@) == Some(JsonView::Bool(false)),
        tools()[place].read_only ==> !tools()[place].destructive && tools()[place].idempotent,
        tools()[place].destructive <==> (tools()[place].name == "leepanel_write_file"@
            || tools()[place].name == "leepanel_run_command"@ || tools()[place].name
            == "leepanel_run_privileged_command"@ || tools()[place].name
            == "leepanel_run_container_action"@),
        tools()[place].idempotent <==> tools()[place].name != "leepanel_run_command"@
            && tools()[place].name != "leepanel_run_privileged_command"@ && tools()[place].name
            != "leepanel_run_container_action"@,
{
    lemma_tools_call_methods();
    lemma_methods_differ();
    reveal_strlit("name");
    reveal_strlit("description");
    reveal_strlit("inputSchema");
    reveal_strlit("annotations");
    reveal_strlit("readOnlyHint");
    reveal_strlit("destructiveHint");
    reveal_strlit("idempotentHint");
    reveal_strlit("openWorldHint");
    assert("name"@.len() == 4 && "description"@.len() == 11 && "inputSchema"@.len() == 11);
    assert("annotations"@.len() == 11 && "readOnlyHint"@.len() == 12);
    assert("destructiveHint"@.len() == 15 && "idempotentHint"@.len() == 14);
    assert("openWorldHint"@.len() == 13);
    assert("description"@[0] == 'd' && "inputSchema"@[0] == 'i' && "annotations"@[0] == 'a');
    assert(methods()[8] == "write_file"@ && methods()[9] == "run_command"@);
    assert(methods()[10] == "run_privileged_command"@ && methods()[11] == "run_container_action"@);
    assert(tool_method("leepanel_write_file"@) == Some(methods()[8])) by {
        assert(tools()[8].name == "leepanel_write_file"@);
    }
    assert(tool_method("leepanel_run_command"@) == Some(methods()[9])) by {
        assert(tools()[9].name == "leepanel_run_command"@);
    }
    assert(tool_method("leepanel_run_privileged_command"@) == Some(methods()[10])) by {
        assert(tools()[10].name == "leepanel_run_privileged_command"@);
    }
    assert(tool_method("leepanel_run_container_action"@) == Some(methods()[11])) by {
        assert(tools()[11].name == "leepanel_run_container_action"@);
    }
    assert(tool_method(tools()[place].name) == Some(methods()[place]));
}

} // verus!
