//! The tools, the requests that call them, and the access that they need.

use leepanel::access::{has_access, mcp_enabled, set_mcp_enabled, PermissionLevel};
use leepanel::codex::{
    registration_is_current, select_mcp_executable, CodexMcpRegistration, CodexMcpTransport,
};
use leepanel::escalation::reject_privilege_escalation;
use leepanel::json::Json;
use leepanel::limits::truncate_utf8;
use leepanel::params::{optional_usize, required_container_action};
use leepanel::rpc::{handle_mcp_request, McpAction};
use leepanel::tools::tool_definitions;
use std::path::PathBuf;

fn object(entries: Vec<(&str, Json)>) -> Json {
    let mut value = Json::object();
    for (name, entry) in entries {
        value = value.with(name, entry);
    }
    value
}

fn texts(items: &[&str]) -> Json {
    let mut value = Json::array();
    for item in items {
        value = value.and(Json::text(item));
    }
    value
}

fn at<'a>(value: &'a Json, path: &[&str]) -> Option<&'a Json> {
    let mut current = value;
    for name in path {
        current = current.get(name)?;
    }
    Some(current)
}

fn tool<'a>(tools: &'a [Json], name: &str) -> &'a Json {
    tools.iter().find(|tool| tool.get_str("name") == Some(name)).unwrap()
}

#[test]
fn exposes_only_approved_tools() {
    let tools = tool_definitions();
    let names: Vec<_> = tools.iter().filter_map(|tool| tool.get_str("name")).collect();
    assert_eq!(
        names,
        vec![
            "leepanel_list_servers",
            "leepanel_get_server_status",
            "leepanel_get_services",
            "leepanel_get_nginx_status",
            "leepanel_get_container_runtime",
            "leepanel_list_containers",
            "leepanel_get_container_logs",
            "leepanel_read_file",
            "leepanel_write_file",
            "leepanel_run_command",
            "leepanel_run_privileged_command",
            "leepanel_run_container_action",
            "leepanel_list_images",
            "leepanel_list_sites",
            "leepanel_set_site_enabled",
        ]
    );
}

#[test]
fn initialize_advertises_tools() {
    let request = object(vec![
        ("jsonrpc", Json::text("2.0")),
        ("id", Json::Unsigned(1)),
        ("method", Json::text("initialize")),
        ("params", object(vec![("protocolVersion", Json::text("2025-06-18"))])),
    ]);
    let response = match handle_mcp_request(&request, "0.1.0") {
        McpAction::Respond(response) => response,
        other => panic!("{:?}", other),
    };
    assert_eq!(at(&response, &["result", "serverInfo", "name"]), Some(&Json::text("leepanel")));
    assert_eq!(
        at(&response, &["result", "capabilities", "tools", "listChanged"]),
        Some(&Json::Bool(false))
    );
}

#[test]
fn registration_requires_the_exact_executable_and_mcp_argument() {
    let executable = std::path::PathBuf::from("/opt/leepanel/leepanel");
    let mut registration = CodexMcpRegistration {
        enabled: true,
        transport: CodexMcpTransport {
            command: executable.to_string_lossy().into_owned(),
            args: vec!["--mcp".to_string()],
            env: None,
        },
    };
    let same = PathBuf::from(&registration.transport.command) == executable;
    assert!(registration_is_current(&registration, same));
    assert!(!registration_is_current(&registration, false));
    registration.enabled = false;
    assert!(!registration_is_current(&registration, same));
    registration.enabled = true;
    registration.transport.args.push("extra".to_string());
    assert!(!registration_is_current(&registration, same));
}

#[test]
fn appimage_path_replaces_the_temporary_mount_executable() {
    let appimage = PathBuf::from("/home/user/LeePanel.AppImage");
    let selected = select_mcp_executable(
        PathBuf::from("/tmp/.mount_LeePanel/leepanel"),
        Some(appimage.clone()),
        true,
        true,
    );
    assert_eq!(selected, appimage);
    let current = PathBuf::from("/tmp/.mount_LeePanel/leepanel");
    assert_eq!(
        select_mcp_executable(current.clone(), Some(appimage.clone()), false, true),
        current
    );
    assert_eq!(select_mcp_executable(current.clone(), Some(appimage), true, false), current);
    assert_eq!(select_mcp_executable(current.clone(), None, true, true), current);
}

#[test]
fn site_toggle_schema_requires_exact_target() {
    let tools = tool_definitions();
    let toggle = tool(&tools, "leepanel_set_site_enabled");
    assert_eq!(
        at(toggle, &["inputSchema", "required"]),
        Some(&texts(&["profile_id", "domain", "enabled"]))
    );
    assert_eq!(at(toggle, &["annotations", "readOnlyHint"]), Some(&Json::Bool(false)));
}

#[test]
fn second_iteration_tools_are_read_only() {
    let tools = tool_definitions();
    for name in [
        "leepanel_get_services",
        "leepanel_get_nginx_status",
        "leepanel_get_container_runtime",
        "leepanel_list_containers",
        "leepanel_get_container_logs",
        "leepanel_list_images",
    ] {
        let tool = tool(&tools, name);
        assert_eq!(at(tool, &["annotations", "readOnlyHint"]), Some(&Json::Bool(true)));
    }
}

#[test]
fn log_line_limit_is_bounded() {
    let lines = |n: u64| object(vec![("lines", Json::Unsigned(n))]);
    assert_eq!(optional_usize(&Json::object(), "lines", 200, 1000), Ok(200));
    assert_eq!(optional_usize(&lines(1000), "lines", 200, 1000), Ok(1000));
    assert!(optional_usize(&lines(0), "lines", 200, 1000).is_err());
    assert!(optional_usize(&lines(1001), "lines", 200, 1000).is_err());
}

#[test]
fn container_action_schema_is_restricted() {
    let tools = tool_definitions();
    let action = tool(&tools, "leepanel_run_container_action");
    assert_eq!(
        at(action, &["inputSchema", "properties", "action", "enum"]),
        Some(&texts(&["start", "stop", "restart"]))
    );
    assert_eq!(
        at(action, &["inputSchema", "required"]),
        Some(&texts(&["profile_id", "container", "action"]))
    );
    assert_eq!(at(action, &["annotations", "destructiveHint"]), Some(&Json::Bool(true)));
}

#[test]
fn container_action_rejects_unapproved_operations() {
    for action in ["start", "stop", "restart"] {
        let params = object(vec![("action", Json::text(action))]);
        assert_eq!(required_container_action(&params), Ok(action));
    }
    for action in ["pause", "unpause", "delete", "rm", "exec"] {
        let params = object(vec![("action", Json::text(action))]);
        assert!(required_container_action(&params).is_err());
    }
}

fn access_test_db() -> rusqlite::Connection {
    let conn = rusqlite::Connection::open_in_memory().unwrap();
    conn.execute_batch(
        "CREATE TABLE settings (key TEXT PRIMARY KEY, value TEXT NOT NULL);
         CREATE TABLE mcp_permissions (
            profile_id TEXT PRIMARY KEY,
            permission_level TEXT NOT NULL DEFAULT 'none'
         );",
    )
    .unwrap();
    conn
}

fn stored_switch(conn: &rusqlite::Connection) -> Option<String> {
    conn.query_row("SELECT value FROM settings WHERE key = 'mcp_enabled'", [], |row| {
        row.get::<_, String>(0)
    })
    .ok()
}

fn stored_permissions(conn: &rusqlite::Connection) -> Vec<(String, String)> {
    let mut statement =
        conn.prepare("SELECT profile_id, permission_level FROM mcp_permissions").unwrap();
    let rows = statement.query_map([], |row| Ok((row.get(0)?, row.get(1)?))).unwrap();
    rows.filter_map(Result::ok).collect()
}

#[test]
fn mcp_is_disabled_and_profiles_are_denied_by_default() {
    let conn = access_test_db();
    assert!(!mcp_enabled(&stored_switch(&conn)));
    for access in [PermissionLevel::Read, PermissionLevel::Manage, PermissionLevel::System] {
        assert!(!has_access(&stored_permissions(&conn), "root-profile", access));
    }
}

#[test]
fn permission_levels_inherit_lower_access() {
    let conn = access_test_db();
    conn.execute(
        "INSERT OR REPLACE INTO settings (key, value) VALUES ('mcp_enabled', ?1)",
        [set_mcp_enabled(true)],
    )
    .unwrap();
    conn.execute(
        "INSERT INTO mcp_permissions (profile_id, permission_level) VALUES (?1, 'manage')",
        ["profile-1"],
    )
    .unwrap();
    conn.execute(
        "INSERT INTO mcp_permissions (profile_id, permission_level) VALUES (?1, 'system')",
        ["profile-2"],
    )
    .unwrap();
    assert!(mcp_enabled(&stored_switch(&conn)));
    let permissions = stored_permissions(&conn);
    assert!(has_access(&permissions, "profile-1", PermissionLevel::Read));
    assert!(has_access(&permissions, "profile-1", PermissionLevel::Manage));
    assert!(!has_access(&permissions, "profile-1", PermissionLevel::System));
    assert!(has_access(&permissions, "profile-2", PermissionLevel::Read));
    assert!(has_access(&permissions, "profile-2", PermissionLevel::Manage));
    assert!(has_access(&permissions, "profile-2", PermissionLevel::System));
}

#[test]
fn management_commands_reject_direct_privilege_escalation() {
    for command in ["sudo systemctl restart nginx", "su - root", "doas reboot", "pkexec sh"] {
        assert!(reject_privilege_escalation(command).is_err());
    }
    for command in ["systemctl --user status app", "bash ./deploy.sh", "echo sudokus"] {
        assert!(reject_privilege_escalation(command).is_ok());
    }
}

#[test]
fn utf8_output_truncation_preserves_character_boundaries() {
    assert_eq!(truncate_utf8("你好abc", 4), ("你".to_string(), true));
    assert_eq!(truncate_utf8("abc", 4), ("abc".to_string(), false));
}
