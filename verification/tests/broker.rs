//! Requests to the broker, from their parameters to their answers.

use leepanel::access::{AccessSnapshot, ServerProfile};
use leepanel::broker::{
    advance, can_answer, command_result, Container, Progress, ServerAction, ServerEvent, Site, Step,
};
use leepanel::calls::{plan_broker_request, BrokerCall, Query};
use leepanel::dispatch::{dispatch_broker_request, list_servers, Dispatch};
use leepanel::json::Json;
use leepanel::json_text::compact_json;
use leepanel::params::{audit_target, required_command, required_remote_path};
use leepanel::sessions::{ConnectInfo, SshManager, SshSession};

fn params(entries: &[(&str, &str)]) -> Json {
    let mut value = Json::object();
    for (name, text) in entries {
        value = value.with(name, Json::text(text));
    }
    value
}

fn profile(id: &str, username: &str) -> ServerProfile {
    ServerProfile {
        id: id.to_string(),
        name: format!("name of {}", id),
        host: "10.0.0.1".to_string(),
        port: 22,
        username: username.to_string(),
        auth_type: "password".to_string(),
    }
}

fn access(enabled: Option<&str>, permissions: &[(&str, &str)]) -> AccessSnapshot {
    AccessSnapshot {
        enabled: enabled.map(|text| text.to_string()),
        profiles: vec![profile("p1", "deploy"), profile("p2", "root")],
        permissions: permissions
            .iter()
            .map(|(id, level)| (id.to_string(), level.to_string()))
            .collect(),
    }
}

fn manager(usernames: &[&str]) -> SshManager<u8> {
    let mut manager = SshManager::new();
    for username in usernames {
        let info = ConnectInfo {
            host: "10.0.0.1".to_string(),
            port: 22,
            username: username.to_string(),
            password: None,
            key_path: None,
            cols: 80,
            rows: 24,
        };
        let session = SshSession { handle: 0, connect_info: info };
        manager.insert_session(format!("session of {}", username), session);
    }
    manager
}

fn printed(value: &Json) -> String {
    compact_json(value).unwrap()
}

#[test]
fn methods_are_read_with_their_parameters() {
    assert_eq!(
        plan_broker_request("list_servers", &Json::Null),
        Ok(BrokerCall::ListServers)
    );
    assert_eq!(
        plan_broker_request("list_sites", &params(&[("profile_id", "p1")])),
        Ok(BrokerCall::Ask { profile_id: "p1".to_string(), query: Query::Sites })
    );
    assert_eq!(
        plan_broker_request("get_container_logs", &params(&[("profile_id", "p"), ("container", "c")])),
        Ok(BrokerCall::ContainerLogs {
            profile_id: "p".to_string(),
            container: "c".to_string(),
            lines: 200
        })
    );
    let read = params(&[("profile_id", "p"), ("path", "/etc/hosts")])
        .with("max_bytes", Json::Unsigned(131072));
    assert_eq!(
        plan_broker_request("read_file", &read),
        Ok(BrokerCall::ReadFile {
            profile_id: "p".to_string(),
            path: "/etc/hosts".to_string(),
            max_bytes: 131072
        })
    );
    assert_eq!(
        plan_broker_request("run_command", &params(&[("profile_id", "p"), ("command", "ls")])),
        Ok(BrokerCall::RunCommand {
            profile_id: "p".to_string(),
            command: "ls".to_string(),
            timeout_secs: 60
        })
    );
    assert_eq!(
        plan_broker_request(
            "set_site_enabled",
            &params(&[("profile_id", "p"), ("domain", "x.org")]).with("enabled", Json::Bool(true))
        ),
        Ok(BrokerCall::SetSiteEnabled {
            profile_id: "p".to_string(),
            domain: "x.org".to_string(),
            enabled: true
        })
    );
}

#[test]
fn wrong_parameters_are_named() {
    let errors = [
        ("drop_table", params(&[]), "Unsupported LeePanel broker method: drop_table"),
        ("list_sites", params(&[]), "Missing string parameter: profile_id"),
        ("list_sites", params(&[("profile_id", "")]), "Missing string parameter: profile_id"),
        ("get_container_logs", params(&[("profile_id", "p")]), "Missing string parameter: container"),
        (
            "get_container_logs",
            params(&[("profile_id", "p"), ("container", "c")]).with("lines", Json::Unsigned(1001)),
            "Parameter lines must be an integer between 1 and 1000",
        ),
        (
            "read_file",
            params(&[("profile_id", "p"), ("path", "etc")]),
            "Parameter path must be an absolute remote path up to 4096 bytes",
        ),
        (
            "read_file",
            params(&[("profile_id", "p"), ("path", "/e")]).with("max_bytes", Json::text("1")),
            "Parameter max_bytes must be an integer between 1 and 131072",
        ),
        (
            "write_file",
            params(&[("profile_id", "p"), ("path", "/e")]),
            "Missing string parameter: content",
        ),
        (
            "run_command",
            params(&[("profile_id", "p"), ("command", "sudo ls")])
                .with("timeout_seconds", Json::Unsigned(0)),
            "Privilege escalation is not allowed with management access. Use the privileged command tool with system access.",
        ),
        (
            "run_privileged_command",
            params(&[("profile_id", "p"), ("command", "sudo ls")])
                .with("timeout_seconds", Json::Unsigned(301)),
            "Parameter timeout_seconds must be an integer between 1 and 300",
        ),
        (
            "run_container_action",
            params(&[("profile_id", "p"), ("container", "c"), ("action", "rm")]),
            "Parameter action must be one of: start, stop, restart",
        ),
        (
            "set_site_enabled",
            params(&[("profile_id", "p"), ("domain", "d"), ("enabled", "true")]),
            "Missing boolean parameter: enabled",
        ),
    ];
    for (method, value, message) in errors {
        assert_eq!(plan_broker_request(method, &value), Err(message.to_string()));
    }
}

#[test]
fn long_parameters_are_refused() {
    let content = "x".repeat(131073);
    let write = params(&[("profile_id", "p"), ("path", "/e"), ("content", &content)]);
    assert_eq!(
        plan_broker_request("write_file", &write),
        Err("File content exceeds the 131072 byte MCP limit".to_string())
    );
    let command = "x".repeat(65537);
    assert_eq!(
        required_command(&params(&[("command", &command)])),
        Err("Parameter command exceeds the 65536 byte MCP limit".to_string())
    );
    let command = "x".repeat(65536);
    assert_eq!(required_command(&params(&[("command", &command)])), Ok(command.as_str()));
    assert!(required_command(&params(&[("command", "a\0b")])).is_err());
    let path = format!("/{}", "x".repeat(4096));
    assert!(required_remote_path(&params(&[("path", &path)])).is_err());
    let path = format!("/{}", "x".repeat(4095));
    assert!(required_remote_path(&params(&[("path", &path)])).is_ok());
}

#[test]
fn the_target_of_a_request_is_recorded() {
    assert_eq!(audit_target(&params(&[("profile_id", "p"), ("path", "/x")])), "/x");
    assert_eq!(audit_target(&params(&[("path", "/x"), ("container", "c")])), "c");
    assert_eq!(audit_target(&params(&[("command", "secret")])), "command");
    assert_eq!(audit_target(&params(&[("profile_id", "p"), ("command", "secret")])), "p");
    assert_eq!(audit_target(&params(&[])), "");
    assert_eq!(audit_target(&params(&[("path", &"é".repeat(300))])), "é".repeat(200));
}

fn outcome(
    access: &AccessSnapshot,
    manager: &SshManager<u8>,
    method: &str,
    profile_id: &str,
) -> Result<Dispatch, String> {
    let value = params(&[("profile_id", profile_id), ("command", "ls")]);
    dispatch_broker_request(access, manager, method, &value)
}

#[test]
fn access_is_checked_before_a_server_is_reached() {
    let connected = manager(&["deploy", "root"]);
    let off = access(None, &[("p1", "system")]);
    assert_eq!(
        outcome(&off, &connected, "run_command", "p1"),
        Err("LeePanel MCP is disabled. Enable it in MCP / AI Integration settings.".to_string())
    );
    let none = access(Some("true"), &[]);
    assert_eq!(
        outcome(&none, &connected, "list_sites", "p1"),
        Err("MCP read access is not authorized for LeePanel server profile: p1".to_string())
    );
    let granted = access(Some("true"), &[("p1", "manage"), ("p2", "manage")]);
    assert_eq!(
        outcome(&granted, &connected, "run_command", "p2"),
        Err("MCP system access is not authorized for LeePanel server profile: p2".to_string())
    );
    assert_eq!(
        outcome(&granted, &connected, "run_privileged_command", "p1"),
        Err("MCP system access is not authorized for LeePanel server profile: p1".to_string())
    );
    assert_eq!(
        outcome(&granted, &connected, "list_sites", "p3"),
        Err("LeePanel server profile not found: p3".to_string())
    );
    assert_eq!(
        outcome(&granted, &manager(&["root"]), "list_sites", "p1"),
        Err("Server 'name of p1' is not connected in LeePanel".to_string())
    );
    assert_eq!(
        outcome(&granted, &connected, "run_command", "p1"),
        Ok(Dispatch::Act {
            session_id: "session of deploy".to_string(),
            progress: Progress::Command,
            action: ServerAction::Execute { command: "ls".to_string(), timeout_secs: 60 },
        })
    );
    assert!(outcome(&granted, &connected, "list_sites", "p2").is_ok());
}

#[test]
fn readable_servers_are_listed() {
    let listed = list_servers(
        &access(Some("true"), &[("p1", "none"), ("p2", "read")]),
        &manager(&["deploy"]),
    )
    .unwrap();
    assert_eq!(
        printed(&listed),
        "[{\"auth_type\":\"password\",\"connected\":false,\"host\":\"10.0.0.1\",\"name\":\"name of p2\",\"port\":22,\"profile_id\":\"p2\",\"username\":\"root\"}]"
    );
    let listed = list_servers(&access(Some("true"), &[("p1", "manage")]), &manager(&["deploy"]));
    assert!(printed(&listed.unwrap()).contains("\"connected\":true"));
    assert!(list_servers(&access(Some("yes"), &[]), &manager(&[])).is_err());
}

fn container(id: &str, name: &str, state: &str) -> Container<String> {
    Container {
        id: id.to_string(),
        name: name.to_string(),
        state: state.to_string(),
        status: format!("{} since today", state),
    }
}

fn act(step: Step) -> (Progress<String, Json>, ServerAction<String>) {
    match step {
        Step::Act { progress, action } => (progress, action),
        other => panic!("{:?}", other),
    }
}

fn done(step: Step) -> Result<String, String> {
    match step {
        Step::Done(outcome) => outcome.map(|value| printed(&value)),
        other => panic!("{:?}", other),
    }
}

#[test]
fn the_status_of_a_server_takes_two_questions() {
    let (progress, action) = act(advance(Progress::System, ServerEvent::Answer(Json::text("s"))));
    assert_eq!(action, ServerAction::ServiceStatuses);
    assert_eq!(
        done(advance(progress, ServerEvent::Answer(Json::array()))),
        Ok("{\"services\":[],\"system\":\"s\"}".to_string())
    );
}

#[test]
fn the_web_server_is_read_and_tested() {
    let (progress, action) = act(advance(Progress::Nginx, ServerEvent::Answer(Json::Null)));
    assert_eq!(action, ServerAction::TestNginxConfig);
    let tested = ServerEvent::Tested { valid: true, output: "ok".to_string() };
    let (progress, action) = act(advance(progress, tested));
    assert_eq!(action, ServerAction::ListVhosts);
    assert_eq!(
        done(advance(progress, ServerEvent::Answer(Json::array()))),
        Ok("{\"config_test_output\":\"ok\",\"config_valid\":true,\"service\":null,\"vhosts\":[]}".to_string())
    );
}

#[test]
fn logs_are_read_of_a_listed_container() {
    let logs = || Progress::LogContainers { requested: "web".to_string(), lines: 5 };
    let listed = vec![container("1", "db", "up"), container("2", "web", "up")];
    let (progress, action) = act(advance(logs(), ServerEvent::Containers(listed)));
    assert_eq!(action, ServerAction::ContainerLogs { id: "2".to_string(), lines: 5 });
    assert_eq!(
        done(advance(progress, ServerEvent::Text("line".to_string()))),
        Ok("{\"container\":{\"id\":\"2\",\"name\":\"web\"},\"lines\":5,\"logs\":\"line\"}".to_string())
    );
    assert_eq!(
        done(advance(logs(), ServerEvent::Containers(vec![]))),
        Err("Container not found in LeePanel: web".to_string())
    );
}

#[test]
fn a_container_is_compared_before_and_after_an_action() {
    let begin = Progress::ActionContainers {
        requested: "1".to_string(),
        action: "stop".to_string(),
    };
    let listed = ServerEvent::Containers(vec![container("1", "web", "running")]);
    let (progress, action) = act(advance(begin, listed));
    assert_eq!(
        action,
        ServerAction::ContainerAction { id: "1".to_string(), action: "stop".to_string() }
    );
    let (progress, action) = act(advance(progress, ServerEvent::Text("stopped".to_string())));
    assert_eq!(action, ServerAction::FindContainers);
    let listed = ServerEvent::Containers(vec![container("1", "web", "exited")]);
    assert_eq!(
        done(advance(progress, listed)),
        Ok("{\"action\":\"stop\",\"after\":{\"state\":\"exited\",\"status\":\"exited since today\"},\"before\":{\"state\":\"running\",\"status\":\"running since today\"},\"container\":{\"id\":\"1\",\"name\":\"web\"},\"message\":\"stopped\"}".to_string())
    );
    let gone = Progress::Acted {
        id: "1".to_string(),
        name: "web".to_string(),
        action: "stop".to_string(),
        before: Json::Null,
        message: "m".to_string(),
    };
    assert!(done(advance(gone, ServerEvent::Containers(vec![])))
        .unwrap()
        .contains("\"after\":null"));
}

#[test]
fn a_site_is_changed_only_where_it_must_be() {
    let site = |enabled: bool| Site {
        domain: "x.org".to_string(),
        config_path: "/etc/x".to_string(),
        enabled,
    };
    let begin = || Progress::SiteList { domain: "x.org".to_string(), enabled: true };
    assert_eq!(
        done(advance(begin(), ServerEvent::Sites(vec![site(true)]))),
        Ok("{\"domain\":\"x.org\",\"enabled\":true,\"message\":\"Site x.org is already enabled\"}".to_string())
    );
    let (progress, action) = act(advance(begin(), ServerEvent::Sites(vec![site(false)])));
    assert_eq!(
        action,
        ServerAction::ToggleSite {
            config_path: "/etc/x".to_string(),
            domain: "x.org".to_string(),
            enabled: true
        }
    );
    assert_eq!(
        done(advance(progress, ServerEvent::Text("done".to_string()))),
        Ok("{\"domain\":\"x.org\",\"enabled\":true,\"message\":\"done\"}".to_string())
    );
    assert_eq!(
        done(advance(begin(), ServerEvent::Sites(vec![]))),
        Err("Site not found in LeePanel: x.org".to_string())
    );
}

#[test]
fn files_and_commands_are_answered() {
    let file = Progress::File { path: "/e".to_string(), max_bytes: 3 };
    assert_eq!(
        done(advance(file, ServerEvent::Text("ab你".to_string()))),
        Ok("{\"content\":\"ab\",\"path\":\"/e\",\"truncated\":true}".to_string())
    );
    let writing = Progress::Writing { path: "/e".to_string(), bytes: 7 };
    assert_eq!(
        done(advance(writing, ServerEvent::Written)),
        Ok("{\"bytes_written\":7,\"path\":\"/e\"}".to_string())
    );
    let finished = ServerEvent::Finished {
        stdout: "x".repeat(65537),
        stderr: "e".to_string(),
        exit_code: -1,
    };
    let answer = done(advance(Progress::Command, finished)).unwrap();
    assert!(answer.starts_with("{\"exit_code\":-1,\"stderr\":\"e\",\"stdout\":\"xxx"));
    assert!(answer.ends_with("x\",\"truncated\":true}"));
    assert_eq!(
        printed(&command_result("o".to_string(), "e".to_string(), 2)),
        "{\"exit_code\":2,\"stderr\":\"e\",\"stdout\":\"o\",\"truncated\":false}"
    );
    assert_eq!(
        done(advance(Progress::Plain, ServerEvent::Failed("lost".to_string()))),
        Err("lost".to_string())
    );
}

#[test]
fn only_fitting_events_are_answers() {
    assert!(can_answer(&Progress::Plain, &ServerEvent::Answer(Json::Null)));
    assert!(can_answer(&Progress::Plain, &ServerEvent::Failed(String::new())));
    assert!(!can_answer(&Progress::Plain, &ServerEvent::Written));
    assert!(!can_answer(&Progress::Command, &ServerEvent::Text(String::new())));
}
