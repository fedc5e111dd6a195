//! The registration with the Codex program.

use leepanel::codex::{
    codex_candidates, codex_failure, codex_file_name, command_error, comparable_path, default_true,
    describe_failure, find_codex, get_arguments, mcp_version_at, newest, paths_equal,
    read_outcome, Candidate, CodexArg, CodexMcpRegistration, CodexMcpTransport, CodexRead,
    CodexRun, CommandOutput, Platform,
};
use leepanel::registration::{
    mcp_register, register_mcp, registration_status, switch_after_register, unregister_mcp,
    RegisterAction, RegisterEvent, RegisterStep, Registering, UnregisterStep, Unregistering,
};

fn output(success: bool, stdout: &str, stderr: &str) -> CommandOutput {
    CommandOutput {
        success,
        status: "exit status: 1".to_string(),
        stdout: stdout.as_bytes().to_vec(),
        stderr: stderr.as_bytes().to_vec(),
    }
}

fn registration(command: &str, args: &[&str]) -> CodexMcpRegistration {
    CodexMcpRegistration {
        enabled: true,
        transport: CodexMcpTransport {
            command: command.to_string(),
            args: args.iter().map(|arg| arg.to_string()).collect(),
            env: Some(vec![("A".to_string(), "1".to_string())]),
        },
    }
}

fn own() -> CodexRead {
    CodexRead::Registered { registration: registration("/own", &["--mcp"]), same_program: true }
}

fn other() -> CodexRead {
    CodexRead::Registered {
        registration: registration("/old", &["serve", "x"]),
        same_program: false,
    }
}

fn ran(success: bool) -> RegisterEvent {
    RegisterEvent::Run(CodexRun::Ended(output(success, "", " broken \n")))
}

fn words(args: &[CodexArg<String>]) -> Vec<String> {
    args.iter()
        .map(|arg| match arg {
            CodexArg::Text(text) => text.clone(),
            CodexArg::OwnProgram => "<own>".to_string(),
        })
        .collect()
}

fn run_words(action: &RegisterAction) -> Vec<String> {
    match action {
        RegisterAction::Run(args) | RegisterAction::Read(args) => words(args),
        other => panic!("{:?}", other),
    }
}

fn act(step: RegisterStep) -> (Registering, RegisterAction) {
    match step {
        RegisterStep::Act { state, action } => (state, action),
        other => panic!("{:?}", other),
    }
}

/// Runs registering on events, and gives the words of its runs and its outcome.
fn register(events: Vec<RegisterEvent>) -> (Vec<Vec<String>>, Result<(), String>) {
    let mut state = Registering::Codex;
    let mut runs = Vec::new();
    for event in events {
        match register_mcp(state, event) {
            RegisterStep::Done(outcome) => return (runs, outcome),
            RegisterStep::Act { state: next, action } => {
                if let RegisterAction::Run(_) | RegisterAction::Read(_) = action {
                    runs.push(run_words(&action));
                }
                state = next;
            }
        }
    }
    panic!("registering is not over")
}

fn beginning(read: CodexRead) -> Vec<RegisterEvent> {
    vec![
        RegisterEvent::Codex(true),
        RegisterEvent::Program(Ok("/own".to_string())),
        RegisterEvent::Version(Some(output(true, "1.0\n", ""))),
        RegisterEvent::Read(read),
    ]
}

fn add_own() -> Vec<&'static str> {
    vec!["mcp", "add", "leepanel", "--", "<own>", "--mcp"]
}

#[test]
fn a_current_registration_is_left_alone() {
    let (runs, outcome) = register(beginning(own()));
    assert_eq!(outcome, Ok(()));
    assert_eq!(runs, vec![vec!["mcp", "get", "leepanel", "--json"]]);
    assert_eq!(words(&get_arguments()), vec!["mcp", "get", "leepanel", "--json"]);
}

#[test]
fn a_new_registration_is_added_and_verified() {
    let mut events = beginning(CodexRead::NotRegistered);
    events.extend([ran(true), RegisterEvent::Read(own())]);
    let (runs, outcome) = register(events);
    assert_eq!(outcome, Ok(()));
    assert_eq!(runs[1], add_own());
    assert_eq!(runs[2], vec!["mcp", "get", "leepanel", "--json"]);
}

#[test]
fn a_failed_registration_is_undone() {
    let mut events = beginning(other());
    events.extend([ran(true), ran(false), ran(true), ran(true)]);
    let (runs, outcome) = register(events);
    assert_eq!(
        outcome,
        Err("Adding LeePanel MCP registration failed: broken. Previous registration restored: true".to_string())
    );
    assert_eq!(runs[1], vec!["mcp", "remove", "leepanel"]);
    assert_eq!(runs[2], add_own());
    assert_eq!(runs[3], vec!["mcp", "remove", "leepanel"]);
    assert_eq!(
        runs[4],
        vec!["mcp", "add", "leepanel", "--env", "A=1", "--", "/old", "serve", "x"]
    );
}

#[test]
fn an_unverified_registration_is_undone() {
    let mut events = beginning(CodexRead::NotRegistered);
    events.extend([ran(true), RegisterEvent::Read(other()), ran(false)]);
    assert_eq!(
        register(events).1,
        Err("LeePanel MCP registration verification failed. Previous registration restored: true".to_string())
    );
    let mut events = beginning(other());
    let malformed = CodexRead::Malformed("eof".to_string());
    events.extend([ran(true), ran(true), RegisterEvent::Read(malformed), ran(true), ran(false)]);
    assert_eq!(
        register(events).1,
        Err("Codex returned invalid LeePanel MCP registration data: eof. Previous registration restored: false".to_string())
    );
}

#[test]
fn registering_needs_working_programs() {
    assert_eq!(
        register(vec![RegisterEvent::Codex(false)]).1,
        Err("ChatGPT / Codex CLI was not found".to_string())
    );
    let lost = RegisterEvent::Program(Err("gone".to_string()));
    assert_eq!(register(vec![RegisterEvent::Codex(true), lost]).1, Err("gone".to_string()));
    for version in [None, Some(output(true, " \n", "")), Some(output(false, "1.0", ""))] {
        let events = vec![
            RegisterEvent::Codex(true),
            RegisterEvent::Program(Ok("/own".to_string())),
            RegisterEvent::Version(version),
        ];
        assert_eq!(
            register(events).1,
            Err("LeePanel MCP executable could not be verified: /own".to_string())
        );
    }
    let failed = CodexRead::Failed("cannot run".to_string());
    assert_eq!(register(beginning(failed)).1, Err("cannot run".to_string()));
    let mut events = beginning(other());
    events.push(ran(false));
    assert_eq!(
        register(events).1,
        Err("Removing LeePanel MCP registration failed: broken".to_string())
    );
}

#[test]
fn only_the_own_registration_is_taken_back() {
    let next = |state, event| unregister_mcp(state, event);
    assert_eq!(
        next(Unregistering::Codex, RegisterEvent::Codex(false)),
        UnregisterStep::Done(Ok(()))
    );
    assert_eq!(
        next(Unregistering::Reading, RegisterEvent::Read(other())),
        UnregisterStep::Done(Ok(()))
    );
    assert_eq!(
        next(Unregistering::Reading, RegisterEvent::Read(CodexRead::NotRegistered)),
        UnregisterStep::Done(Ok(()))
    );
    match next(Unregistering::Reading, RegisterEvent::Read(own())) {
        UnregisterStep::Act { state, action } => {
            assert_eq!(state, Unregistering::Removing);
            assert_eq!(run_words(&action), vec!["mcp", "remove", "leepanel"]);
        }
        step => panic!("{:?}", step),
    }
    assert_eq!(next(Unregistering::Removing, ran(true)), UnregisterStep::Done(Ok(())));
    assert_eq!(
        next(Unregistering::Removing, RegisterEvent::Run(CodexRun::Failed("x".to_string()))),
        UnregisterStep::Done(Err("x".to_string()))
    );
    let (state, action) = act(register_mcp(Registering::Codex, RegisterEvent::Codex(true)));
    assert_eq!((state, action), (Registering::Program, RegisterAction::FindProgram));
}

#[test]
fn only_what_a_successful_run_prints_is_read() {
    assert_eq!(
        read_outcome(CodexRun::Ended(output(true, "{}", "x"))),
        Ok(Some("{}".as_bytes().to_vec()))
    );
    assert_eq!(read_outcome(CodexRun::Ended(output(false, "{}", "x"))), Ok(None));
    assert_eq!(read_outcome(CodexRun::Failed("no".to_string())), Err("no".to_string()));
}

#[test]
fn the_status_tells_of_the_registration() {
    let version = Some(output(true, " 1.0 \n", ""));
    let status =
        registration_status(Some(("/codex".to_string(), own())), Ok(()), &version, true).unwrap();
    assert!(status.codex_found && status.registered && status.current && status.enabled);
    assert_eq!(status.codex_path, "/codex");
    assert_eq!(status.registered_path, "/own");
    assert_eq!(status.version, "1.0");
    assert!(switch_after_register(&status));
    assert!(mcp_register(status).is_ok());
    let status =
        registration_status(Some(("/codex".to_string(), other())), Ok(()), &None, false).unwrap();
    assert!(status.registered && !status.current);
    assert!(!switch_after_register(&status));
    assert_eq!(
        mcp_register(status),
        Err("LeePanel MCP registration could not be verified".to_string())
    );
    let status = registration_status(None, Ok(()), &None, true).unwrap();
    assert!(!status.codex_found && !status.registered && status.codex_path.is_empty());
    assert_eq!(
        registration_status(None, Err("gone".to_string()), &None, true),
        Err("gone".to_string())
    );
    let failed = CodexRead::Failed("no".to_string());
    assert_eq!(
        registration_status(Some(("/c".to_string(), failed)), Ok(()), &None, true),
        Err("no".to_string())
    );
}

#[test]
fn failures_of_programs_are_described() {
    assert_eq!(describe_failure("A", "s", "out", " err "), "A failed: err");
    assert_eq!(describe_failure("A", "s", " out\n", "\n"), "A failed: out");
    assert_eq!(describe_failure("A", "s", "", ""), "A failed with status s");
    assert_eq!(command_error("A", &output(false, "x", "")), "A failed: x");
    let broken = CommandOutput { stdout: vec![0xff], ..output(false, "", "") };
    assert_eq!(command_error("A", &broken), "A failed: \u{fffd}");
    assert_eq!(codex_failure("/c", "denied"), "Failed to run Codex CLI at /c: denied");
    assert_eq!(mcp_version_at(&Some(output(true, "2.0\n", ""))), "2.0");
}

#[test]
fn the_program_is_looked_for_in_order() {
    assert!(default_true());
    assert_eq!(codex_file_name(Platform::Windows), "codex.exe");
    assert_eq!(codex_file_name(Platform::Linux), "codex");
    let places = codex_candidates(Platform::Linux, true);
    assert_eq!(places.len(), 6);
    assert_eq!(places[0], Candidate::InHome(".local/bin/codex"));
    assert_eq!(places[3], Candidate::At("/usr/local/bin/codex"));
    assert_eq!(codex_candidates(Platform::MacOs, true).len(), 9);
    assert_eq!(codex_candidates(Platform::MacOs, false).len(), 4);
    assert_eq!(codex_candidates(Platform::Windows, false).len(), 0);
    assert_eq!(find_codex(Some(1), Some(2), Some(3)), Some(1));
    assert_eq!(find_codex(None, Some(2), Some(3)), Some(2));
    assert_eq!(find_codex(None, None, Some(3)), Some(3));
    assert_eq!(newest(&vec![Some(5), None, Some(7), Some(7), Some(6)]), Some(3));
    assert_eq!(newest(&vec![None, None]), Some(1));
    assert_eq!(newest(&vec![]), None);
}

#[test]
fn paths_are_compared_as_the_system_does() {
    assert!(paths_equal(Platform::Windows, "C:\\Lee", "c:\\lee", false));
    assert!(!paths_equal(Platform::Windows, "C:\\Lee", "c:\\le", true));
    assert!(!paths_equal(Platform::Linux, "/a", "/a", false));
    assert!(paths_equal(Platform::Linux, "/a", "/b", true));
    assert_eq!(comparable_path(Some(1), false, 2, 3), 1);
    assert_eq!(comparable_path(None, true, 2, 3), 2);
    assert_eq!(comparable_path(None, false, 2, 3), 3);
}
