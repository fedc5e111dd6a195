//! Commands, transfers and connections, event by event.

use leepanel::cache::{reusable_at_age, value_at_age, SftpCache, SshCache};
use leepanel::channel::{
    check_space, exec_with_output, joined_output, required_output, set_permissions,
    set_permissions_outcome, start_output, ChannelEvent, ChmodStep, ExecStep, ReportStep,
};
use leepanel::connect::{
    do_connect, finish_connect, send_failed, shell_on_event, start_connect, ConnectAction,
    ConnectEvent, ConnectStep, Connecting, ShellStep,
};
use leepanel::failures::Failure;
use leepanel::files::{
    list_dir, listing_outcome, save_piece, stat_file, transfer_gate, transfer_stopped, upload,
    upload_chunk, FileAttributes, FileEntry, TransferGate, UploadOpening,
};
use leepanel::json::Json;
use leepanel::json_text::compact_json;
use leepanel::sessions::{ConnectInfo, SshManager, SshSession};
use leepanel::transfers::{
    compress, copy_dir, copy_file, copy_started, download_file, download_progress, extract,
    session_copy_dir, session_copy_file, start_archiving, start_downloading, Archiving,
    DownloadStep, Flow, Notice,
};
use std::time::Duration;
use tokio::time::Instant;

type Event = ChannelEvent<String>;

fn data(text: &str) -> Event {
    ChannelEvent::Data(text.to_string())
}

fn extended(text: &str, ext: u32) -> Event {
    ChannelEvent::Extended { data: text.to_string(), ext }
}

fn told(notice: &Notice) -> String {
    format!("{} {}", notice.topic, compact_json(&notice.payload).unwrap())
}

fn all_told(notices: &[Notice]) -> Vec<String> {
    notices.iter().map(told).collect()
}

fn execute(events: Vec<Event>) -> Result<(String, String, i32), String> {
    let mut output = start_output();
    for event in events {
        match exec_with_output(output, event, 60) {
            ExecStep::Wait(more) => output = more,
            ExecStep::Done(outcome) => return outcome,
        }
    }
    panic!("the command is not over")
}

#[test]
fn all_output_of_a_command_is_given() {
    let events = vec![
        data("a"),
        extended("e", 1),
        extended("x", 2),
        ChannelEvent::Eof,
        data("b"),
        ChannelEvent::ExitStatus(3),
        ChannelEvent::Other,
        ChannelEvent::Close,
    ];
    assert_eq!(execute(events), Ok(("ab".to_string(), "e".to_string(), 3)));
    assert_eq!(execute(vec![ChannelEvent::Ended]), Ok((String::new(), String::new(), -1)));
    let killed = vec![ChannelEvent::ExitStatus(u32::MAX), ChannelEvent::Close];
    assert_eq!(execute(killed).unwrap().2, u32::MAX as i32);
    let odd = vec![ChannelEvent::ExitStatus(0x8000_0000), ChannelEvent::Close];
    assert_eq!(execute(odd).unwrap().2, 0x8000_0000_u32 as i32);
    assert_eq!(
        execute(vec![data("a"), ChannelEvent::Deadline]),
        Err("Command timed out after 60s".to_string())
    );
}

#[test]
fn outcomes_of_commands_are_read() {
    assert_eq!(joined_output("a", "b"), "ab");
    assert_eq!(required_output("pwd", " /root\n"), Ok("/root".to_string()));
    assert_eq!(required_output("pwd", " \n"), Err("Empty output for: pwd".to_string()));
    assert_eq!(set_permissions_outcome("x", 0), Ok(()));
    assert_eq!(set_permissions_outcome(" no \n", 1), Err("chmod error: no".to_string()));
}

#[test]
fn permissions_fail_by_their_error_output() {
    let wait = |kept: &str| ChmodStep::Wait(kept.to_string());
    assert_eq!(set_permissions(String::new(), extended("no\n", 1)), wait("no\n"));
    assert_eq!(set_permissions(String::new(), extended("no\n", 2)), wait(""));
    assert_eq!(set_permissions("a".to_string(), ChannelEvent::ExitStatus(1)), wait("a"));
    for end in [ChannelEvent::Eof, ChannelEvent::Close, ChannelEvent::Deadline, data("x")] {
        assert_eq!(set_permissions(String::new(), end), ChmodStep::Done(Ok(())));
    }
    assert_eq!(
        set_permissions("no\n".to_string(), ChannelEvent::Ended),
        ChmodStep::Done(Err("chmod error: no".to_string()))
    );
}

#[test]
fn space_is_reported_until_the_end() {
    let kept = "1\n".to_string();
    assert_eq!(check_space(kept.clone(), data("2"), true), ReportStep::Wait("1\n2".to_string()));
    assert_eq!(
        check_space(kept.clone(), extended("e", 1), true),
        ReportStep::Wait(kept.clone())
    );
    assert_eq!(
        check_space(kept.clone(), ChannelEvent::ExitStatus(0), true),
        ReportStep::Done("1".to_string())
    );
    assert_eq!(
        check_space(kept.clone(), ChannelEvent::ExitStatus(0), false),
        ReportStep::Wait(kept.clone())
    );
    assert_eq!(check_space(kept, ChannelEvent::Eof, false), ReportStep::Done("1".to_string()));
}

#[test]
fn copies_tell_their_lines() {
    assert_eq!(
        told(&copy_started("s", "cp -v")),
        "copy-progress {\"line\":\"$ cp -v\",\"sessionId\":\"s\",\"status\":\"copying\"}"
    );
    let (flow, notices) = copy_file("s", "kept".to_string(), data("one\n\ntwo\n"));
    assert_eq!(flow, Flow::Wait("kept".to_string()));
    assert_eq!(
        all_told(&notices),
        vec![
            "copy-progress {\"line\":\"one\",\"sessionId\":\"s\",\"status\":\"copying\"}",
            "copy-progress {\"line\":\"two\",\"sessionId\":\"s\",\"status\":\"copying\"}",
        ]
    );
    let (flow, notices) = copy_file("s", "a".to_string(), extended("x\ny\n", 1));
    assert_eq!(flow, Flow::Wait("ax\ny\n".to_string()));
    assert_eq!(notices.len(), 2);
    let (flow, _) = session_copy_file("s", "a".to_string(), extended("x\n \ny\n", 1));
    assert_eq!(flow, Flow::Wait("axy".to_string()));
    let (flow, notices) = session_copy_dir("s", "a".to_string(), extended("x", 3));
    assert_eq!((flow, notices.len()), (Flow::Wait("a".to_string()), 0));
}

#[test]
fn copies_end_with_their_status() {
    let (flow, notices) = copy_dir("s", " no\n".to_string(), ChannelEvent::ExitStatus(1));
    assert_eq!(flow, Flow::Done(Err("cp -r failed (exit 1): no".to_string())));
    assert_eq!(
        all_told(&notices),
        vec!["copy-progress {\"line\":\"cp -r failed (exit 1): no\",\"sessionId\":\"s\",\"status\":\"error\"}"]
    );
    let (flow, _) = copy_file("s", String::new(), ChannelEvent::ExitStatus(2));
    assert_eq!(flow, Flow::Done(Err("cp failed (exit 2): ".to_string())));
    assert_eq!(copy_file("s", String::new(), ChannelEvent::ExitStatus(0)).0, Flow::Done(Ok(())));
    assert_eq!(
        copy_file("s", String::new(), ChannelEvent::Ended).0,
        Flow::Done(Err("Connection lost during copy".to_string()))
    );
    assert_eq!(
        copy_file("s", "k".to_string(), ChannelEvent::Close).0,
        Flow::Wait("k".to_string())
    );
}

fn archive_outcome(
    step: fn(&str, Archiving, Event) -> (Flow<Archiving>, Vec<Notice>),
    events: Vec<Event>,
) -> Option<(Result<(), String>, Vec<String>)> {
    let mut state = start_archiving();
    for event in events {
        match step("s", state, event) {
            (Flow::Wait(kept), _) => state = kept,
            (Flow::Done(outcome), notices) => return Some((outcome, all_told(&notices))),
        }
    }
    None
}

#[test]
fn packing_ends_by_its_status() {
    let run = |events| archive_outcome(compress, events);
    let (flow, notices) = compress("s", start_archiving(), data("a/\n"));
    assert_eq!(flow, Flow::Wait(Archiving { written: "a/\n".to_string(), status: None }));
    assert_eq!(
        all_told(&notices),
        vec!["archive-progress {\"line\":\"a/\",\"sessionId\":\"s\",\"status\":\"compressing\"}"]
    );
    let done = Some((
        Ok(()),
        vec!["archive-progress {\"line\":\"Compression completed.\",\"sessionId\":\"s\",\"status\":\"done\"}".to_string()],
    ));
    for end in [
        ChannelEvent::Eof,
        ChannelEvent::Close,
        ChannelEvent::Ended,
        ChannelEvent::Deadline,
    ] {
        assert_eq!(run(vec![data("a"), ChannelEvent::ExitStatus(0), end]), done);
    }
    assert_eq!(
        run(vec![ChannelEvent::Eof, ChannelEvent::ExitStatus(0), ChannelEvent::Close]),
        done
    );
    let failed = |text: &str| Some((Err(format!("Compression failed: {}", text)), vec![]));
    assert_eq!(
        run(vec![data("a\n"), extended("no\n", 1), ChannelEvent::ExitStatus(2), ChannelEvent::Eof]),
        failed("a\nno")
    );
    assert_eq!(run(vec![data("a"), ChannelEvent::Eof, ChannelEvent::Close]), failed("a"));
    assert_eq!(run(vec![ChannelEvent::Ended]), failed(""));
    assert_eq!(run(vec![ChannelEvent::Eof, extended("x", 2), ChannelEvent::Other]), None);
    assert_eq!(
        run(vec![ChannelEvent::Deadline]),
        Some((Err("Compress operation timed out".to_string()), vec![]))
    );
}

#[test]
fn unpacking_ends_by_its_status() {
    let run = |events| archive_outcome(extract, events).unwrap();
    assert_eq!(
        run(vec![data("x\n"), ChannelEvent::ExitStatus(0), ChannelEvent::Eof]),
        (
            Ok(()),
            vec!["archive-progress {\"line\":\"Extraction completed.\",\"sessionId\":\"s\",\"status\":\"done\"}".to_string()]
        )
    );
    assert_eq!(
        run(vec![data("x\n"), extended("bad", 1), ChannelEvent::ExitStatus(1), ChannelEvent::Close]),
        (Err("Extraction failed: x\nbad".to_string()), vec![])
    );
    assert_eq!(
        run(vec![ChannelEvent::Deadline]),
        (Err("Extract operation timed out".to_string()), vec![])
    );
    assert_eq!(
        run(vec![data("x"), ChannelEvent::Eof, ChannelEvent::Close]),
        (Err("Extraction failed: x".to_string()), vec![])
    );
    assert_eq!(archive_outcome(extract, vec![ChannelEvent::Eof]), None);
}

#[test]
fn downloads_tell_their_percentages() {
    let state = match download_file("s", start_downloading(), extended("\r 1.5%\r 20%", 1)) {
        DownloadStep::Wait { state, percentages } => {
            assert_eq!(percentages, vec!["1.5", "20"]);
            state
        }
        step => panic!("{:?}", step),
    };
    assert_eq!(state.stderr, "\r 1.5%\r 20%");
    let state = match download_file("s", state, ChannelEvent::Eof) {
        DownloadStep::Wait { state, .. } => state,
        step => panic!("{:?}", step),
    };
    let state = match download_file("s", state, ChannelEvent::ExitStatus(0)) {
        DownloadStep::Wait { state, .. } => state,
        step => panic!("{:?}", step),
    };
    match download_file("s", state, ChannelEvent::Close) {
        DownloadStep::Done { outcome, notice } => {
            assert_eq!(outcome, Ok(()));
            assert_eq!(
                told(&notice),
                "download-progress {\"progress\":100,\"sessionId\":\"s\",\"status\":\"done\"}"
            );
        }
        step => panic!("{:?}", step),
    }
    assert_eq!(
        told(&download_progress("s", Json::Unsigned(7))),
        "download-progress {\"progress\":7,\"sessionId\":\"s\",\"status\":\"downloading\"}"
    );
}

#[test]
fn failed_downloads_tell_both_outputs() {
    let mut state = start_downloading();
    for event in [data(" out \n"), extended("404\n", 1), ChannelEvent::ExitStatus(22)] {
        state = match download_file("s", state, event) {
            DownloadStep::Wait { state, .. } => state,
            step => panic!("{:?}", step),
        };
    }
    match download_file("s", state, ChannelEvent::Close) {
        DownloadStep::Done { outcome, notice } => {
            assert_eq!(outcome, Err("Download failed: out404".to_string()));
            assert_eq!(
                told(&notice),
                "download-progress {\"error\":\"out404\",\"progress\":0,\"sessionId\":\"s\",\"status\":\"error\"}"
            );
        }
        step => panic!("{:?}", step),
    }
}

#[test]
fn downloads_without_a_status_fail() {
    for end in [ChannelEvent::Deadline, ChannelEvent::Close, ChannelEvent::Ended] {
        match download_file("s", start_downloading(), end) {
            DownloadStep::Done { outcome, notice } => {
                assert_eq!(outcome, Err("Download failed: ".to_string()));
                assert_eq!(
                    told(&notice),
                    "download-progress {\"error\":\"\",\"progress\":0,\"sessionId\":\"s\",\"status\":\"error\"}"
                );
            }
            step => panic!("{:?}", step),
        }
    }
    assert_eq!(
        download_file("s", start_downloading(), ChannelEvent::Eof),
        DownloadStep::Wait { state: start_downloading(), percentages: vec![] }
    );
}

fn info(password: Option<&str>, key_path: Option<&str>) -> ConnectInfo {
    ConnectInfo {
        host: "h.org".to_string(),
        port: 2222,
        username: "u".to_string(),
        password: password.map(|text| text.to_string()),
        key_path: key_path.map(|text| text.to_string()),
        cols: 80,
        rows: 24,
    }
}

fn next(info: &ConnectInfo, state: Connecting) -> ConnectStep {
    do_connect(info, state, ConnectEvent::Succeeded)
}

fn failure(state: Connecting, event: ConnectEvent) -> String {
    match do_connect(&info(None, None), state, event) {
        ConnectStep::Done(Err(error)) => error,
        step => panic!("{:?}", step),
    }
}

#[test]
fn connecting_goes_from_the_handshake_to_the_shell() {
    let with_key = info(Some("pw"), Some("/k"));
    let act = |state, action| ConnectStep::Act { state, action };
    assert_eq!(
        start_connect(&with_key),
        act(
            Connecting::Handshake,
            ConnectAction::Handshake { address: "h.org:2222".to_string(), timeout_secs: 15 }
        )
    );
    assert_eq!(
        next(&with_key, Connecting::Handshake),
        act(Connecting::Key, ConnectAction::LoadKey { path: "/k".to_string() })
    );
    assert_eq!(
        next(&with_key, Connecting::Key),
        act(Connecting::KeyLogin, ConnectAction::KeyLogin { username: "u".to_string() })
    );
    assert_eq!(
        next(&info(Some("pw"), None), Connecting::Handshake),
        act(
            Connecting::PasswordLogin,
            ConnectAction::PasswordLogin { username: "u".to_string(), password: "pw".to_string() }
        )
    );
    for login in [Connecting::KeyLogin, Connecting::PasswordLogin] {
        assert_eq!(
            next(&with_key, login),
            act(Connecting::Session, ConnectAction::OpenSession)
        );
    }
    assert_eq!(
        next(&with_key, Connecting::Session),
        act(
            Connecting::Pty,
            ConnectAction::RequestPty {
                terminal: "xterm-256color".to_string(),
                cols: 80,
                rows: 24
            }
        )
    );
    assert_eq!(
        next(&with_key, Connecting::Pty),
        act(Connecting::Shell, ConnectAction::RequestShell)
    );
    assert_eq!(next(&with_key, Connecting::Shell), ConnectStep::Done(Ok(())));
}

#[test]
fn connecting_fails_with_a_reason() {
    assert_eq!(
        failure(Connecting::Handshake, ConnectEvent::TimedOut),
        "Connection timeout: h.org:2222 unreachable"
    );
    assert_eq!(
        failure(Connecting::Handshake, ConnectEvent::Succeeded),
        "No authentication method provided"
    );
    assert_eq!(
        failure(Connecting::KeyLogin, ConnectEvent::Rejected),
        "Key auth failed: server rejected the key"
    );
    assert_eq!(
        failure(Connecting::PasswordLogin, ConnectEvent::Rejected),
        "Password auth failed: incorrect password"
    );
    for (state, message) in [
        (Connecting::Handshake, "Connection failed: x"),
        (Connecting::Key, "Failed to load key: x"),
        (Connecting::KeyLogin, "Key auth error: x"),
        (Connecting::PasswordLogin, "Password auth error: x"),
        (Connecting::Session, "Failed to open session: x"),
        (Connecting::Pty, "PTY request failed: x"),
        (Connecting::Shell, "Shell request failed: x"),
    ] {
        assert_eq!(failure(state, ConnectEvent::Failed("x".to_string())), message);
    }
}

#[test]
fn the_shell_tells_its_output_and_its_end() {
    match shell_on_event("s", data("$ ")) {
        ShellStep::Tell(notice) => {
            assert_eq!(told(&notice), "ssh-output {\"data\":\"$ \",\"sessionId\":\"s\"}")
        }
        step => panic!("{:?}", step),
    }
    for end in [ChannelEvent::Close, ChannelEvent::Eof, ChannelEvent::Ended] {
        match shell_on_event("s", end) {
            ShellStep::Lost(notice) => assert_eq!(
                told(&notice),
                "ssh-disconnected {\"reason\":\"Connection lost\",\"sessionId\":\"s\"}"
            ),
            step => panic!("{:?}", step),
        }
    }
    assert_eq!(shell_on_event("s", extended("x", 1)), ShellStep::Quiet);
    assert_eq!(
        told(&send_failed("s")),
        "ssh-disconnected {\"reason\":\"Send failed\",\"sessionId\":\"s\"}"
    );
}

#[test]
fn sessions_keep_what_they_were_opened_with() {
    let dialled = || info(Some("p"), Some("/key"));
    let mut manager: SshManager<u8> = SshManager::new();
    let opened = finish_connect(dialled(), Ok(()), Some(7));
    assert_eq!(manager.connect("a".to_string(), opened), Ok(()));
    assert_eq!(manager.get_connect_info("a"), Some(dialled()));
    assert_eq!(manager.get_session("a").map(|s| s.handle), Ok(7));
    let refused = finish_connect(dialled(), Err("no".to_string()), Some(8));
    assert_eq!(manager.connect("b".to_string(), refused), Err("no".to_string()));
    let missing = finish_connect::<u8>(dialled(), Ok(()), None);
    assert_eq!(
        manager.connect("b".to_string(), missing),
        Err("The connection is not open".to_string())
    );
    assert_eq!(manager.get_connect_info("b"), None);
}

#[test]
fn sessions_are_kept_by_their_ids() {
    let mut manager: SshManager<u8> = SshManager::new();
    let session = |handle: u8| SshSession { handle, connect_info: info(None, None) };
    assert_eq!(manager.connect("a".to_string(), Err("no".to_string())), Err("no".to_string()));
    assert_eq!(manager.connect("a".to_string(), Ok(session(1))), Ok(()));
    assert_eq!(manager.connect("b".to_string(), Ok(session(2))), Ok(()));
    assert_eq!(manager.get_session("a").map(|s| s.handle), Ok(1));
    assert_eq!(manager.get_session("c").map(|s| s.handle), Err("Session not found".to_string()));
    assert_eq!(manager.get_host("b"), Some("h.org".to_string()));
    assert!(manager.find_session_id("h.org", 2222, "u").is_some());
    assert!(manager.find_session_id("h.org", 22, "u").is_none());
    assert_eq!(manager.get_connect_info("a"), Some(info(None, None)));
    let (again, taken) = manager.reconnect("a").unwrap();
    assert_eq!((again, taken.handle), (info(None, None), 1));
    assert!(manager.get_session("a").is_err());
    assert_eq!(
        manager.reconnected("a".to_string(), None),
        Err("Reconnect timed out (30s)".to_string())
    );
    assert!(manager.get_session("a").is_err());
    assert_eq!(manager.reconnected("a".to_string(), Some(Ok(session(3)))), Ok(()));
    assert_eq!(manager.get_session("a").map(|s| s.handle), Ok(3));
    assert_eq!(
        manager.reconnect("x").map(|(again, _)| again),
        Err("Session not found".to_string())
    );
    assert_eq!(manager.disconnect("b").map(|s| s.handle), Some(2));
    assert!(manager.disconnect("b").is_none());
}

#[test]
fn kept_values_grow_old() {
    assert_eq!(value_at_age("v", 59, 60), Some("v".to_string()));
    assert_eq!(value_at_age("v", 60, 60), None);
    assert_eq!(value_at_age("v", 1000, 0), Some("v".to_string()));
    assert!(reusable_at_age(29));
    assert!(!reusable_at_age(30));
    let mut cache = SftpCache::new();
    assert_eq!(cache.get(), None);
    cache.put(7);
    assert_eq!(cache.get(), Some(&7));
    cache.put(8);
    assert_eq!(cache.get(), Some(&8));
    cache.reset();
    assert_eq!(cache.get(), None);
}

#[test]
fn kept_values_are_found_for_their_lifetime() {
    let start = Instant::now();
    let after = |secs: u64, millis: u64| start + Duration::from_millis(secs * 1000 + millis);
    let mut cache = SshCache::new();
    cache.put_at("s", "other", "w".to_string(), after(50, 0));
    cache.put_at("s", "k", "v".to_string(), start);
    assert_eq!(cache.get_at("s", "k", 60, &after(59, 999)), Some("v".to_string()));
    assert_eq!(cache.get_at("s", "k", 60, &after(60, 0)), None);
    assert_eq!(cache.get_at("s", "k", 61, &after(60, 0)), Some("v".to_string()));
    assert_eq!(cache.get_at("s", "k", 0, &after(1000, 0)), Some("v".to_string()));
    assert_eq!(cache.get_at("s", "other", 60, &after(60, 0)), Some("w".to_string()));
    cache.invalidate("s", &["other"]);
    cache.put_at("s", "k", "v2".to_string(), after(70, 0));
    assert_eq!(cache.get_at("s", "k", 60, &after(129, 0)), Some("v2".to_string()));
    assert_eq!(cache.get_at("s", "k", 60, &after(130, 0)), None);
    assert_eq!(cache.get_at("s", "other", 0, &after(60, 0)), None);
}

#[test]
fn kept_handles_are_used_again_for_a_while() {
    let start = Instant::now();
    let mut cache = SftpCache::new();
    assert_eq!(cache.get_at(&start), None);
    cache.put_at(7, start);
    assert_eq!(cache.get_at(&(start + Duration::from_millis(29999))), Some(&7));
    assert_eq!(cache.get_at(&(start + Duration::from_secs(30))), None);
    cache.put_at(8, start + Duration::from_secs(30));
    assert_eq!(cache.get_at(&(start + Duration::from_secs(30))), Some(&8));
    cache.reset();
    assert_eq!(cache.get_at(&start), None);
}

#[test]
fn directories_are_listed() {
    let attributes = |mode: Option<u32>| FileAttributes {
        size: Some(4096),
        mode,
        mtime: None,
        user: Some("root".to_string()),
    };
    let entry = |mode| FileEntry { name: "a".to_string(), attributes: attributes(mode) };
    assert_eq!(
        list_dir(&vec![entry(Some(0o40754))]),
        Ok("[{\"isDir\":true,\"isSymlink\":false,\"mtime\":0,\"name\":\"a\",\"owner\":\"root\",\"permissions\":\"rwxr-xr--\",\"size\":4096}]".to_string())
    );
    for (mode, letters) in [
        (Some(0o100421), "r---w---x"),
        (Some(0o120777), "rwxrwxrwx"),
        (Some(0o100136), "--x-wxrw-"),
        (None, "---------"),
    ] {
        assert!(list_dir(&vec![entry(mode)]).unwrap().contains(letters));
    }
    assert_eq!(list_dir(&vec![]), Ok("[]".to_string()));
    assert_eq!(listing_outcome(Err("x".to_string())), Err("JSON error: x".to_string()));
    assert_eq!(
        compact_json(&stat_file(&attributes(Some(0o100644)))),
        Ok("{\"exists\":true,\"isDir\":false,\"isFile\":true,\"isSymlink\":false,\"size\":4096}".to_string())
    );
    let link = compact_json(&stat_file(&attributes(Some(0o120777)))).unwrap();
    assert!(link.contains("\"isFile\":false") && link.contains("\"isSymlink\":true"));
    let unknown = FileAttributes { size: None, mode: None, mtime: None, user: None };
    let told = compact_json(&stat_file(&unknown)).unwrap();
    assert!(told.contains("\"isFile\":true") && told.contains("\"size\":0"));
}

#[test]
fn uploads_go_piece_by_piece() {
    let mut sent = 0;
    let mut pieces = Vec::new();
    while let Some((end, notice)) = upload("s", 70000, sent) {
        pieces.push((end, told(&notice)));
        sent = end;
    }
    assert_eq!(pieces.iter().map(|piece| piece.0).collect::<Vec<_>>(), vec![32768, 65536, 70000]);
    assert_eq!(
        pieces[0].1,
        "upload-progress {\"progress\":46,\"sent\":32768,\"sessionId\":\"s\",\"total\":70000}"
    );
    assert!(pieces[2].1.contains("\"progress\":100"));
    assert!(upload("s", 0, 0).is_none());
    assert_eq!(upload_chunk(0), UploadOpening::Create);
    assert_eq!(upload_chunk(1), UploadOpening::At(1));
    assert_eq!(upload_chunk(65536), UploadOpening::At(65536));
}

#[test]
fn transfers_stop_before_they_pause() {
    assert_eq!(transfer_gate(true, true), TransferGate::Stop);
    assert_eq!(transfer_gate(false, true), TransferGate::Pause);
    assert_eq!(transfer_gate(false, false), TransferGate::Go);
    assert_eq!(transfer_stopped(), "Transfer stopped");
    let (now, notice) = save_piece("s", 10, 5, 100).unwrap();
    assert_eq!(now, 15);
    assert_eq!(
        told(&notice),
        "save-local-progress {\"sessionId\":\"s\",\"total\":100,\"uploaded\":15}"
    );
    assert!(save_piece("s", 10, 0, 100).is_none());
}

#[test]
fn failures_are_reported_with_their_reason() {
    assert_eq!(Failure::Exec.report("x"), "Exec failed: x");
    assert_eq!(Failure::SftpStart.report("x"), "SFTP init failed: x");
    assert_eq!(Failure::Stat.report("x"), "Path does not exist: x");
    assert_eq!(Failure::CreateTempDir.report("x"), "Failed to create temp dir: x");
}
