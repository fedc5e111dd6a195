//! Opening a connection to a server: one step after the other, from the handshake to the
//! shell, and what is told while the shell runs.

use crate::channel::ChannelEvent;
use crate::json::{Json, JsonView};
use crate::sessions::{connected, kept_info, ConnectInfo, SshSession};
use crate::text::{cat2, cat3, decimal, decimal_text};
use crate::transfers::{Notice, NoticeView};
use vstd::prelude::*;

verus! {

/// How many seconds pass between two signs of life of a connection.
pub const KEEPALIVE_SECS: u64 = 10;

/// How many signs of life may stay without an answer.
pub const KEEPALIVE_MAX: usize = 3;

/// After how many seconds a silent connection is given up.
pub const INACTIVITY_SECS: u64 = 60;

/// How many seconds the handshake may take.
pub const HANDSHAKE_SECS: u64 = 15;

/// How many seconds opening a lost connection again may take.
pub const RECONNECT_SECS: u64 = 30;

/// What is done on the network to connect. The texts are of type `T`.
#[derive(Debug, PartialEq, Eq)]
pub enum ConnectAction<T> {
    /// Connect to an address, within some seconds.
    Handshake { address: T, timeout_secs: u64 },
    /// Load a private key.
    LoadKey { path: T },
    /// Log in with the key.
    KeyLogin { username: T },
    /// Log in with a password.
    PasswordLogin { username: T, password: T },
    /// Open a channel.
    OpenSession,
    /// Ask for a terminal of some size.
    RequestPty { terminal: T, cols: u32, rows: u32 },
    /// Ask for a shell.
    RequestShell,
}

impl View for ConnectAction<String> {
    type V = ConnectAction<Seq<char>>;

    open spec fn view(&self) -> ConnectAction<Seq<char>> {
        match *self {
            ConnectAction::Handshake { address, timeout_secs } => ConnectAction::Handshake {
                address: address@,
                timeout_secs,
            },
            ConnectAction::LoadKey { path } => ConnectAction::LoadKey { path: path@ },
            ConnectAction::KeyLogin { username } => ConnectAction::KeyLogin {
                username: username@,
            },
            ConnectAction::PasswordLogin { username, password } => ConnectAction::PasswordLogin {
                username: username@,
                password: password@,
            },
            ConnectAction::OpenSession => ConnectAction::OpenSession,
            ConnectAction::RequestPty { terminal, cols, rows } => ConnectAction::RequestPty {
                terminal: terminal@,
                cols,
                rows,
            },
            ConnectAction::RequestShell => ConnectAction::RequestShell,
        }
    }
}

/// What came of an action.
#[derive(Debug, PartialEq, Eq)]
pub enum ConnectEvent {
    /// It succeeded.
    Succeeded,
    /// It took too long.
    TimedOut,
    /// The server refused the login.
    Rejected,
    /// It failed, for a reason.
    Failed(String),
}

/// How far connecting has come: the action that is under way.
#[derive(Clone, Copy, Debug, PartialEq, Eq, Structural)]
pub enum Connecting {
    Handshake,
    Key,
    KeyLogin,
    PasswordLogin,
    Session,
    Pty,
    Shell,
}

/// What comes next.
#[derive(Debug, PartialEq, Eq)]
pub enum ConnectStep {
    Act { state: Connecting, action: ConnectAction<String> },
    Done(Result<(), String>),
}

/// What a step says.
pub enum ConnectStepView {
    Act { state: Connecting, action: ConnectAction<Seq<char>> },
    Done(Result<(), Seq<char>>),
}

impl View for ConnectStep {
    type V = ConnectStepView;

    open spec fn view(&self) -> ConnectStepView {
        match *self {
            ConnectStep::Act { state, action } => ConnectStepView::Act { state, action: action@ },
            ConnectStep::Done(Ok(())) => ConnectStepView::Done(Ok(())),
            ConnectStep::Done(Err(message)) => ConnectStepView::Done(Err(message@)),
        }
    }
}

/// The address of a server.
pub open spec fn address_of(info: ConnectInfo) -> Seq<char> {
    info.host@ + ":"@ + decimal(info.port as nat)
}

/// The step with which connecting begins.
pub open spec fn first_connect_step(info: ConnectInfo) -> ConnectStepView {
    ConnectStepView::Act {
        state: Connecting::Handshake,
        action: ConnectAction::Handshake {
            address: address_of(info),
            timeout_secs: HANDSHAKE_SECS,
        },
    }
}

fn address(info: &ConnectInfo) -> (text: String)
    ensures
        text@ == address_of(*info),
{
    cat3(info.host.as_str(), ":", decimal_text(info.port as u64).as_str())
}

/// Begins to connect.
pub fn start_connect(info: &ConnectInfo) -> (step: ConnectStep)
    ensures
        step@ == first_connect_step(*info),
{
    ConnectStep::Act {
        state: Connecting::Handshake,
        action: ConnectAction::Handshake { address: address(info), timeout_secs: HANDSHAKE_SECS },
    }
}

/// Whether an event can come of the action that is under way.
pub open spec fn connect_fits(state: Connecting, event: ConnectEvent) -> bool {
    match event {
        ConnectEvent::TimedOut => state == Connecting::Handshake,
        ConnectEvent::Rejected => state == Connecting::KeyLogin || state
            == Connecting::PasswordLogin,
        _ => true,
    }
}

/// What is reported where an action fails for a reason.
pub open spec fn connect_failure(state: Connecting) -> Seq<char> {
    match state {
        Connecting::Handshake => "Connection failed: "@,
        Connecting::Key => "Failed to load key: "@,
        Connecting::KeyLogin => "Key auth error: "@,
        Connecting::PasswordLogin => "Password auth error: "@,
        Connecting::Session => "Failed to open session: "@,
        Connecting::Pty => "PTY request failed: "@,
        Connecting::Shell => "Shell request failed: "@,
    }
}

/// What comes next after an action succeeded: a key counts before a password.
pub open spec fn connect_success(info: ConnectInfo, state: Connecting) -> ConnectStepView {
    match state {
        Connecting::Handshake => match (info.key_path, info.password) {
            (Some(path), _) => ConnectStepView::Act {
                state: Connecting::Key,
                action: ConnectAction::LoadKey { path: path@ },
            },
            (None, Some(password)) => ConnectStepView::Act {
                state: Connecting::PasswordLogin,
                action: ConnectAction::PasswordLogin {
                    username: info.username@,
                    password: password@,
                },
            },
            (None, None) => ConnectStepView::Done(Err("No authentication method provided"@)),
        },
        Connecting::Key => ConnectStepView::Act {
            state: Connecting::KeyLogin,
            action: ConnectAction::KeyLogin { username: info.username@ },
        },
        Connecting::KeyLogin | Connecting::PasswordLogin => ConnectStepView::Act {
            state: Connecting::Session,
            action: ConnectAction::OpenSession,
        },
        Connecting::Session => ConnectStepView::Act {
            state: Connecting::Pty,
            action: ConnectAction::RequestPty {
                terminal: "xterm-256color"@,
                cols: info.cols,
                rows: info.rows,
            },
        },
        Connecting::Pty => ConnectStepView::Act {
            state: Connecting::Shell,
            action: ConnectAction::RequestShell,
        },
        Connecting::Shell => ConnectStepView::Done(Ok(())),
    }
}

/// What comes next after an event.
pub open spec fn next_connect_step(
    info: ConnectInfo,
    state: Connecting,
    event: ConnectEvent,
) -> ConnectStepView {
    match event {
        ConnectEvent::Succeeded => connect_success(info, state),
        ConnectEvent::TimedOut => ConnectStepView::Done(
            Err("Connection timeout: "@ + address_of(info) + " unreachable"@),
        ),
        ConnectEvent::Rejected => ConnectStepView::Done(
            Err(
                if state == Connecting::KeyLogin {
                    "Key auth failed: server rejected the key"@
                } else {
                    "Password auth failed: incorrect password"@
                },
            ),
        ),
        ConnectEvent::Failed(reason) => ConnectStepView::Done(
            Err(connect_failure(state) + reason@),
        ),
    }
}

fn failure_words(state: Connecting) -> (text: &'static str)
    ensures
        text@ == connect_failure(state),
{
    match state {
        Connecting::Handshake => "Connection failed: ",
        Connecting::Key => "Failed to load key: ",
        Connecting::KeyLogin => "Key auth error: ",
        Connecting::PasswordLogin => "Password auth error: ",
        Connecting::Session => "Failed to open session: ",
        Connecting::Pty => "PTY request failed: ",
        Connecting::Shell => "Shell request failed: ",
    }
}

fn after_success(info: &ConnectInfo, state: Connecting) -> (step: ConnectStep)
    ensures
        step@ == connect_success(*info, state),
{
    match state {
        Connecting::Handshake => match (&info.key_path, &info.password) {
            (Some(path), _) => ConnectStep::Act {
                state: Connecting::Key,
                action: ConnectAction::LoadKey { path: path.clone() },
            },
            (None, Some(password)) => ConnectStep::Act {
                state: Connecting::PasswordLogin,
                action: ConnectAction::PasswordLogin {
                    username: info.username.clone(),
                    password: password.clone(),
                },
            },
            (None, None) => ConnectStep::Done(
                Err("No authentication method provided".to_owned()),
            ),
        },
        Connecting::Key => ConnectStep::Act {
            state: Connecting::KeyLogin,
            action: ConnectAction::KeyLogin { username: info.username.clone() },
        },
        Connecting::KeyLogin | Connecting::PasswordLogin => ConnectStep::Act {
            state: Connecting::Session,
            action: ConnectAction::OpenSession,
        },
        Connecting::Session => ConnectStep::Act {
            state: Connecting::Pty,
            action: ConnectAction::RequestPty {
                terminal: "xterm-256color".to_owned(),
                cols: info.cols,
                rows: info.rows,
            },
        },
        Connecting::Pty => ConnectStep::Act {
            state: Connecting::Shell,
            action: ConnectAction::RequestShell,
        },
        Connecting::Shell => ConnectStep::Done(Ok(())),
    }
}

/// Goes on with connecting after an event.
pub fn do_connect(info: &ConnectInfo, state: Connecting, event: ConnectEvent) -> (step: ConnectStep)
    requires
        connect_fits(state, event),
    ensures
        step@ == next_connect_step(*info, state, event),
{
    match event {
        ConnectEvent::Succeeded => after_success(info, state),
        ConnectEvent::TimedOut => ConnectStep::Done(
            Err(cat3("Connection timeout: ", address(info).as_str(), " unreachable")),
        ),
        ConnectEvent::Rejected => {
            let message = match state {
                Connecting::KeyLogin => "Key auth failed: server rejected the key",
                _ => "Password auth failed: incorrect password",
            };
            ConnectStep::Done(Err(message.to_owned()))
        },
        ConnectEvent::Failed(reason) => ConnectStep::Done(
            Err(cat2(failure_words(state), reason.as_str())),
        ),
    }
}

/// Whether `opened` is the session that connecting with some information ends in: it reaches the
/// server by the handle that was opened, and keeps the information as it was given.
pub open spec fn opened_as<H>(
    info: ConnectInfo,
    ended: Result<(), String>,
    handle: Option<H>,
    opened: Result<SshSession<H>, String>,
) -> bool {
    match (ended, handle) {
        (Err(message), _) => opened == Err::<SshSession<H>, String>(message),
        (Ok(()), None) => opened matches Err(message) && message@
            == "The connection is not open"@,
        (Ok(()), Some(handle)) => opened matches Ok(session) && session.connect_info == info
            && session.handle == handle,
    }
}

/// The session that connecting ends in, from how it ended and the handle that was opened.
pub fn finish_connect<H>(info: ConnectInfo, ended: Result<(), String>, handle: Option<H>) -> (
    opened: Result<SshSession<H>, String>)
    ensures
        opened_as(info, ended, handle, opened),
{
    match (ended, handle) {
        (Err(message), _) => Err(message),
        (Ok(()), None) => Err("The connection is not open".to_owned()),
        (Ok(()), Some(handle)) => Ok(SshSession { handle, connect_info: info }),
    }
}

/// A session that was opened and added is found under its id with the host, the port, the user
/// name, the password, the key and the size that it was opened with, and its account counts as
/// connected. Where connecting failed, that failure is the reason why there is none.
pub proof fn law_opened_session_is_found<H>(
    sessions: Map<Seq<char>, SshSession<H>>,
    session_id: Seq<char>,
    info: ConnectInfo,
    ended: Result<(), String>,
    handle: Option<H>,
    opened: Result<SshSession<H>, String>,
)
    requires
        opened_as(info, ended, handle, opened),
    ensures
        opened is Ok <==> ended is Ok && handle is Some,
        ended matches Err(reason) ==> (opened matches Err(message) && message@ == reason@),
        ended is Ok && handle is None ==> (opened matches Err(message) && message@
            == "The connection is not open"@),
        opened matches Ok(session) ==> {
            let added = sessions.insert(session_id, session);
            &&& kept_info(added, session_id) == Some(info)
            &&& added[session_id].handle == handle->0
            &&& connected(added, info.host@, info.port, info.username@)
        },
{
    if let Ok(session) = opened {
        assert(sessions.insert(session_id, session).dom().contains(session_id));
    }
}

/// Where a key is given it alone is tried, and a password only where none is: a key that cannot
/// be loaded or is not accepted is an error.
pub proof fn law_key_before_password(info: ConnectInfo, state: Connecting, event: ConnectEvent)
    requires
        connect_fits(state, event),
    ensures
        info.key_path matches Some(path) ==> next_connect_step(
            info,
            Connecting::Handshake,
            ConnectEvent::Succeeded,
        ) matches ConnectStepView::Act { action, .. } && action == (ConnectAction::LoadKey {
            path: path@,
        }),
        info.key_path is Some ==> !(next_connect_step(
            info,
            state,
            event,
        ) matches ConnectStepView::Act { action: ConnectAction::PasswordLogin { .. }, .. }),
        (state == Connecting::Key || state == Connecting::KeyLogin) && !(event is Succeeded)
            ==> next_connect_step(info, state, event) matches ConnectStepView::Done(Err(_)),
        info.key_path is None ==> (info.password matches Some(password) ==> next_connect_step(
            info,
            Connecting::Handshake,
            ConnectEvent::Succeeded,
        ) matches ConnectStepView::Act { action, .. } && action == (ConnectAction::PasswordLogin {
            username: info.username@,
            password: password@,
        })),
{
}

/// How many actions connecting can still need after the one under way.
pub open spec fn connect_actions_left(state: Connecting) -> nat {
    match state {
        Connecting::Handshake => 5,
        Connecting::Key => 4,
        Connecting::KeyLogin => 3,
        Connecting::PasswordLogin => 3,
        Connecting::Session => 2,
        Connecting::Pty => 1,
        Connecting::Shell => 0,
    }
}

/// Connecting ends: each action leaves fewer of them to do.
pub proof fn law_connecting_ends(info: ConnectInfo, state: Connecting, event: ConnectEvent)
    ensures
        next_connect_step(info, state, event) matches ConnectStepView::Act { state: next, .. }
            ==> connect_actions_left(next) < connect_actions_left(state),
{
}

/// A channel is opened only after a login that the server accepted, and connecting succeeds
/// only with a shell.
pub proof fn law_no_shell_without_login(info: ConnectInfo, state: Connecting, event: ConnectEvent)
    requires
        connect_fits(state, event),
    ensures
        next_connect_step(info, state, event) matches ConnectStepView::Act {
            action: ConnectAction::OpenSession,
            ..
        } ==> event is Succeeded && (state == Connecting::KeyLogin || state
            == Connecting::PasswordLogin),
        next_connect_step(info, state, event) matches ConnectStepView::Done(Ok(())) ==> event
            is Succeeded && state == Connecting::Shell,
{
}

/// Without a key and a password nobody logs in.
pub proof fn law_nothing_to_log_in_with(info: ConnectInfo)
    requires
        info.key_path is None,
        info.password is None,
    ensures
        next_connect_step(info, Connecting::Handshake, ConnectEvent::Succeeded)
            == ConnectStepView::Done(Err("No authentication method provided"@)),
{
}

/// What is told of the output of a shell.
pub open spec fn output_notice(session_id: Seq<char>, text: Seq<char>) -> NoticeView {
    NoticeView {
        topic: "ssh-output"@,
        payload: JsonView::Object(
            map!["sessionId"@ => JsonView::Text(session_id), "data"@ => JsonView::Text(text)],
        ),
    }
}

/// What is told of a connection that is gone.
pub open spec fn disconnect_notice(session_id: Seq<char>, reason: Seq<char>) -> NoticeView {
    NoticeView {
        topic: "ssh-disconnected"@,
        payload: JsonView::Object(
            map!["sessionId"@ => JsonView::Text(session_id), "reason"@ => JsonView::Text(reason)],
        ),
    }
}

fn tell_disconnect(session_id: &str, reason: &str) -> (notice: Notice)
    ensures
        notice@ == disconnect_notice(session_id@, reason@),
{
    let payload = Json::object().with("sessionId", Json::text(session_id)).with(
        "reason",
        Json::text(reason),
    );
    Notice { topic: "ssh-disconnected", payload }
}

/// What is told of a connection over which nothing can be sent.
pub fn send_failed(session_id: &str) -> (notice: Notice)
    ensures
        notice@ == disconnect_notice(session_id@, "Send failed"@),
{
    tell_disconnect(session_id, "Send failed")
}

/// What comes of the shell after an event.
#[derive(Debug, PartialEq)]
pub enum ShellStep {
    /// There is nothing to tell.
    Quiet,
    /// There is something to tell.
    Tell(Notice),
    /// The shell is gone: this is told, and the tunnels of its session are closed.
    Lost(Notice),
}

/// Goes on with the shell after an event.
pub fn shell_on_event(session_id: &str, event: ChannelEvent<String>) -> (step: ShellStep)
    ensures
        match event@ {
            ChannelEvent::Data(text) => step matches ShellStep::Tell(notice) && notice@
                == output_notice(session_id@, text),
            ChannelEvent::Close | ChannelEvent::Eof | ChannelEvent::Ended => step matches
                ShellStep::Lost(notice) && notice@ == disconnect_notice(
                session_id@,
                "Connection lost"@,
            ),
            _ => step is Quiet,
        },
{
    match event {
        ChannelEvent::Data(text) => {
            let payload = Json::object().with("sessionId", Json::text(session_id)).with(
                "data",
                Json::Text(text),
            );
            ShellStep::Tell(Notice { topic: "ssh-output", payload })
        },
        ChannelEvent::Close | ChannelEvent::Eof | ChannelEvent::Ended => ShellStep::Lost(
            tell_disconnect(session_id, "Connection lost"),
        ),
        _ => ShellStep::Quiet,
    }
}

/// A connection is opened to the host and the port that were given. After the login a channel is
/// opened, then a terminal of the given size is asked for on it, then a shell; with the shell the
/// connection is there.
pub proof fn law_connection_goes_from_the_address_to_the_shell(info: ConnectInfo)
    ensures
        first_connect_step(info) == (ConnectStepView::Act {
            state: Connecting::Handshake,
            action: ConnectAction::Handshake {
                address: info.host@ + ":"@ + decimal(info.port as nat),
                timeout_secs: 15,
            },
        }),
        next_connect_step(info, Connecting::Key, ConnectEvent::Succeeded) == (ConnectStepView::Act {
            state: Connecting::KeyLogin,
            action: ConnectAction::KeyLogin { username: info.username@ },
        }),
        forall|state: Connecting|
            state == Connecting::KeyLogin || state == Connecting::PasswordLogin
                ==> #[trigger] next_connect_step(info, state, ConnectEvent::Succeeded) == (
            ConnectStepView::Act { state: Connecting::Session, action: ConnectAction::OpenSession }),
        next_connect_step(info, Connecting::Session, ConnectEvent::Succeeded) == (
        ConnectStepView::Act {
            state: Connecting::Pty,
            action: ConnectAction::RequestPty {
                terminal: "xterm-256color"@,
                cols: info.cols,
                rows: info.rows,
            },
        }),
        next_connect_step(info, Connecting::Pty, ConnectEvent::Succeeded) == (
        ConnectStepView::Act { state: Connecting::Shell, action: ConnectAction::RequestShell }),
        next_connect_step(info, Connecting::Shell, ConnectEvent::Succeeded)
            == ConnectStepView::Done(Ok(())),
{
}

/// Whatever goes wrong ends the attempt, and what is told names the step that failed and the
/// reason: a server that does not answer in time by its address, and a login that is refused by
/// what was refused.
pub proof fn law_failed_connection_tells_why(info: ConnectInfo, state: Connecting, reason: String)
    ensures
        next_connect_step(info, state, ConnectEvent::TimedOut) == ConnectStepView::Done(
            Err(
                "Connection timeout: "@ + (info.host@ + ":"@ + decimal(info.port as nat))
                    + " unreachable"@,
            ),
        ),
        next_connect_step(info, Connecting::KeyLogin, ConnectEvent::Rejected)
            == ConnectStepView::Done(Err("Key auth failed: server rejected the key"@)),
        next_connect_step(info, Connecting::PasswordLogin, ConnectEvent::Rejected)
            == ConnectStepView::Done(Err("Password auth failed: incorrect password"@)),
        next_connect_step(info, state, ConnectEvent::Failed(reason)) == ConnectStepView::Done(
            Err(
                (match state {
                    Connecting::Handshake => "Connection failed: "@,
                    Connecting::Key => "Failed to load key: "@,
                    Connecting::KeyLogin => "Key auth error: "@,
                    Connecting::PasswordLogin => "Password auth error: "@,
                    Connecting::Session => "Failed to open session: "@,
                    Connecting::Pty => "PTY request failed: "@,
                    Connecting::Shell => "Shell request failed: "@,
                }) + reason@,
            ),
        ),
{
}

/// What is told of a shell names its session, and the output or the reason as it was.
pub proof fn law_shell_notices_name_their_session(session_id: Seq<char>, text: Seq<char>)
    ensures
        output_notice(session_id, text).topic == "ssh-output"@,
        output_notice(session_id, text).payload.text_field("sessionId"@) == Some(session_id),
        output_notice(session_id, text).payload.text_field("data"@) == Some(text),
        disconnect_notice(session_id, text).topic == "ssh-disconnected"@,
        disconnect_notice(session_id, text).payload.text_field("sessionId"@) == Some(session_id),
        disconnect_notice(session_id, text).payload.text_field("reason"@) == Some(text),
{
    reveal_strlit("sessionId");
    reveal_strlit("data");
    reveal_strlit("reason");
    assert("sessionId"@.len() == 9 && "data"@.len() == 4 && "reason"@.len() == 6);
}

/// A connection is given 15 seconds for its handshake, is kept alive every 10 seconds with at
/// most 3 signs of life unanswered, is given up after 60 silent seconds, and when it is opened
/// again may take 30 seconds.
pub proof fn law_times_of_a_connection()
    ensures
        HANDSHAKE_SECS == 15,
        KEEPALIVE_SECS == 10,
        KEEPALIVE_MAX == 3,
        INACTIVITY_SECS == 60,
        RECONNECT_SECS == 30,
        KEEPALIVE_SECS * KEEPALIVE_MAX < INACTIVITY_SECS,
{
}

/// A step of connecting says what it holds, each thing in its own place.
pub proof fn law_connect_steps_say_what_they_hold(step: ConnectStep, action: ConnectAction<String>)
    ensures
        action matches ConnectAction::Handshake { address, timeout_secs } ==> action@ == (
        ConnectAction::Handshake { address: address@, timeout_secs }),
        action matches ConnectAction::LoadKey { path } ==> action@ == (ConnectAction::LoadKey {
            path: path@,
        }),
        action matches ConnectAction::KeyLogin { username } ==> action@ == (
        ConnectAction::KeyLogin { username: username@ }),
        action matches ConnectAction::PasswordLogin { username, password } ==> action@ == (
        ConnectAction::PasswordLogin { username: username@, password: password@ }),
        action is OpenSession <==> action@ is OpenSession,
        action matches ConnectAction::RequestPty { terminal, cols, rows } ==> action@ == (
        ConnectAction::RequestPty { terminal: terminal@, cols, rows }),
        action is RequestShell <==> action@ is RequestShell,
        step matches ConnectStep::Act { state, action: next } ==> step@ == (ConnectStepView::Act {
            state,
            action: next@,
        }),
        step matches ConnectStep::Done(Ok(())) ==> step@ == ConnectStepView::Done(Ok(())),
        step matches ConnectStep::Done(Err(message)) ==> step@ == ConnectStepView::Done(
            Err(message@),
        ),
{
}

} // verus!
