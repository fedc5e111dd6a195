//! The registration of the tools with the Codex command line: where its program is looked
//! for, what it is run with, and what is made of its output.

use crate::bytes::{lossy_text, text_of_bytes};
use crate::escalation::{ascii_lower, lower_char};
use crate::spaces::{is_blank, law_trimmed_has_no_space_around, trim, trimmed};
use crate::text::{cat2, cat3, cat4, chars_of, has_suffix, text_eq};
use vstd::prelude::*;

verus! {

/// Whether a registration is enabled where it does not say.
pub fn default_true() -> (enabled: bool)
    ensures
        enabled,
{
    true
}

/// How the registered program is started.
#[derive(Debug, PartialEq, Eq)]
pub struct CodexMcpTransport {
    pub command: String,
    pub args: Vec<String>,
    /// The variables that it is started with, by their names.
    pub env: Option<Vec<(String, String)>>,
}

/// A registration.
#[derive(Debug, PartialEq, Eq)]
pub struct CodexMcpRegistration {
    pub enabled: bool,
    pub transport: CodexMcpTransport,
}

/// The system that the panel runs on.
#[derive(Clone, Copy, Debug, PartialEq, Eq, Structural)]
pub enum Platform {
    Windows,
    MacOs,
    Linux,
    Other,
}

/// The name of the program.
pub fn codex_file_name(platform: Platform) -> (name: &'static str)
    ensures
        name@ == if platform == Platform::Windows {
            "codex.exe"@
        } else {
            "codex"@
        },
{
    if platform == Platform::Windows {
        "codex.exe"
    } else {
        "codex"
    }
}

/// A place where the program may be.
#[derive(Clone, Copy, Debug, PartialEq, Eq)]
pub enum Candidate {
    /// Below the home directory of the user.
    InHome(&'static str),
    /// Anywhere else.
    At(&'static str),
}

/// What a place says.
pub enum CandidateView {
    InHome(Seq<char>),
    At(Seq<char>),
}

impl View for Candidate {
    type V = CandidateView;

    open spec fn view(&self) -> CandidateView {
        match *self {
            Candidate::InHome(path) => CandidateView::InHome(path@),
            Candidate::At(path) => CandidateView::At(path@),
        }
    }
}

/// The places below the home directory.
pub open spec fn home_candidates(platform: Platform) -> Seq<CandidateView> {
    let common = seq![
        CandidateView::InHome(".local/bin/codex"@),
        CandidateView::InHome(".cargo/bin/codex"@),
        CandidateView::InHome(".npm-global/bin/codex"@),
    ];
    if platform == Platform::MacOs {
        common + seq![
            CandidateView::InHome("Applications/Codex.app/Contents/Resources/codex"@),
            CandidateView::InHome("Applications/ChatGPT.app/Contents/Resources/codex"@),
        ]
    } else {
        common
    }
}

/// The places elsewhere.
pub open spec fn system_candidates(platform: Platform) -> Seq<CandidateView> {
    match platform {
        Platform::MacOs => seq![
            CandidateView::At("/Applications/Codex.app/Contents/Resources/codex"@),
            CandidateView::At("/Applications/ChatGPT.app/Contents/Resources/codex"@),
            CandidateView::At("/opt/homebrew/bin/codex"@),
            CandidateView::At("/usr/local/bin/codex"@),
        ],
        Platform::Linux => seq![
            CandidateView::At("/usr/local/bin/codex"@),
            CandidateView::At("/usr/bin/codex"@),
            CandidateView::At("/home/linuxbrew/.linuxbrew/bin/codex"@),
        ],
        _ => Seq::empty(),
    }
}

/// The places in which the program is looked for, in this order, where it is not on the path.
pub open spec fn candidates(platform: Platform, has_home: bool) -> Seq<CandidateView> {
    if has_home {
        home_candidates(platform) + system_candidates(platform)
    } else {
        system_candidates(platform)
    }
}

/// Places as what they say.
pub open spec fn candidates_view(places: Seq<Candidate>) -> Seq<CandidateView> {
    places.map_values(|place: Candidate| place@)
}

/// The places in which the program is looked for, where it is not on the path.
pub fn codex_candidates(platform: Platform, has_home: bool) -> (places: Vec<Candidate>)
    ensures
        candidates_view(places@) == candidates(platform, has_home),
{
    let mut places: Vec<Candidate> = Vec::new();
    if has_home {
        places.push(Candidate::InHome(".local/bin/codex"));
        places.push(Candidate::InHome(".cargo/bin/codex"));
        places.push(Candidate::InHome(".npm-global/bin/codex"));
        if platform == Platform::MacOs {
            places.push(Candidate::InHome("Applications/Codex.app/Contents/Resources/codex"));
            places.push(Candidate::InHome("Applications/ChatGPT.app/Contents/Resources/codex"));
        }
    }
    match platform {
        Platform::MacOs => {
            places.push(Candidate::At("/Applications/Codex.app/Contents/Resources/codex"));
            places.push(Candidate::At("/Applications/ChatGPT.app/Contents/Resources/codex"));
            places.push(Candidate::At("/opt/homebrew/bin/codex"));
            places.push(Candidate::At("/usr/local/bin/codex"));
        },
        Platform::Linux => {
            places.push(Candidate::At("/usr/local/bin/codex"));
            places.push(Candidate::At("/usr/bin/codex"));
            places.push(Candidate::At("/home/linuxbrew/.linuxbrew/bin/codex"));
        },
        _ => {},
    }
    assert(candidates_view(places@) =~= candidates(platform, has_home));
    places
}

/// The program to run: the bundled one, then the one on the path, then the first one that was
/// found elsewhere.
pub fn find_codex<P>(bundled: Option<P>, on_path: Option<P>, elsewhere: Option<P>) -> (found:
    Option<P>)
    ensures
        found == if bundled is Some {
            bundled
        } else if on_path is Some {
            on_path
        } else {
            elsewhere
        },
{
    if bundled.is_some() {
        bundled
    } else if on_path.is_some() {
        on_path
    } else {
        elsewhere
    }
}

/// Whether a file was changed at least as late as another one: a file whose time is not known
/// counts as the oldest.
pub open spec fn as_late(one: Option<i128>, other: Option<i128>) -> bool {
    match (one, other) {
        (_, None) => true,
        (None, Some(_)) => false,
        (Some(a), Some(b)) => a >= b,
    }
}

/// Finds the file that was changed last, by the times of all; of several, the last one in the
/// list.
pub fn newest(modified: &Vec<Option<i128>>) -> (place: Option<usize>)
    ensures
        place is None <==> modified@.len() == 0,
        place matches Some(p) ==> {
            &&& p < modified@.len()
            &&& forall|i: int|
                0 <= i < modified@.len() ==> as_late(modified@[p as int], #[trigger] modified@[i])
            &&& forall|i: int|
                p < i < modified@.len() ==> !as_late(#[trigger] modified@[i], modified@[p as int])
        },
{
    if modified.len() == 0 {
        return None;
    }
    let mut best: usize = 0;
    let mut i: usize = 1;
    while i < modified.len()
        invariant
            1 <= i <= modified@.len(),
            best < i,
            forall|j: int| 0 <= j < i ==> as_late(modified@[best as int], #[trigger] modified@[j]),
            forall|j: int|
                best < j < i ==> !as_late(#[trigger] modified@[j], modified@[best as int]),
        decreases modified@.len() - i,
    {
        let later = match (modified[i], modified[best]) {
            (_, None) => true,
            (None, Some(_)) => false,
            (Some(a), Some(b)) => a >= b,
        };
        if later {
            best = i;
        }
        i += 1;
    }
    Some(best)
}

/// The program that is registered: the image of the panel, where it runs from one and the
/// image can be run, and else the program itself.
pub fn select_mcp_executable<P>(
    current: P,
    appimage: Option<P>,
    appimage_is_executable: bool,
    use_appimage: bool,
) -> (selected: P)
    ensures
        selected == if use_appimage && appimage is Some && appimage_is_executable {
            appimage->0
        } else {
            current
        },
{
    if use_appimage && appimage_is_executable {
        match appimage {
            Some(path) => path,
            None => current,
        }
    } else {
        current
    }
}

/// The path by which a program is compared: its canonical one where there is one, and else
/// the path itself, below the current directory where it is relative.
pub fn comparable_path<P>(canonical: Option<P>, is_absolute: bool, path: P, in_current_dir: P) -> (
comparable: P)
    ensures
        comparable == match canonical {
            Some(found) => found,
            None => if is_absolute {
                path
            } else {
                in_current_dir
            },
        },
{
    match canonical {
        Some(found) => found,
        None => if is_absolute {
            path
        } else {
            in_current_dir
        },
    }
}

/// Whether two texts differ at most in the case of their ASCII letters.
pub open spec fn same_ignoring_case(left: Seq<char>, right: Seq<char>) -> bool {
    &&& left.len() == right.len()
    &&& forall|i: int|
        0 <= i < left.len() ==> ascii_lower(#[trigger] left[i]) == ascii_lower(right[i])
}

fn eq_ignore_ascii_case(left: &str, right: &str) -> (same: bool)
    ensures
        same == same_ignoring_case(left@, right@),
{
    let left_chars = chars_of(left);
    let right_chars = chars_of(right);
    if left_chars.len() != right_chars.len() {
        return false;
    }
    let mut i: usize = 0;
    while i < left_chars.len()
        invariant
            i <= left_chars@.len(),
            left_chars@ == left@,
            right_chars@ == right@,
            left@.len() == right@.len(),
            forall|j: int|
                0 <= j < i ==> ascii_lower(#[trigger] left@[j]) == ascii_lower(right@[j]),
        decreases left_chars@.len() - i,
    {
        if lower_char(left_chars[i]) != lower_char(right_chars[i]) {
            assert(ascii_lower(left@[i as int]) != ascii_lower(right@[i as int]));
            return false;
        }
        i += 1;
    }
    true
}

/// Whether two comparable paths lead to the same program: on Windows their texts may differ in
/// case, elsewhere the paths must be the same.
pub fn paths_equal(platform: Platform, left: &str, right: &str, same_path: bool) -> (equal: bool)
    ensures
        equal == if platform == Platform::Windows {
            same_ignoring_case(left@, right@)
        } else {
            same_path
        },
{
    if platform == Platform::Windows {
        eq_ignore_ascii_case(left, right)
    } else {
        same_path
    }
}

/// Whether a registration starts a program with the one argument that makes it serve tools.
pub open spec fn is_current(registration: CodexMcpRegistration, same_program: bool) -> bool {
    &&& registration.enabled
    &&& same_program
    &&& registration.transport.args@.len() == 1
    &&& registration.transport.args@[0]@ == "--mcp"@
}

/// Whether a registration is the one that the panel makes, where it is known whether it starts
/// the program of the panel.
pub fn registration_is_current(registration: &CodexMcpRegistration, same_program: bool) -> (
current: bool)
    ensures
        current == is_current(*registration, same_program),
{
    registration.enabled && same_program && registration.transport.args.len() == 1 && text_eq(
        registration.transport.args[0].as_str(),
        "--mcp",
    )
}

/// What a program that was run left behind.
#[derive(Debug, PartialEq, Eq)]
pub struct CommandOutput {
    pub success: bool,
    /// How it ended, in words.
    pub status: String,
    pub stdout: Vec<u8>,
    pub stderr: Vec<u8>,
}

/// What is reported of a program that failed: what it wrote to its error output, else what it
/// wrote to its output, else how it ended.
pub open spec fn failure_text(
    action: Seq<char>,
    status: Seq<char>,
    stdout: Seq<char>,
    stderr: Seq<char>,
) -> Seq<char> {
    let detail = if trimmed(stderr).len() > 0 {
        trimmed(stderr)
    } else {
        trimmed(stdout)
    };
    if detail.len() == 0 {
        action + " failed with status "@ + status
    } else {
        action + " failed: "@ + detail
    }
}

/// What is reported of a program that failed.
pub open spec fn failure(action: Seq<char>, output: CommandOutput) -> Seq<char> {
    failure_text(action, output.status@, lossy_text(output.stdout@), lossy_text(output.stderr@))
}

/// What is reported of a program that failed, from its outputs as text.
pub fn describe_failure(action: &str, status: &str, stdout: &str, stderr: &str) -> (message: String)
    ensures
        message@ == failure_text(action@, status@, stdout@, stderr@),
{
    let stderr = trim(stderr);
    let stdout = trim(stdout);
    let detail = if !stderr.as_str().is_empty() {
        stderr
    } else {
        stdout
    };
    if detail.as_str().is_empty() {
        cat3(action, " failed with status ", status)
    } else {
        cat3(action, " failed: ", detail.as_str())
    }
}

/// What is reported of a program that failed.
pub fn command_error(action: &str, output: &CommandOutput) -> (message: String)
    ensures
        message@ == failure(action@, *output),
{
    let stderr = text_of_bytes(output.stderr.as_slice());
    let stdout = text_of_bytes(output.stdout.as_slice());
    describe_failure(action, output.status.as_str(), stdout.as_str(), stderr.as_str())
}

/// What came of running the Codex program.
#[derive(Debug, PartialEq, Eq)]
pub enum CodexRun {
    /// It could not be run, for a reason.
    Failed(String),
    /// It ended.
    Ended(CommandOutput),
}

/// What is reported where the Codex program cannot be run.
pub fn codex_failure(program: &str, error: &str) -> (message: String)
    ensures
        message@ == "Failed to run Codex CLI at "@ + program@ + ": "@ + error@,
{
    cat4("Failed to run Codex CLI at ", program, ": ", error)
}

/// What a run that should change the registration comes to.
pub open spec fn run_outcome(action: Seq<char>, run: CodexRun) -> Result<(), Seq<char>> {
    match run {
        CodexRun::Failed(error) => Err(error@),
        CodexRun::Ended(output) => if output.success {
            Ok(())
        } else {
            Err(failure(action, output))
        },
    }
}

/// An outcome as what it says.
pub open spec fn unit_view(outcome: Result<(), String>) -> Result<(), Seq<char>> {
    match outcome {
        Ok(()) => Ok(()),
        Err(message) => Err(message@),
    }
}

fn settle_run(action: &str, run: CodexRun) -> (outcome: Result<(), String>)
    ensures
        unit_view(outcome) == run_outcome(action@, run),
{
    match run {
        CodexRun::Failed(error) => Err(error),
        CodexRun::Ended(output) => if output.success {
            Ok(())
        } else {
            Err(command_error(action, &output))
        },
    }
}

/// What a run that should remove the registration comes to.
pub open spec fn removal(run: CodexRun) -> Result<(), Seq<char>> {
    run_outcome("Removing LeePanel MCP registration"@, run)
}

/// What a run that should remove the registration comes to.
pub fn remove_codex_registration(run: CodexRun) -> (outcome: Result<(), String>)
    ensures
        unit_view(outcome) == removal(run),
{
    settle_run("Removing LeePanel MCP registration", run)
}

/// What a run that should add the registration comes to.
pub open spec fn addition(run: CodexRun) -> Result<(), Seq<char>> {
    run_outcome("Adding LeePanel MCP registration"@, run)
}

/// What a run that should add the registration comes to.
pub fn add_codex_registration(run: CodexRun) -> (outcome: Result<(), String>)
    ensures
        unit_view(outcome) == addition(run),
{
    settle_run("Adding LeePanel MCP registration", run)
}

/// An argument of the Codex program. The texts are of type `T`.
#[derive(Debug, PartialEq, Eq)]
pub enum CodexArg<T> {
    /// A text.
    Text(T),
    /// The path of the program of the panel.
    OwnProgram,
}

impl View for CodexArg<String> {
    type V = CodexArg<Seq<char>>;

    open spec fn view(&self) -> CodexArg<Seq<char>> {
        match *self {
            CodexArg::Text(text) => CodexArg::Text(text@),
            CodexArg::OwnProgram => CodexArg::OwnProgram,
        }
    }
}

/// Arguments as what they say.
pub open spec fn args_view(args: Seq<CodexArg<String>>) -> Seq<CodexArg<Seq<char>>> {
    args.map_values(|arg: CodexArg<String>| arg@)
}

/// The arguments that read the registration.
pub open spec fn get_args() -> Seq<CodexArg<Seq<char>>> {
    seq![
        CodexArg::Text("mcp"@),
        CodexArg::Text("get"@),
        CodexArg::Text("leepanel"@),
        CodexArg::Text("--json"@),
    ]
}

/// The arguments that remove the registration.
pub open spec fn remove_args() -> Seq<CodexArg<Seq<char>>> {
    seq![CodexArg::Text("mcp"@), CodexArg::Text("remove"@), CodexArg::Text("leepanel"@)]
}

/// The arguments that set variables.
pub open spec fn env_args(env: Seq<(String, String)>) -> Seq<CodexArg<Seq<char>>>
    decreases env.len(),
{
    if env.len() == 0 {
        Seq::empty()
    } else {
        env_args(env.drop_last()).push(CodexArg::Text("--env"@)).push(
            CodexArg::Text(env.last().0@ + "="@ + env.last().1@),
        )
    }
}

/// Texts as arguments.
pub open spec fn text_args(texts: Seq<String>) -> Seq<CodexArg<Seq<char>>> {
    texts.map_values(|text: String| CodexArg::Text(text@))
}

/// The arguments that add a registration: of a program, with its own arguments behind it.
pub open spec fn add_args(
    program: CodexArg<Seq<char>>,
    args: Seq<CodexArg<Seq<char>>>,
    env: Seq<(String, String)>,
) -> Seq<CodexArg<Seq<char>>> {
    seq![CodexArg::Text("mcp"@), CodexArg::Text("add"@), CodexArg::Text("leepanel"@)] + env_args(
        env,
    ) + seq![CodexArg::Text("--"@), program] + args
}

/// The arguments that add the registration of the panel.
pub open spec fn own_args() -> Seq<CodexArg<Seq<char>>> {
    add_args(CodexArg::OwnProgram, seq![CodexArg::Text("--mcp"@)], Seq::empty())
}

/// The variables of a registration; none where it does not say.
pub open spec fn env_of(registration: CodexMcpRegistration) -> Seq<(String, String)> {
    match registration.transport.env {
        Some(env) => env@,
        None => Seq::empty(),
    }
}

/// The arguments that add a registration again.
pub open spec fn restore_args(registration: CodexMcpRegistration) -> Seq<CodexArg<Seq<char>>> {
    add_args(
        CodexArg::Text(registration.transport.command@),
        text_args(registration.transport.args@),
        env_of(registration),
    )
}

/// The arguments that read the registration.
pub fn get_arguments() -> (args: Vec<CodexArg<String>>)
    ensures
        args_view(args@) == get_args(),
{
    let args = vec![
        CodexArg::Text("mcp".to_owned()),
        CodexArg::Text("get".to_owned()),
        CodexArg::Text("leepanel".to_owned()),
        CodexArg::Text("--json".to_owned()),
    ];
    assert(args_view(args@) =~= get_args());
    args
}

/// The arguments that remove the registration.
pub fn remove_arguments() -> (args: Vec<CodexArg<String>>)
    ensures
        args_view(args@) == remove_args(),
{
    let args = vec![
        CodexArg::Text("mcp".to_owned()),
        CodexArg::Text("remove".to_owned()),
        CodexArg::Text("leepanel".to_owned()),
    ];
    assert(args_view(args@) =~= remove_args());
    args
}

fn push_arg(args: &mut Vec<CodexArg<String>>, arg: CodexArg<String>)
    ensures
        args_view(final(args)@) == args_view(old(args)@).push(arg@),
{
    args.push(arg);
    assert(args_view(args@) =~= args_view(old(args)@).push(arg@));
}

fn start_add(env: &Vec<(String, String)>, program: CodexArg<String>) -> (args: Vec<
    CodexArg<String>,
>)
    ensures
        args_view(args@) == add_args(program@, Seq::empty(), env@),
{
    let mut args: Vec<CodexArg<String>> = Vec::new();
    push_arg(&mut args, CodexArg::Text("mcp".to_owned()));
    push_arg(&mut args, CodexArg::Text("add".to_owned()));
    push_arg(&mut args, CodexArg::Text("leepanel".to_owned()));
    let ghost head = seq![
        CodexArg::Text("mcp"@),
        CodexArg::Text("add"@),
        CodexArg::Text("leepanel"@),
    ];
    assert(args_view(args@) =~= head + env_args(env@.take(0)));
    let mut i: usize = 0;
    while i < env.len()
        invariant
            i <= env@.len(),
            args_view(args@) == head + env_args(env@.take(i as int)),
        decreases env@.len() - i,
    {
        assert(env@.take(i + 1).drop_last() == env@.take(i as int));
        push_arg(&mut args, CodexArg::Text("--env".to_owned()));
        push_arg(&mut args, CodexArg::Text(cat3(env[i].0.as_str(), "=", env[i].1.as_str())));
        assert(args_view(args@) =~= head + env_args(env@.take(i + 1)));
        i += 1;
    }
    assert(env@.take(env@.len() as int) == env@);
    push_arg(&mut args, CodexArg::Text("--".to_owned()));
    push_arg(&mut args, program);
    assert(args_view(args@) =~= add_args(program@, Seq::empty(), env@));
    args
}

/// The arguments that add the registration of the panel.
pub fn own_arguments() -> (args: Vec<CodexArg<String>>)
    ensures
        args_view(args@) == own_args(),
{
    let env: Vec<(String, String)> = Vec::new();
    let mut args = start_add(&env, CodexArg::OwnProgram);
    push_arg(&mut args, CodexArg::Text("--mcp".to_owned()));
    assert(env@ =~= Seq::empty());
    assert(args_view(args@) =~= own_args());
    args
}

/// The arguments that add a registration again.
pub fn restore_arguments(registration: &CodexMcpRegistration) -> (args: Vec<CodexArg<String>>)
    ensures
        args_view(args@) == restore_args(*registration),
{
    let none: Vec<(String, String)> = Vec::new();
    let env = match &registration.transport.env {
        Some(env) => env,
        None => &none,
    };
    assert(env@ =~= env_of(*registration));
    let own = &registration.transport.args;
    let mut args = start_add(env, CodexArg::Text(registration.transport.command.clone()));
    let ghost start = args_view(args@);
    let mut i: usize = 0;
    while i < own.len()
        invariant
            i <= own@.len(),
            args_view(args@) == start + text_args(own@).take(i as int),
        decreases own@.len() - i,
    {
        push_arg(&mut args, CodexArg::Text(own[i].clone()));
        assert(args_view(args@) =~= start + text_args(own@).take(i + 1));
        i += 1;
    }
    assert(args_view(args@) =~= restore_args(*registration));
    args
}

/// What came of reading the registration.
#[derive(Debug, PartialEq, Eq)]
pub enum CodexRead {
    /// The Codex program could not be run, for a reason.
    Failed(String),
    /// It reported a failure: there is no registration.
    NotRegistered,
    /// What it wrote cannot be understood, for a reason.
    Malformed(String),
    /// The registration, and whether it starts the program of the panel.
    Registered { registration: CodexMcpRegistration, same_program: bool },
}

/// What is reported where the registration cannot be read.
pub open spec fn read_error(read: CodexRead) -> Option<Seq<char>> {
    match read {
        CodexRead::Failed(error) => Some(error@),
        CodexRead::Malformed(error) => Some(
            "Codex returned invalid LeePanel MCP registration data: "@ + error@,
        ),
        _ => None,
    }
}

/// What a run that should read the registration has to tell: what it printed where it succeeded,
/// and nothing where it ended otherwise, as there is no registration.
pub fn read_outcome(run: CodexRun) -> (outcome: Result<Option<Vec<u8>>, String>)
    ensures
        match run {
            CodexRun::Failed(error) => outcome == Err::<Option<Vec<u8>>, String>(error),
            CodexRun::Ended(output) => outcome == Ok::<Option<Vec<u8>>, String>(
                if output.success {
                    Some(output.stdout)
                } else {
                    None
                },
            ),
        },
{
    match run {
        CodexRun::Failed(error) => Err(error),
        CodexRun::Ended(output) => if output.success {
            Ok(Some(output.stdout))
        } else {
            Ok(None)
        },
    }
}

/// Whether the registration that was read is the one that the panel makes.
pub open spec fn read_is_current(read: CodexRead) -> bool {
    match read {
        CodexRead::Registered { registration, same_program } => is_current(
            registration,
            same_program,
        ),
        _ => false,
    }
}

/// The registration that was read.
pub open spec fn registration_of(read: CodexRead) -> Option<CodexMcpRegistration> {
    match read {
        CodexRead::Registered { registration, .. } => Some(registration),
        _ => None,
    }
}

/// The registration that was read, if there is one, and whether it is the one that the panel
/// makes.
pub fn get_codex_registration(read: CodexRead) -> (outcome: Result<
    Option<(CodexMcpRegistration, bool)>,
    String,
>)
    ensures
        match outcome {
            Ok(Some((registration, current))) => {
                &&& read_error(read) is None
                &&& registration_of(read) == Some(registration)
                &&& current == read_is_current(read)
            },
            Ok(None) => read_error(read) is None && registration_of(read) is None,
            Err(message) => read_error(read) == Some(message@),
        },
{
    match read {
        CodexRead::Failed(error) => Err(error),
        CodexRead::NotRegistered => Ok(None),
        CodexRead::Malformed(error) => Err(
            cat2(
                "Codex returned invalid LeePanel MCP registration data: ",
                error.as_str(),
            ),
        ),
        CodexRead::Registered { registration, same_program } => {
            let current = registration_is_current(&registration, same_program);
            Ok(Some((registration, current)))
        },
    }
}

/// The version that the program of the panel reports: empty where it cannot be run or fails.
pub open spec fn version_of(output: Option<CommandOutput>) -> Seq<char> {
    match output {
        Some(output) => if output.success {
            trimmed(lossy_text(output.stdout@))
        } else {
            Seq::empty()
        },
        None => Seq::empty(),
    }
}

/// The version that the program of the panel reports.
pub fn mcp_version_at(output: &Option<CommandOutput>) -> (version: String)
    ensures
        version@ == version_of(*output),
{
    match output {
        Some(output) => if output.success {
            trim(text_of_bytes(output.stdout.as_slice()).as_str())
        } else {
            String::new()
        },
        None => String::new(),
    }
}

/// The Codex program is asked for the registration of the panel by its name, and told by the same
/// name to remove it. The registration of the panel starts the program of the panel with the one
/// argument that makes it serve tools.
pub proof fn law_own_registration_is_named()
    ensures
        get_args() == seq![
            CodexArg::Text("mcp"@),
            CodexArg::Text("get"@),
            CodexArg::Text("leepanel"@),
            CodexArg::Text("--json"@),
        ],
        remove_args() == seq![
            CodexArg::Text("mcp"@),
            CodexArg::Text("remove"@),
            CodexArg::Text("leepanel"@),
        ],
        own_args() == seq![
            CodexArg::Text("mcp"@),
            CodexArg::Text("add"@),
            CodexArg::Text("leepanel"@),
            CodexArg::Text("--"@),
            CodexArg::OwnProgram,
            CodexArg::Text("--mcp"@),
        ],
{
    assert(own_args() =~= seq![
        CodexArg::Text("mcp"@),
        CodexArg::Text("add"@),
        CodexArg::Text("leepanel"@),
        CodexArg::Text("--"@),
        CodexArg::OwnProgram,
        CodexArg::Text("--mcp"@),
    ]);
}

proof fn lemma_env_args(env: Seq<(String, String)>, k: int)
    ensures
        env_args(env).len() == 2 * env.len(),
        0 <= k < env.len() ==> env_args(env)[2 * k] == CodexArg::Text("--env"@) && env_args(env)[2
            * k + 1] == CodexArg::Text(env[k].0@ + "="@ + env[k].1@),
    decreases env.len(),
{
    if env.len() > 0 {
        let front = env.drop_last();
        lemma_env_args(front, k);
        if 0 <= k < front.len() {
            assert(front[k] == env[k]);
        }
    }
}

/// A registration that is added again is added under the name of the panel with each of its
/// variables, its own program, and all its own arguments in their order.
pub proof fn law_registration_is_restored_whole(registration: CodexMcpRegistration, i: int)
    ensures
        ({
            let args = restore_args(registration);
            let own = registration.transport.args@;
            let env = match registration.transport.env {
                Some(env) => env@,
                None => Seq::empty(),
            };
            let at = 3 + 2 * (env.len() as int);
            &&& args.len() == at + 2 + own.len()
            &&& args[0] == CodexArg::Text("mcp"@)
            &&& args[1] == CodexArg::Text("add"@)
            &&& args[2] == CodexArg::Text("leepanel"@)
            &&& 0 <= i < env.len() ==> args[3 + 2 * i] == CodexArg::Text("--env"@) && args[4 + 2
                * i] == CodexArg::Text(env[i].0@ + "="@ + env[i].1@)
            &&& args[at] == CodexArg::Text("--"@)
            &&& args[at + 1] == CodexArg::Text(registration.transport.command@)
            &&& 0 <= i < own.len() ==> args[at + 2 + i] == CodexArg::Text(own[i]@)
        }),
{
    let env = env_of(registration);
    lemma_env_args(env, i);
}

/// The program is looked for below the home directory first, where there is one, and then in the
/// places of the system; every place is that of a program with its name.
pub proof fn law_places_of_the_program(platform: Platform, i: int)
    ensures
        ({
            let elsewhere = candidates(platform, false);
            let all = candidates(platform, true);
            let home = all.len() - elsewhere.len();
            &&& home >= 3
            &&& all.skip(home) == elsewhere
            &&& 0 <= i < all.len() ==> (all[i] is InHome <==> i < home)
            &&& platform == Platform::Windows || platform == Platform::Other ==> elsewhere.len()
                == 0
            &&& platform == Platform::MacOs ==> elsewhere.len() == 4
            &&& platform == Platform::Linux ==> elsewhere.len() == 3
            &&& 0 <= i < all.len() ==> has_suffix(
                match all[i] {
                    CandidateView::InHome(path) => path,
                    CandidateView::At(path) => path,
                },
                "/codex"@,
            )
        }),
{
    let elsewhere = candidates(platform, false);
    let all = candidates(platform, true);
    let home = all.len() - elsewhere.len();
    assert(all.skip(home) =~= elsewhere);
    reveal_strlit("/codex");
    reveal_strlit(".local/bin/codex");
    reveal_strlit(".cargo/bin/codex");
    reveal_strlit(".npm-global/bin/codex");
    reveal_strlit("Applications/Codex.app/Contents/Resources/codex");
    reveal_strlit("Applications/ChatGPT.app/Contents/Resources/codex");
    reveal_strlit("/Applications/Codex.app/Contents/Resources/codex");
    reveal_strlit("/Applications/ChatGPT.app/Contents/Resources/codex");
    reveal_strlit("/opt/homebrew/bin/codex");
    reveal_strlit("/usr/local/bin/codex");
    reveal_strlit("/usr/bin/codex");
    reveal_strlit("/home/linuxbrew/.linuxbrew/bin/codex");
    lemma_ends_in_codex(".local/bin/codex"@);
    lemma_ends_in_codex(".cargo/bin/codex"@);
    lemma_ends_in_codex(".npm-global/bin/codex"@);
    lemma_ends_in_codex("Applications/Codex.app/Contents/Resources/codex"@);
    lemma_ends_in_codex("Applications/ChatGPT.app/Contents/Resources/codex"@);
    lemma_ends_in_codex("/Applications/Codex.app/Contents/Resources/codex"@);
    lemma_ends_in_codex("/Applications/ChatGPT.app/Contents/Resources/codex"@);
    lemma_ends_in_codex("/opt/homebrew/bin/codex"@);
    lemma_ends_in_codex("/usr/local/bin/codex"@);
    lemma_ends_in_codex("/usr/bin/codex"@);
    lemma_ends_in_codex("/home/linuxbrew/.linuxbrew/bin/codex"@);
}

proof fn lemma_ends_in_codex(path: Seq<char>)
    requires
        path.len() >= 6,
        path[path.len() - 6] == '/',
        path[path.len() - 5] == 'c',
        path[path.len() - 4] == 'o',
        path[path.len() - 3] == 'd',
        path[path.len() - 2] == 'e',
        path[path.len() - 1] == 'x',
    ensures
        has_suffix(path, "/codex"@),
{
    reveal_strlit("/codex");
    assert(path.skip(path.len() - 6) =~= "/codex"@);
}

/// A registration is the one of the panel exactly where it is enabled, starts the program of the
/// panel, and does so with the one argument that makes it serve tools.
pub proof fn law_what_makes_a_registration_current(
    registration: CodexMcpRegistration,
    same_program: bool,
)
    ensures
        is_current(registration, same_program) <==> registration.enabled && same_program
            && registration.transport.args@.len() == 1 && registration.transport.args@[0]@
            == "--mcp"@,
        read_is_current(CodexRead::Registered { registration, same_program }) <==> is_current(
            registration,
            same_program,
        ),
        !read_is_current(CodexRead::NotRegistered),
        registration_of(CodexRead::Registered { registration, same_program }) == Some(
            registration,
        ),
        registration_of(CodexRead::NotRegistered) is None,
        read_error(CodexRead::Registered { registration, same_program }) is None,
        read_error(CodexRead::NotRegistered) is None,
{
}

/// A registration that cannot be read is an error that tells why, and is neither a registration
/// nor the one of the panel.
pub proof fn law_unreadable_registration_is_an_error(error: String)
    ensures
        read_error(CodexRead::Failed(error)) == Some(error@),
        read_error(CodexRead::Malformed(error)) == Some(
            "Codex returned invalid LeePanel MCP registration data: "@ + error@,
        ),
        registration_of(CodexRead::Failed(error)) is None,
        registration_of(CodexRead::Malformed(error)) is None,
        !read_is_current(CodexRead::Failed(error)),
        !read_is_current(CodexRead::Malformed(error)),
{
}

/// A program that failed is reported with what it wrote to its error output, where that is more
/// than white space, else with what it wrote to its output, and else with how it ended.
pub proof fn law_failure_tells_what_was_written(
    action: Seq<char>,
    status: Seq<char>,
    stdout: Seq<char>,
    stderr: Seq<char>,
)
    ensures
        !is_blank(stderr) ==> failure_text(action, status, stdout, stderr) == action
            + " failed: "@ + trimmed(stderr),
        is_blank(stderr) && !is_blank(stdout) ==> failure_text(action, status, stdout, stderr)
            == action + " failed: "@ + trimmed(stdout),
        is_blank(stderr) && is_blank(stdout) ==> failure_text(action, status, stdout, stderr)
            == action + " failed with status "@ + status,
{
    law_trimmed_has_no_space_around(stderr);
    law_trimmed_has_no_space_around(stdout);
}

/// A run that changes the registration succeeds exactly where the program could be run and
/// reported success; otherwise what it came to is the reason.
pub proof fn law_changes_succeed_with_their_run(run: CodexRun)
    ensures
        removal(run) is Ok <==> (run matches CodexRun::Ended(output) && output.success),
        addition(run) is Ok <==> (run matches CodexRun::Ended(output) && output.success),
        run matches CodexRun::Failed(error) ==> removal(run) == Err::<(), Seq<char>>(error@)
            && addition(run) == Err::<(), Seq<char>>(error@),
        run matches CodexRun::Ended(output) ==> (!output.success ==> {
            let stdout = lossy_text(output.stdout@);
            let stderr = lossy_text(output.stderr@);
            &&& removal(run) == Err::<(), Seq<char>>(
                failure_text(
                    "Removing LeePanel MCP registration"@,
                    output.status@,
                    stdout,
                    stderr,
                ),
            )
            &&& addition(run) == Err::<(), Seq<char>>(
                failure_text("Adding LeePanel MCP registration"@, output.status@, stdout, stderr),
            )
        }),
{
}

/// The version of the program of the panel is what it wrote, without the white space around it,
/// and nothing where it could not be run or failed.
pub proof fn law_version_is_what_was_written(output: CommandOutput)
    ensures
        output.success ==> version_of(Some(output)) == trimmed(lossy_text(output.stdout@)),
        !output.success ==> version_of(Some(output)).len() == 0,
        version_of(None).len() == 0,
{
}

/// Two texts are the same but for case exactly where they have the same length and at each place
/// the same character, or the same letter of the Latin alphabet once in upper and once in lower
/// case.
pub proof fn law_same_ignoring_case(left: Seq<char>, right: Seq<char>)
    ensures
        same_ignoring_case(left, right) <==> left.len() == right.len() && forall|i: int|
            0 <= i < left.len() ==> {
                ||| #[trigger] left[i] == right[i]
                ||| 'A' <= left[i] <= 'Z' && left[i] as u32 + 32 == right[i] as u32
                ||| 'A' <= right[i] <= 'Z' && right[i] as u32 + 32 == left[i] as u32
            },
{
    if same_ignoring_case(left, right) {
        assert forall|i: int| 0 <= i < left.len() implies {
            ||| #[trigger] left[i] == right[i]
            ||| 'A' <= left[i] <= 'Z' && left[i] as u32 + 32 == right[i] as u32
            ||| 'A' <= right[i] <= 'Z' && right[i] as u32 + 32 == left[i] as u32
        } by {
            assert(ascii_lower(left[i]) == ascii_lower(right[i]));
        }
    }
}

/// Arguments and places say what they hold, one by one, in their order.
pub proof fn law_arguments_say_what_they_hold(
    args: Seq<CodexArg<String>>,
    places: Seq<Candidate>,
    outcome: Result<(), String>,
    i: int,
)
    ensures
        args_view(args).len() == args.len(),
        0 <= i < args.len() ==> {
            &&& args[i] matches CodexArg::Text(text) ==> args_view(args)[i] == CodexArg::Text(text@)
            &&& args[i] is OwnProgram ==> args_view(args)[i] is OwnProgram
        },
        candidates_view(places).len() == places.len(),
        0 <= i < places.len() ==> {
            &&& places[i] matches Candidate::InHome(path) ==> candidates_view(places)[i]
                == CandidateView::InHome(path@)
            &&& places[i] matches Candidate::At(path) ==> candidates_view(places)[i]
                == CandidateView::At(path@)
        },
        outcome is Ok <==> unit_view(outcome) is Ok,
        outcome matches Err(message) ==> unit_view(outcome) == Err::<(), Seq<char>>(message@),
{
}

/// Of two files the one that was changed later counts as the later one; a file whose time is not
/// known is never later than one whose time is known.
pub proof fn law_later_files_go_first(a: i128, b: i128)
    ensures
        as_late(Some(a), Some(b)) <==> a >= b,
        as_late(Some(a), None),
        !as_late(None, Some(b)),
        as_late(None, None),
{
}

} // verus!
