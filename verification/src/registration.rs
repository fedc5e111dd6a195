//! Registering the tools with the Codex command line, taking the registration back, and telling
//! how it stands. A registration that cannot be completed is undone.

use crate::codex::{
    add_codex_registration, addition, args_view, get_arguments, get_codex_registration, get_args,
    law_own_registration_is_named,
    mcp_version_at, own_args, own_arguments, read_error, read_is_current, registration_of,
    remove_args, remove_arguments, remove_codex_registration, removal, restore_args,
    restore_arguments, unit_view, version_of, CodexArg, CodexMcpRegistration, CodexRead, CodexRun,
    CommandOutput,
};
use crate::bytes::lossy_text;
use crate::spaces::{is_blank, law_trimmed_has_no_space_around, trimmed};
use crate::text::{cat2, cat3};
use vstd::prelude::*;

verus! {

/// What is done on this machine to register.
#[derive(Debug, PartialEq, Eq)]
pub enum RegisterAction {
    /// Look for the Codex program.
    FindCodex,
    /// Look for the program of the panel.
    FindProgram,
    /// Ask the program of the panel for its version.
    AskVersion,
    /// Read the registration, by running the Codex program with arguments.
    Read(Vec<CodexArg<String>>),
    /// Change the registration, by running the Codex program with arguments.
    Run(Vec<CodexArg<String>>),
}

/// What came of an action.
#[derive(Debug, PartialEq, Eq)]
pub enum RegisterEvent {
    /// Whether the Codex program was found.
    Codex(bool),
    /// The program of the panel, by its path as it is shown, or why it is not known.
    Program(Result<String, String>),
    /// What the program of the panel wrote as its version, if it could be run.
    Version(Option<CommandOutput>),
    /// The registration.
    Read(CodexRead),
    /// What came of a change.
    Run(CodexRun),
}

/// How far registering has come: the action that is under way.
#[derive(Debug, PartialEq, Eq)]
pub enum Registering {
    /// Looking for the Codex program.
    Codex,
    /// Looking for the program of the panel.
    Program,
    /// Asking for its version.
    Version { program: String },
    /// Reading the registration that is there.
    Previous,
    /// Removing it.
    Removing { present: CodexMcpRegistration },
    /// Adding the registration of the panel.
    Adding { previous: Option<CodexMcpRegistration> },
    /// Reading it back.
    Verifying { previous: Option<CodexMcpRegistration> },
    /// Removing it again.
    Undoing { previous: Option<CodexMcpRegistration>, error: String },
    /// Adding the registration that was there.
    Restoring { error: String },
}

/// What comes next.
#[derive(Debug, PartialEq, Eq)]
pub enum RegisterStep {
    Act { state: Registering, action: RegisterAction },
    Done(Result<(), String>),
}

/// Whether an event can come of the action that is under way.
pub open spec fn fits(state: Registering, event: RegisterEvent) -> bool {
    match state {
        Registering::Codex => event is Codex,
        Registering::Program => event is Program,
        Registering::Version { .. } => event is Version,
        Registering::Previous => event is Read,
        Registering::Removing { .. } => event is Run,
        Registering::Adding { .. } => event is Run,
        Registering::Verifying { .. } => event is Read,
        Registering::Undoing { .. } => event is Run,
        Registering::Restoring { .. } => event is Run,
    }
}

/// Whether a step runs the Codex program with arguments to change the registration.
pub open spec fn runs(action: RegisterAction, args: Seq<CodexArg<Seq<char>>>) -> bool {
    action matches RegisterAction::Run(list) && args_view(list@) == args
}

/// Whether a step runs the Codex program to read the registration.
pub open spec fn reads(action: RegisterAction) -> bool {
    action matches RegisterAction::Read(list) && args_view(list@) == get_args()
}

/// Whether a step ends with an error.
pub open spec fn fails(step: RegisterStep, message: Seq<char>) -> bool {
    step matches RegisterStep::Done(Err(error)) && error@ == message
}

/// Whether a step begins to undo what was done, on account of an error.
pub open spec fn undoes(
    step: RegisterStep,
    previous: Option<CodexMcpRegistration>,
    message: Seq<char>,
) -> bool {
    step matches RegisterStep::Act { state: Registering::Undoing { previous: kept, error }, action }
        && kept == previous && error@ == message && runs(action, remove_args())
}

/// A truth value in words.
pub open spec fn truth_text(truth: bool) -> Seq<char> {
    if truth {
        "true"@
    } else {
        "false"@
    }
}

/// What is reported of a registration that was undone.
pub open spec fn undone_message(error: Seq<char>, restored: bool) -> Seq<char> {
    error + ". Previous registration restored: "@ + truth_text(restored)
}

/// Whether `step` is what comes next after an event.
pub open spec fn register_step(
    state: Registering,
    event: RegisterEvent,
    step: RegisterStep,
) -> bool {
    match (state, event) {
        (Registering::Codex, RegisterEvent::Codex(found)) => if found {
            step == (RegisterStep::Act {
                state: Registering::Program,
                action: RegisterAction::FindProgram,
            })
        } else {
            fails(step, "ChatGPT / Codex CLI was not found"@)
        },
        (Registering::Program, RegisterEvent::Program(program)) => match program {
            Ok(path) => step == (RegisterStep::Act {
                state: Registering::Version { program: path },
                action: RegisterAction::AskVersion,
            }),
            Err(error) => fails(step, error@),
        },
        (Registering::Version { program }, RegisterEvent::Version(output)) => if version_of(
            output,
        ).len() == 0 {
            fails(step, "LeePanel MCP executable could not be verified: "@ + program@)
        } else {
            step matches RegisterStep::Act { state: Registering::Previous, action } && reads(action)
        },
        (Registering::Previous, RegisterEvent::Read(read)) => match read_error(read) {
            Some(message) => fails(step, message),
            None => if read_is_current(read) {
                step == RegisterStep::Done(Ok(()))
            } else {
                match registration_of(read) {
                    Some(previous) => {
                        step matches RegisterStep::Act {
                            state: Registering::Removing { present: kept },
                            action,
                        } && kept == previous && runs(action, remove_args())
                    },
                    None => {
                        step matches RegisterStep::Act {
                            state: Registering::Adding { previous: kept },
                            action,
                        } && kept is None && runs(action, own_args())
                    },
                }
            },
        },
        (Registering::Removing { present }, RegisterEvent::Run(run)) => match removal(run) {
            Err(message) => fails(step, message),
            Ok(()) => {
                step matches RegisterStep::Act {
                    state: Registering::Adding { previous: kept },
                    action,
                } && kept == Some(present) && runs(action, own_args())
            },
        },
        (Registering::Adding { previous }, RegisterEvent::Run(run)) => match addition(run) {
            Err(message) => undoes(step, previous, message),
            Ok(()) => {
                step matches RegisterStep::Act {
                    state: Registering::Verifying { previous: kept },
                    action,
                } && kept == previous && reads(action)
            },
        },
        (Registering::Verifying { previous }, RegisterEvent::Read(read)) => match read_error(read) {
            Some(message) => undoes(step, previous, message),
            None => if read_is_current(read) {
                step == RegisterStep::Done(Ok(()))
            } else {
                undoes(step, previous, "LeePanel MCP registration verification failed"@)
            },
        },
        (Registering::Undoing { previous, error }, RegisterEvent::Run(_)) => match previous {
            Some(registration) => {
                step matches RegisterStep::Act {
                    state: Registering::Restoring { error: kept },
                    action,
                } && kept == error && runs(action, restore_args(registration))
            },
            None => fails(step, undone_message(error@, true)),
        },
        (Registering::Restoring { error }, RegisterEvent::Run(run)) => fails(
            step,
            undone_message(error@, addition(run) is Ok),
        ),
        _ => true,
    }
}

/// Begins to undo a registration on account of an error.
fn undo(previous: Option<CodexMcpRegistration>, error: String) -> (step: RegisterStep)
    ensures
        undoes(step, previous, error@),
{
    RegisterStep::Act {
        state: Registering::Undoing { previous, error },
        action: RegisterAction::Run(remove_arguments()),
    }
}

fn undone(error: &str, restored: bool) -> (step: RegisterStep)
    ensures
        fails(step, undone_message(error@, restored)),
{
    let truth = if restored {
        "true"
    } else {
        "false"
    };
    RegisterStep::Done(Err(cat3(error, ". Previous registration restored: ", truth)))
}

/// Restores the registration that was there, after the one of the panel was removed again.
pub fn restore_codex_registration(
    previous: Option<CodexMcpRegistration>,
    error: String,
) -> (step: RegisterStep)
    ensures
        match previous {
            Some(registration) => {
                step matches RegisterStep::Act {
                    state: Registering::Restoring { error: kept },
                    action,
                } && kept == error && runs(action, restore_args(registration))
            },
            None => fails(step, undone_message(error@, true)),
        },
{
    match previous {
        Some(registration) => RegisterStep::Act {
            state: Registering::Restoring { error },
            action: RegisterAction::Run(restore_arguments(&registration)),
        },
        None => undone(error.as_str(), true),
    }
}

fn after_previous(read: CodexRead) -> (step: RegisterStep)
    ensures
        register_step(Registering::Previous, RegisterEvent::Read(read), step),
{
    match get_codex_registration(read) {
        Err(error) => RegisterStep::Done(Err(error)),
        Ok(Some((previous, current))) => if current {
            RegisterStep::Done(Ok(()))
        } else {
            RegisterStep::Act {
                state: Registering::Removing { present: previous },
                action: RegisterAction::Run(remove_arguments()),
            }
        },
        Ok(None) => RegisterStep::Act {
            state: Registering::Adding { previous: None },
            action: RegisterAction::Run(own_arguments()),
        },
    }
}

fn after_verifying(previous: Option<CodexMcpRegistration>, read: CodexRead) -> (step: RegisterStep)
    ensures
        register_step(Registering::Verifying { previous }, RegisterEvent::Read(read), step),
{
    match get_codex_registration(read) {
        Err(error) => undo(previous, error),
        Ok(found) => {
            let verified = match &found {
                Some((_, current)) => *current,
                None => false,
            };
            if verified {
                RegisterStep::Done(Ok(()))
            } else {
                undo(previous, "LeePanel MCP registration verification failed".to_owned())
            }
        },
    }
}

/// Goes on with registering after an event. Registering begins with the search for the Codex
/// program.
pub fn register_mcp(state: Registering, event: RegisterEvent) -> (step: RegisterStep)
    requires
        fits(state, event),
    ensures
        register_step(state, event, step),
{
    match (state, event) {
        (Registering::Codex, RegisterEvent::Codex(found)) => if found {
            RegisterStep::Act { state: Registering::Program, action: RegisterAction::FindProgram }
        } else {
            RegisterStep::Done(Err("ChatGPT / Codex CLI was not found".to_owned()))
        },
        (Registering::Program, RegisterEvent::Program(program)) => match program {
            Ok(path) => RegisterStep::Act {
                state: Registering::Version { program: path },
                action: RegisterAction::AskVersion,
            },
            Err(error) => RegisterStep::Done(Err(error)),
        },
        (Registering::Version { program }, RegisterEvent::Version(output)) => {
            let version = mcp_version_at(&output);
            if version.as_str().is_empty() {
                RegisterStep::Done(
                    Err(
                        cat2(
                            "LeePanel MCP executable could not be verified: ",
                            program.as_str(),
                        ),
                    ),
                )
            } else {
                RegisterStep::Act {
                    state: Registering::Previous,
                    action: RegisterAction::Read(get_arguments()),
                }
            }
        },
        (Registering::Previous, RegisterEvent::Read(read)) => after_previous(read),
        (Registering::Removing { present }, RegisterEvent::Run(run)) => {
            match remove_codex_registration(run) {
                Err(error) => RegisterStep::Done(Err(error)),
                Ok(()) => RegisterStep::Act {
                    state: Registering::Adding { previous: Some(present) },
                    action: RegisterAction::Run(own_arguments()),
                },
            }
        },
        (Registering::Adding { previous }, RegisterEvent::Run(run)) => {
            match add_codex_registration(run) {
                Err(error) => undo(previous, error),
                Ok(()) => RegisterStep::Act {
                    state: Registering::Verifying { previous },
                    action: RegisterAction::Read(get_arguments()),
                },
            }
        },
        (Registering::Verifying { previous }, RegisterEvent::Read(read)) => after_verifying(
            previous,
            read,
        ),
        (Registering::Undoing { previous, error }, RegisterEvent::Run(_)) =>
            restore_codex_registration(previous, error),
        (Registering::Restoring { error }, RegisterEvent::Run(run)) => undone(
            error.as_str(),
            add_codex_registration(run).is_ok(),
        ),
        (_, _) => RegisterStep::Done(Ok(())),
    }
}

proof fn lemma_success_is_verified(state: Registering, event: RegisterEvent, step: RegisterStep)
    requires
        fits(state, event),
        register_step(state, event, step),
        step matches RegisterStep::Done(Ok(())),
    ensures
        event matches RegisterEvent::Read(read) && read_is_current(read),
{
}

/// The registration that was there before, which a state still keeps.
pub open spec fn kept(state: Registering) -> Option<CodexMcpRegistration> {
    match state {
        Registering::Removing { present } => Some(present),
        Registering::Adding { previous } => previous,
        Registering::Verifying { previous } => previous,
        Registering::Undoing { previous, .. } => previous,
        _ => None,
    }
}

proof fn lemma_undoing_goes_on(state: Registering, event: RegisterEvent, step: RegisterStep)
    requires
        fits(state, event),
        register_step(state, event, step),
        state is Adding || state is Verifying || state is Undoing,
    ensures
        step matches RegisterStep::Done(Err(_)) ==> state is Undoing && kept(state) is None,
        step matches RegisterStep::Act { state: next, action } ==> {
            ||| next is Verifying && kept(next) == kept(state)
            ||| next is Undoing && kept(next) == kept(state) && runs(action, remove_args())
            ||| next is Restoring && kept(state) is Some && runs(
                action,
                restore_args(kept(state)->0),
            )
        },
{
}

/// The state in which registering is at a place of a run.
pub open spec fn state_at(steps: Seq<RegisterStep>, place: int) -> Registering {
    if place == 0 {
        Registering::Codex
    } else {
        steps[place - 1]->Act_state
    }
}

/// Whether some steps are a run of registering on some events: each step follows the state that
/// the one before it led to.
pub open spec fn is_run(events: Seq<RegisterEvent>, steps: Seq<RegisterStep>) -> bool {
    &&& steps.len() == events.len()
    &&& forall|i: int| 0 <= i < steps.len() - 1 ==> (#[trigger] steps[i]) is Act
    &&& forall|i: int|
        #![trigger steps[i]]
        0 <= i < steps.len() ==> fits(state_at(steps, i), events[i]) && register_step(
            state_at(steps, i),
            events[i],
            steps[i],
        )
}

proof fn lemma_undone_at(
    events: Seq<RegisterEvent>,
    steps: Seq<RegisterStep>,
    adding: int,
    place: int,
)
    requires
        is_run(events, steps),
        0 <= adding <= place < steps.len(),
        state_at(steps, adding) is Adding,
    ensures
        ({
            let previous = kept(state_at(steps, adding));
            let state = state_at(steps, place);
            ||| (state is Adding || state is Verifying || state is Undoing) && kept(state)
                == previous
            ||| state is Restoring && previous is Some && runs(
                steps[place - 1]->action,
                restore_args(previous->0),
            )
        }),
    decreases place - adding,
{
    if place > adding {
        lemma_undone_at(events, steps, adding, place - 1);
        let before = state_at(steps, place - 1);
        assert(steps[place - 1] is Act);
        if !(before is Restoring) {
            lemma_undoing_goes_on(before, events[place - 1], steps[place - 1]);
        }
    }
}

/// Where registering fails after it began to add the registration of the panel, it was undone
/// before: the registration that was there, if any, was added again, with its own program,
/// arguments and variables.
pub proof fn law_failed_registration_is_undone(
    events: Seq<RegisterEvent>,
    steps: Seq<RegisterStep>,
    adding: int,
)
    requires
        is_run(events, steps),
        0 <= adding < steps.len(),
        state_at(steps, adding) is Adding,
        steps.last() matches RegisterStep::Done(Err(_)),
    ensures
        match kept(state_at(steps, adding)) {
            Some(previous) => {
                &&& state_at(steps, steps.len() - 1) is Restoring
                &&& runs(steps[steps.len() - 2]->action, restore_args(previous))
            },
            None => state_at(steps, steps.len() - 1) is Undoing,
        },
{
    let last = steps.len() - 1;
    lemma_undone_at(events, steps, adding, last);
    let state = state_at(steps, last);
    assert(steps[last] == steps.last());
    if !(state is Restoring) {
        lemma_undoing_goes_on(state, events[last], steps[last]);
    }
}

/// Where registering succeeds, the registration that was read last is the one of the panel.
pub proof fn law_successful_registration_is_current(
    events: Seq<RegisterEvent>,
    steps: Seq<RegisterStep>,
)
    requires
        is_run(events, steps),
        steps.len() > 0,
        steps.last() matches RegisterStep::Done(Ok(())),
    ensures
        events.last() matches RegisterEvent::Read(read) && read_is_current(read),
{
    assert(steps[steps.len() - 1] == steps.last());
    lemma_success_is_verified(
        state_at(steps, steps.len() - 1),
        events.last(),
        steps.last(),
    );
}

/// How many actions registering can still need after the one under way.
pub open spec fn register_actions_left(state: Registering) -> nat {
    match state {
        Registering::Codex => 8,
        Registering::Program => 7,
        Registering::Version { .. } => 6,
        Registering::Previous => 5,
        Registering::Removing { .. } => 4,
        Registering::Adding { .. } => 3,
        Registering::Verifying { .. } => 2,
        Registering::Undoing { .. } => 1,
        Registering::Restoring { .. } => 0,
    }
}

proof fn lemma_actions_left(events: Seq<RegisterEvent>, steps: Seq<RegisterStep>, place: int)
    requires
        is_run(events, steps),
        0 <= place < steps.len(),
    ensures
        register_actions_left(state_at(steps, place)) + place <= 8,
    decreases place,
{
    if place > 0 {
        lemma_actions_left(events, steps, place - 1);
        assert(steps[place - 1] is Act);
        assert(register_step(
            state_at(steps, place - 1),
            events[place - 1],
            steps[place - 1],
        ));
    }
}

/// Registering ends, after nine actions at most.
pub proof fn law_registering_ends(events: Seq<RegisterEvent>, steps: Seq<RegisterStep>)
    requires
        is_run(events, steps),
    ensures
        steps.len() <= 9,
{
    if steps.len() > 0 {
        lemma_actions_left(events, steps, steps.len() - 1);
    }
}

/// How far taking the registration back has come: the action that is under way.
#[derive(Clone, Copy, Debug, PartialEq, Eq, Structural)]
pub enum Unregistering {
    /// Looking for the Codex program.
    Codex,
    /// Looking for the program of the panel.
    Program,
    /// Reading the registration that is there.
    Reading,
    /// Removing it.
    Removing,
}

/// What comes next.
#[derive(Debug, PartialEq, Eq)]
pub enum UnregisterStep {
    Act { state: Unregistering, action: RegisterAction },
    Done(Result<(), String>),
}

/// Whether an event can come of the action that is under way.
pub open spec fn unregister_fits(state: Unregistering, event: RegisterEvent) -> bool {
    match state {
        Unregistering::Codex => event is Codex,
        Unregistering::Program => event is Program,
        Unregistering::Reading => event is Read,
        Unregistering::Removing => event is Run,
    }
}

/// Whether a step ends with an outcome.
pub open spec fn ends(step: UnregisterStep, outcome: Result<(), Seq<char>>) -> bool {
    step matches UnregisterStep::Done(result) && unit_view(result) == outcome
}

/// Whether `step` is what comes next after an event: only the registration of the panel is
/// removed, and where there is none nothing is to be done.
pub open spec fn unregister_step(
    state: Unregistering,
    event: RegisterEvent,
    step: UnregisterStep,
) -> bool {
    match (state, event) {
        (Unregistering::Codex, RegisterEvent::Codex(found)) => if found {
            step == (UnregisterStep::Act {
                state: Unregistering::Program,
                action: RegisterAction::FindProgram,
            })
        } else {
            ends(step, Ok(()))
        },
        (Unregistering::Program, RegisterEvent::Program(program)) => match program {
            Ok(_) => {
                step matches UnregisterStep::Act { state: Unregistering::Reading, action } && reads(
                    action,
                )
            },
            Err(error) => ends(step, Err(error@)),
        },
        (Unregistering::Reading, RegisterEvent::Read(read)) => match read_error(read) {
            Some(message) => ends(step, Err(message)),
            None => if read_is_current(read) {
                step matches UnregisterStep::Act { state: Unregistering::Removing, action } && runs(
                    action,
                    remove_args(),
                )
            } else {
                ends(step, Ok(()))
            },
        },
        (Unregistering::Removing, RegisterEvent::Run(run)) => ends(step, removal(run)),
        _ => true,
    }
}

/// Goes on with taking the registration back after an event. It begins with the search for the
/// Codex program.
pub fn unregister_mcp(state: Unregistering, event: RegisterEvent) -> (step: UnregisterStep)
    requires
        unregister_fits(state, event),
    ensures
        unregister_step(state, event, step),
{
    match (state, event) {
        (Unregistering::Codex, RegisterEvent::Codex(found)) => if found {
            UnregisterStep::Act {
                state: Unregistering::Program,
                action: RegisterAction::FindProgram,
            }
        } else {
            UnregisterStep::Done(Ok(()))
        },
        (Unregistering::Program, RegisterEvent::Program(program)) => match program {
            Ok(_) => UnregisterStep::Act {
                state: Unregistering::Reading,
                action: RegisterAction::Read(get_arguments()),
            },
            Err(error) => UnregisterStep::Done(Err(error)),
        },
        (Unregistering::Reading, RegisterEvent::Read(read)) => match get_codex_registration(read) {
            Err(error) => UnregisterStep::Done(Err(error)),
            Ok(Some((_, true))) => UnregisterStep::Act {
                state: Unregistering::Removing,
                action: RegisterAction::Run(remove_arguments()),
            },
            Ok(_) => UnregisterStep::Done(Ok(())),
        },
        (Unregistering::Removing, RegisterEvent::Run(run)) => UnregisterStep::Done(
            remove_codex_registration(run),
        ),
        (_, _) => UnregisterStep::Done(Ok(())),
    }
}

/// Only a registration that is the one of the panel is taken back.
pub proof fn law_only_the_own_registration_is_removed(
    state: Unregistering,
    event: RegisterEvent,
    step: UnregisterStep,
)
    requires
        unregister_fits(state, event),
        unregister_step(state, event, step),
        step matches UnregisterStep::Act { action: RegisterAction::Run(_), .. },
    ensures
        event matches RegisterEvent::Read(read) && read_is_current(read),
{
}

/// How the registration stands.
#[derive(Debug, PartialEq, Eq)]
pub struct McpRegistrationStatus {
    pub codex_found: bool,
    pub codex_path: String,
    pub registered: bool,
    pub current: bool,
    pub registered_path: String,
    pub version: String,
    pub enabled: bool,
}

/// Whether a status tells of the Codex program, by its path as it is shown, of the registration
/// that was read, and of the version of the program of the panel.
pub open spec fn tells(
    status: McpRegistrationStatus,
    codex: Option<(Seq<char>, CodexRead)>,
    version: Option<CommandOutput>,
    enabled: bool,
) -> bool {
    &&& status.codex_found == codex is Some
    &&& match codex {
        Some((path, read)) => {
            &&& status.codex_path@ == path
            &&& status.registered == registration_of(read) is Some
            &&& status.current == read_is_current(read)
            &&& status.registered_path@ == match registration_of(read) {
                Some(registration) => registration.transport.command@,
                None => Seq::empty(),
            }
        },
        None => {
            &&& status.codex_path@.len() == 0
            &&& !status.registered
            &&& !status.current
            &&& status.registered_path@.len() == 0
        },
    }
    &&& status.version@ == version_of(version)
    &&& status.enabled == enabled
}

/// What is known of the Codex program and its registration, as what it says.
pub open spec fn codex_view(codex: Option<(String, CodexRead)>) -> Option<(Seq<char>, CodexRead)> {
    match codex {
        Some((path, read)) => Some((path@, read)),
        None => None,
    }
}

/// Tells how the registration stands.
pub fn registration_status(
    codex: Option<(String, CodexRead)>,
    program: Result<(), String>,
    version: &Option<CommandOutput>,
    enabled: bool,
) -> (outcome: Result<McpRegistrationStatus, String>)
    ensures
        match outcome {
            Ok(status) => {
                &&& program is Ok
                &&& codex matches Some((_, read)) ==> read_error(read) is None
                &&& tells(status, codex_view(codex), *version, enabled)
            },
            Err(message) => match program {
                Err(error) => message@ == error@,
                Ok(()) => codex matches Some((_, read)) && read_error(read) == Some(message@),
            },
        },
{
    match program {
        Err(error) => return Err(error),
        Ok(()) => {},
    }
    let version = mcp_version_at(version);
    match codex {
        None => Ok(
            McpRegistrationStatus {
                codex_found: false,
                codex_path: String::new(),
                registered: false,
                current: false,
                registered_path: String::new(),
                version,
                enabled,
            },
        ),
        Some((path, read)) => match get_codex_registration(read) {
            Err(error) => Err(error),
            Ok(Some((registration, current))) => Ok(
                McpRegistrationStatus {
                    codex_found: true,
                    codex_path: path,
                    registered: true,
                    current,
                    registered_path: registration.transport.command,
                    version,
                    enabled,
                },
            ),
            Ok(None) => Ok(
                McpRegistrationStatus {
                    codex_found: true,
                    codex_path: path,
                    registered: false,
                    current: false,
                    registered_path: String::new(),
                    version,
                    enabled,
                },
            ),
        },
    }
}

/// Whether tool access stays switched on after registering, by how the registration stands
/// afterwards: where it is not the one of the panel, access is switched off again.
pub fn switch_after_register(status: &McpRegistrationStatus) -> (enabled: bool)
    ensures
        enabled == status.current,
{
    status.current
}

/// Confirms a registration by how it stands afterwards: it has to be the one of the panel.
pub fn mcp_register(status: McpRegistrationStatus) -> (outcome: Result<
    McpRegistrationStatus,
    String,
>)
    ensures
        match outcome {
            Ok(confirmed) => status.current && confirmed == status,
            Err(message) => !status.current && message@
                == "LeePanel MCP registration could not be verified"@,
        },
{
    if !status.current {
        return Err("LeePanel MCP registration could not be verified".to_owned());
    }
    Ok(status)
}

/// Whether a step runs the Codex program to add the registration of the panel.
pub open spec fn adds_own(action: RegisterAction) -> bool {
    action matches RegisterAction::Run(list) && args_view(list@) == seq![
        CodexArg::Text("mcp"@),
        CodexArg::Text("add"@),
        CodexArg::Text("leepanel"@),
        CodexArg::Text("--"@),
        CodexArg::OwnProgram,
        CodexArg::Text("--mcp"@),
    ]
}

/// Whether a step runs the Codex program to remove what is registered under the name of the panel.
pub open spec fn removes(action: RegisterAction) -> bool {
    action matches RegisterAction::Run(list) && args_view(list@) == seq![
        CodexArg::Text("mcp"@),
        CodexArg::Text("remove"@),
        CodexArg::Text("leepanel"@),
    ]
}

/// Whether a step runs the Codex program to read what is registered under the name of the panel.
pub open spec fn asks(action: RegisterAction) -> bool {
    action matches RegisterAction::Read(list) && args_view(list@) == seq![
        CodexArg::Text("mcp"@),
        CodexArg::Text("get"@),
        CodexArg::Text("leepanel"@),
        CodexArg::Text("--json"@),
    ]
}

/// Nothing is registered unless the Codex program and the program of the panel are there and the
/// latter reports a version; what is missing is told.
pub proof fn law_registering_needs_both_programs(
    event: RegisterEvent,
    program: String,
    step: RegisterStep,
)
    ensures
        event matches RegisterEvent::Codex(found) ==> (register_step(
            Registering::Codex,
            event,
            step,
        ) ==> {
            &&& found ==> step == (RegisterStep::Act {
                state: Registering::Program,
                action: RegisterAction::FindProgram,
            })
            &&& !found ==> (step matches RegisterStep::Done(Err(message)) && message@
                == "ChatGPT / Codex CLI was not found"@)
        }),
        event matches RegisterEvent::Program(found) ==> (register_step(
            Registering::Program,
            event,
            step,
        ) ==> {
            &&& found matches Ok(path) ==> step == (RegisterStep::Act {
                state: Registering::Version { program: path },
                action: RegisterAction::AskVersion,
            })
            &&& found matches Err(error) ==> (step matches RegisterStep::Done(Err(message))
                && message@ == error@)
        }),
        event matches RegisterEvent::Version(output) ==> (register_step(
            Registering::Version { program },
            event,
            step,
        ) ==> {
            let reported = output matches Some(printed) && printed.success && !is_blank(
                lossy_text(printed.stdout@),
            );
            &&& reported ==> (step matches RegisterStep::Act {
                state: Registering::Previous,
                action,
            } && asks(action))
            &&& !reported ==> (step matches RegisterStep::Done(Err(message)) && message@
                == "LeePanel MCP executable could not be verified: "@ + program@)
        }),
{
    if let RegisterEvent::Version(Some(printed)) = event {
        law_trimmed_has_no_space_around(lossy_text(printed.stdout@));
    }
    law_own_registration_is_named();
}

/// The registration of the panel is left alone where it is there already. Any other one is
/// removed first, and kept to be restored; where there is none, that of the panel is added.
pub proof fn law_other_registration_is_replaced(read: CodexRead, step: RegisterStep)
    requires
        register_step(Registering::Previous, RegisterEvent::Read(read), step),
    ensures
        read matches CodexRead::Registered { registration, same_program } ==> {
            let own = registration.enabled && same_program && registration.transport.args@.len()
                == 1 && registration.transport.args@[0]@ == "--mcp"@;
            &&& own ==> step == RegisterStep::Done(Ok(()))
            &&& !own ==> (step matches RegisterStep::Act {
                state: Registering::Removing { present },
                action,
            } && present == registration && removes(action))
        },
        read is NotRegistered ==> (step matches RegisterStep::Act {
            state: Registering::Adding { previous },
            action,
        } && previous is None && adds_own(action)),
        read matches CodexRead::Failed(error) ==> (step matches RegisterStep::Done(Err(message))
            && message@ == error@),
        read matches CodexRead::Malformed(error) ==> (step matches RegisterStep::Done(Err(message))
            && message@ == "Codex returned invalid LeePanel MCP registration data: "@ + error@),
{
    law_own_registration_is_named();
}

/// After the other registration was removed that of the panel is added, and after it was added it
/// is read back. Where adding fails, what was done is undone, with the reason.
pub proof fn law_registration_is_added_and_read_back(
    present: CodexMcpRegistration,
    previous: Option<CodexMcpRegistration>,
    run: CodexRun,
    step: RegisterStep,
)
    ensures
        ({
            let succeeded = run matches CodexRun::Ended(output) && output.success;
            &&& register_step(
                Registering::Removing { present },
                RegisterEvent::Run(run),
                step,
            ) ==> {
                &&& succeeded ==> (step matches RegisterStep::Act {
                    state: Registering::Adding { previous: kept },
                    action,
                } && kept == Some(present) && adds_own(action))
                &&& !succeeded ==> (step matches RegisterStep::Done(Err(message)) && removal(run)
                    == Err::<(), Seq<char>>(message@))
            }
            &&& register_step(
                Registering::Adding { previous },
                RegisterEvent::Run(run),
                step,
            ) ==> {
                &&& succeeded ==> (step matches RegisterStep::Act {
                    state: Registering::Verifying { previous: kept },
                    action,
                } && kept == previous && asks(action))
                &&& !succeeded ==> (step matches RegisterStep::Act {
                    state: Registering::Undoing { previous: kept, error },
                    action,
                } && kept == previous && removes(action) && addition(run) == Err::<(), Seq<char>>(
                    error@,
                ))
            }
        }),
{
    law_own_registration_is_named();
}

/// Registering succeeds exactly where the registration that is read back is that of the panel;
/// otherwise it is removed again, and the one that was there before is added again, with its own
/// program, variables and arguments. What is told is the reason and whether that worked.
pub proof fn law_registration_is_verified_or_undone(
    previous: Option<CodexMcpRegistration>,
    read: CodexRead,
    run: CodexRun,
    error: String,
    step: RegisterStep,
)
    ensures
        register_step(Registering::Verifying { previous }, RegisterEvent::Read(read), step) ==> {
            let own = read matches CodexRead::Registered { registration, same_program }
                && registration.enabled && same_program && registration.transport.args@.len() == 1
                && registration.transport.args@[0]@ == "--mcp"@;
            &&& own ==> step == RegisterStep::Done(Ok(()))
            &&& !own ==> (step matches RegisterStep::Act {
                state: Registering::Undoing { previous: kept, error: reason },
                action,
            } && kept == previous && removes(action) && reason@ == match read {
                CodexRead::Failed(failed) => failed@,
                CodexRead::Malformed(failed) =>
                    "Codex returned invalid LeePanel MCP registration data: "@ + failed@,
                _ => "LeePanel MCP registration verification failed"@,
            })
        },
        register_step(
            Registering::Undoing { previous, error },
            RegisterEvent::Run(run),
            step,
        ) ==> {
            &&& previous matches Some(registration) ==> (step matches RegisterStep::Act {
                state: Registering::Restoring { error: kept },
                action: RegisterAction::Run(list),
            } && kept@ == error@ && args_view(list@) == restore_args(registration))
            &&& previous is None ==> (step matches RegisterStep::Done(Err(message)) && message@
                == error@ + ". Previous registration restored: "@ + "true"@)
        },
        register_step(Registering::Restoring { error }, RegisterEvent::Run(run), step) ==> (
        step matches RegisterStep::Done(Err(message)) && message@ == error@
            + ". Previous registration restored: "@ + if run matches CodexRun::Ended(output)
            && output.success {
            "true"@
        } else {
            "false"@
        }),
{
    law_own_registration_is_named();
}

/// Taking the registration back removes it exactly where it is that of the panel, and does
/// nothing where there is none, where it is another one, or where there is no Codex program.
pub proof fn law_own_registration_is_taken_back(event: RegisterEvent, step: UnregisterStep)
    ensures
        event matches RegisterEvent::Codex(found) ==> (unregister_step(
            Unregistering::Codex,
            event,
            step,
        ) ==> {
            &&& found ==> step == (UnregisterStep::Act {
                state: Unregistering::Program,
                action: RegisterAction::FindProgram,
            })
            &&& !found ==> (step matches UnregisterStep::Done(Ok(())))
        }),
        event matches RegisterEvent::Program(program) ==> (unregister_step(
            Unregistering::Program,
            event,
            step,
        ) ==> {
            &&& program is Ok ==> (step matches UnregisterStep::Act {
                state: Unregistering::Reading,
                action,
            } && asks(action))
            &&& program matches Err(error) ==> (step matches UnregisterStep::Done(Err(message))
                && message@ == error@)
        }),
        event matches RegisterEvent::Read(read) ==> (unregister_step(
            Unregistering::Reading,
            event,
            step,
        ) ==> {
            let own = read matches CodexRead::Registered { registration, same_program }
                && registration.enabled && same_program && registration.transport.args@.len() == 1
                && registration.transport.args@[0]@ == "--mcp"@;
            &&& own ==> (step matches UnregisterStep::Act {
                state: Unregistering::Removing,
                action,
            } && removes(action))
            &&& !own && (read is Registered || read is NotRegistered)
                ==> (step matches UnregisterStep::Done(Ok(())))
            &&& read is Failed || read is Malformed ==> (step matches UnregisterStep::Done(
                Err(message),
            ) && read_error(read) == Some(message@))
        }),
        event matches RegisterEvent::Run(run) ==> (unregister_step(
            Unregistering::Removing,
            event,
            step,
        ) ==> (step matches UnregisterStep::Done(outcome) && (outcome is Ok <==> (
        run matches CodexRun::Ended(output) && output.success)))),
{
    law_own_registration_is_named();
}

/// What is told of the registration is what was found and read: the path of the Codex program,
/// whether anything is registered and by which program, whether it is that of the panel, the
/// version of the program of the panel, and whether tool access is switched on.
pub proof fn law_status_tells_what_was_read(
    status: McpRegistrationStatus,
    codex: Option<(Seq<char>, CodexRead)>,
    version: Option<CommandOutput>,
    enabled: bool,
)
    requires
        tells(status, codex, version, enabled),
    ensures
        status.enabled == enabled,
        status.codex_found <==> codex is Some,
        codex is None ==> status.codex_path@.len() == 0 && !status.registered && !status.current
            && status.registered_path@.len() == 0,
        codex matches Some((path, read)) ==> {
            &&& status.codex_path@ == path
            &&& status.registered <==> read is Registered
            &&& read matches CodexRead::Registered { registration, same_program } ==> {
                &&& status.registered_path@ == registration.transport.command@
                &&& status.current <==> registration.enabled && same_program
                    && registration.transport.args@.len() == 1 && registration.transport.args@[0]@
                    == "--mcp"@
            }
            &&& !(read is Registered) ==> !status.current && status.registered_path@.len() == 0
        },
        version matches Some(output) ==> (output.success ==> status.version@ == trimmed(
            lossy_text(output.stdout@),
        )),
        !(version matches Some(output) && output.success) ==> status.version@.len() == 0,
{
}

/// What was found of the program says where it is and what it answered.
pub proof fn law_found_program_says_what_it_holds(codex: Option<(String, CodexRead)>)
    ensures
        codex matches Some((path, read)) ==> codex_view(codex) == Some((path@, read)),
        codex is None ==> codex_view(codex) is None,
{
}

} // verus!
