//! What a command on a server writes to its channel, and what is made of it.

use crate::bytes::{lossy_text, text_of_bytes};
use crate::spaces::{trim, trimmed};
use crate::text::{cat2, cat3, decimal, decimal_text};
use vstd::prelude::*;
use vstd::string::*;

verus! {

/// What comes from a channel while a command runs. What the command writes is of type `T`.
#[derive(Debug, PartialEq, Eq)]
pub enum ChannelEvent<T> {
    /// The command wrote to its output.
    Data(T),
    /// The command wrote to another stream: 1 is its error output.
    Extended { data: T, ext: u32 },
    /// The command ended with a status.
    ExitStatus(u32),
    /// Nothing more will be written.
    Eof,
    /// The channel was closed.
    Close,
    /// Something that has no meaning here.
    Other,
    /// The channel is gone.
    Ended,
    /// The time for the command is over.
    Deadline,
}

impl View for ChannelEvent<String> {
    type V = ChannelEvent<Seq<char>>;

    open spec fn view(&self) -> ChannelEvent<Seq<char>> {
        match *self {
            ChannelEvent::Data(text) => ChannelEvent::Data(text@),
            ChannelEvent::Extended { data, ext } => ChannelEvent::Extended { data: data@, ext },
            ChannelEvent::ExitStatus(status) => ChannelEvent::ExitStatus(status),
            ChannelEvent::Eof => ChannelEvent::Eof,
            ChannelEvent::Close => ChannelEvent::Close,
            ChannelEvent::Other => ChannelEvent::Other,
            ChannelEvent::Ended => ChannelEvent::Ended,
            ChannelEvent::Deadline => ChannelEvent::Deadline,
        }
    }
}

/// An event with what was written shown as text.
pub open spec fn shown_event(event: ChannelEvent<Vec<u8>>) -> ChannelEvent<Seq<char>> {
    match event {
        ChannelEvent::Data(bytes) => ChannelEvent::Data(lossy_text(bytes@)),
        ChannelEvent::Extended { data, ext } => ChannelEvent::Extended {
            data: lossy_text(data@),
            ext,
        },
        ChannelEvent::ExitStatus(status) => ChannelEvent::ExitStatus(status),
        ChannelEvent::Eof => ChannelEvent::Eof,
        ChannelEvent::Close => ChannelEvent::Close,
        ChannelEvent::Other => ChannelEvent::Other,
        ChannelEvent::Ended => ChannelEvent::Ended,
        ChannelEvent::Deadline => ChannelEvent::Deadline,
    }
}

/// Shows what was written as text.
pub fn show_event(event: ChannelEvent<Vec<u8>>) -> (shown: ChannelEvent<String>)
    ensures
        shown@ == shown_event(event),
{
    match event {
        ChannelEvent::Data(bytes) => ChannelEvent::Data(text_of_bytes(bytes.as_slice())),
        ChannelEvent::Extended { data, ext } => ChannelEvent::Extended {
            data: text_of_bytes(data.as_slice()),
            ext,
        },
        ChannelEvent::ExitStatus(status) => ChannelEvent::ExitStatus(status),
        ChannelEvent::Eof => ChannelEvent::Eof,
        ChannelEvent::Close => ChannelEvent::Close,
        ChannelEvent::Other => ChannelEvent::Other,
        ChannelEvent::Ended => ChannelEvent::Ended,
        ChannelEvent::Deadline => ChannelEvent::Deadline,
    }
}

/// What a command has written so far, and the exit code that is known of it. The texts are of
/// type `T`.
#[derive(Debug, PartialEq, Eq)]
pub struct Output<T> {
    pub stdout: T,
    pub stderr: T,
    pub exit_code: i32,
}

impl View for Output<String> {
    type V = Output<Seq<char>>;

    open spec fn view(&self) -> Output<Seq<char>> {
        Output { stdout: self.stdout@, stderr: self.stderr@, exit_code: self.exit_code }
    }
}

/// A command that has written nothing and not ended.
pub open spec fn no_output() -> Output<Seq<char>> {
    Output { stdout: Seq::empty(), stderr: Seq::empty(), exit_code: (-1) as i32 }
}

/// A command that has written nothing and not ended.
pub fn start_output() -> (output: Output<String>)
    ensures
        output@ == no_output(),
{
    let output = Output { stdout: String::new(), stderr: String::new(), exit_code: -1 };
    assert(output@.stdout =~= no_output().stdout && output@.stderr =~= no_output().stderr);
    output
}

/// A status as a signed number of the same bits.
pub open spec fn signed_status(status: u32) -> i32 {
    if status < 0x8000_0000 {
        status as i32
    } else {
        (status - 0x1_0000_0000) as i32
    }
}

fn exit_code_of(status: u32) -> (code: i32)
    ensures
        code == signed_status(status),
{
    if status < 0x8000_0000 {
        status as i32
    } else {
        -((u32::MAX - status) as i32) - 1
    }
}

/// What is known of a command after an event.
pub open spec fn with_event(output: Output<Seq<char>>, event: ChannelEvent<Seq<char>>) -> Output<
    Seq<char>,
> {
    match event {
        ChannelEvent::Data(text) => Output { stdout: output.stdout + text, ..output },
        ChannelEvent::Extended { data, ext } => if ext == 1 {
            Output { stderr: output.stderr + data, ..output }
        } else {
            output
        },
        ChannelEvent::ExitStatus(status) => Output { exit_code: signed_status(status), ..output },
        _ => output,
    }
}

/// What comes of a command after an event: more is awaited, or the command is over.
#[derive(Debug, PartialEq, Eq)]
pub enum ExecStep {
    Wait(Output<String>),
    Done(Result<(String, String, i32), String>),
}

/// What is reported of a command that took too long.
pub open spec fn timeout_message(timeout_secs: u64) -> Seq<char> {
    "Command timed out after "@ + decimal(timeout_secs as nat) + "s"@
}

/// Whether `step` is what comes of a command after an event: it is over when its channel is
/// closed or gone, and it fails when its time is over.
pub open spec fn exec_step(
    output: Output<Seq<char>>,
    event: ChannelEvent<Seq<char>>,
    timeout_secs: u64,
    step: ExecStep,
) -> bool {
    match event {
        ChannelEvent::Close | ChannelEvent::Ended => step matches ExecStep::Done(
            Ok((stdout, stderr, exit_code)),
        ) && output == (Output { stdout: stdout@, stderr: stderr@, exit_code }),
        ChannelEvent::Deadline => step matches ExecStep::Done(Err(message)) && message@
            == timeout_message(timeout_secs),
        _ => step matches ExecStep::Wait(next) && next@ == with_event(output, event),
    }
}

/// Goes on with a command after an event.
pub fn exec_with_output(
    output: Output<String>,
    event: ChannelEvent<String>,
    timeout_secs: u64,
) -> (step: ExecStep)
    ensures
        exec_step(output@, event@, timeout_secs, step),
{
    let mut output = output;
    match event {
        ChannelEvent::Data(text) => {
            output.stdout.append(text.as_str());
        },
        ChannelEvent::Extended { data, ext } => {
            if ext == 1 {
                output.stderr.append(data.as_str());
            }
        },
        ChannelEvent::ExitStatus(status) => {
            output.exit_code = exit_code_of(status);
        },
        ChannelEvent::Close | ChannelEvent::Ended => {
            return ExecStep::Done(Ok((output.stdout, output.stderr, output.exit_code)));
        },
        ChannelEvent::Deadline => {
            return ExecStep::Done(
                Err(cat3("Command timed out after ", decimal_text(timeout_secs).as_str(), "s")),
            );
        },
        ChannelEvent::Eof | ChannelEvent::Other => {},
    }
    ExecStep::Wait(output)
}

/// What was written to the output in some events.
pub open spec fn data_of(events: Seq<ChannelEvent<Seq<char>>>) -> Seq<char>
    decreases events.len(),
{
    if events.len() == 0 {
        Seq::empty()
    } else {
        match events.last() {
            ChannelEvent::Data(text) => data_of(events.drop_last()) + text,
            _ => data_of(events.drop_last()),
        }
    }
}

/// What was written to the error output in some events.
pub open spec fn errors_of(events: Seq<ChannelEvent<Seq<char>>>) -> Seq<char>
    decreases events.len(),
{
    if events.len() == 0 {
        Seq::empty()
    } else {
        match events.last() {
            ChannelEvent::Extended { data, ext } => if ext == 1 {
                errors_of(events.drop_last()) + data
            } else {
                errors_of(events.drop_last())
            },
            _ => errors_of(events.drop_last()),
        }
    }
}

/// The last exit code in some events; -1 where there is none.
pub open spec fn code_of(events: Seq<ChannelEvent<Seq<char>>>) -> i32
    decreases events.len(),
{
    if events.len() == 0 {
        (-1) as i32
    } else {
        match events.last() {
            ChannelEvent::ExitStatus(status) => signed_status(status),
            _ => code_of(events.drop_last()),
        }
    }
}

/// What is known of a command after some events.
pub open spec fn after_events(events: Seq<ChannelEvent<Seq<char>>>) -> Output<Seq<char>>
    decreases events.len(),
{
    if events.len() == 0 {
        no_output()
    } else {
        with_event(after_events(events.drop_last()), events.last())
    }
}

proof fn lemma_after_events(events: Seq<ChannelEvent<Seq<char>>>)
    ensures
        after_events(events).stdout == data_of(events),
        after_events(events).stderr == errors_of(events),
        after_events(events).exit_code == code_of(events),
    decreases events.len(),
{
    if events.len() > 0 {
        lemma_after_events(events.drop_last());
    }
}

/// A command that is over gives all that it wrote, each stream in its order, and the exit code
/// that came last.
pub proof fn law_all_output_is_given(
    events: Seq<ChannelEvent<Seq<char>>>,
    end: ChannelEvent<Seq<char>>,
    timeout_secs: u64,
    step: ExecStep,
)
    requires
        end is Close || end is Ended,
        exec_step(after_events(events), end, timeout_secs, step),
    ensures
        step matches ExecStep::Done(Ok((stdout, stderr, exit_code))) && stdout@ == data_of(events)
            && stderr@ == errors_of(events) && exit_code == code_of(events),
{
    lemma_after_events(events);
}

/// What a command that reports its work gives: its output and its error output.
pub fn joined_output(stdout: &str, stderr: &str) -> (text: String)
    ensures
        text@ == stdout@ + stderr@,
{
    cat2(stdout, stderr)
}

/// What a command that must write something gives: its output without the white space around
/// it.
pub fn required_output(command: &str, stdout: &str) -> (outcome: Result<String, String>)
    ensures
        match outcome {
            Ok(text) => text@ == trimmed(stdout@) && text@.len() > 0,
            Err(message) => trimmed(stdout@).len() == 0 && message@ == "Empty output for: "@
                + command@,
        },
{
    let text = trim(stdout);
    if text.as_str().is_empty() {
        Err(cat2("Empty output for: ", command))
    } else {
        Ok(text)
    }
}

/// What is reported of permissions that could not be set.
pub open spec fn chmod_message(stderr: Seq<char>) -> Seq<char> {
    "chmod error: "@ + trimmed(stderr)
}

/// What the end of the command that sets permissions means.
pub fn set_permissions_outcome(stderr: &str, exit_code: i32) -> (outcome: Result<(), String>)
    ensures
        outcome is Ok <==> exit_code == 0,
        outcome matches Err(message) ==> message@ == chmod_message(stderr@),
{
    if exit_code != 0 {
        Err(cat2("chmod error: ", trim(stderr).as_str()))
    } else {
        Ok(())
    }
}

/// What comes of setting permissions after an event, where only the error output counts.
#[derive(Debug, PartialEq, Eq)]
pub enum ChmodStep {
    Wait(String),
    Done(Result<(), String>),
}

/// Whether an event ends the wait for the error output of a command.
pub open spec fn ends_chmod(event: ChannelEvent<Seq<char>>) -> bool {
    event is Data || event is Eof || event is Close || event is Ended || event is Deadline
}

/// Goes on with setting permissions after an event. It succeeds where nothing was written to
/// the error output before anything else was written, or the channel or the time is over.
pub fn set_permissions(stderr: String, event: ChannelEvent<String>) -> (step: ChmodStep)
    ensures
        match step {
            ChmodStep::Wait(next) => !ends_chmod(event@) && next@ == match event@ {
                ChannelEvent::Extended { data, ext } => if ext == 1 {
                    stderr@ + data
                } else {
                    stderr@
                },
                _ => stderr@,
            },
            ChmodStep::Done(Ok(())) => ends_chmod(event@) && stderr@.len() == 0,
            ChmodStep::Done(Err(message)) => ends_chmod(event@) && stderr@.len() > 0 && message@
                == chmod_message(stderr@),
        },
{
    let mut stderr = stderr;
    match event {
        ChannelEvent::Extended { data, ext } => {
            if ext == 1 {
                stderr.append(data.as_str());
            }
            ChmodStep::Wait(stderr)
        },
        ChannelEvent::ExitStatus(_) | ChannelEvent::Other => ChmodStep::Wait(stderr),
        _ => if stderr.as_str().is_empty() {
            ChmodStep::Done(Ok(()))
        } else {
            ChmodStep::Done(Err(cat2("chmod error: ", trim(stderr.as_str()).as_str())))
        },
    }
}

/// What comes of a report on a directory after an event.
#[derive(Debug, PartialEq, Eq)]
pub enum ReportStep {
    Wait(String),
    Done(String),
}

/// Whether an event ends a report; the status of the command does so only where the rest of
/// its output is not awaited.
pub open spec fn ends_report(event: ChannelEvent<Seq<char>>, ends_at_status: bool) -> bool {
    ||| event is Eof
    ||| event is Close
    ||| event is Ended
    ||| event is Deadline
    ||| event is ExitStatus && ends_at_status
}

/// Goes on with a report on a directory after an event. It gives what was written to the
/// output, without the white space around it.
pub fn check_space(output: String, event: ChannelEvent<String>, ends_at_status: bool) -> (step:
    ReportStep)
    ensures
        match step {
            ReportStep::Wait(next) => !ends_report(event@, ends_at_status) && next@
                == match event@ {
                ChannelEvent::Data(text) => output@ + text,
                _ => output@,
            },
            ReportStep::Done(report) => ends_report(event@, ends_at_status) && report@ == trimmed(
                output@,
            ),
        },
{
    let mut output = output;
    match event {
        ChannelEvent::Data(text) => {
            output.append(text.as_str());
            ReportStep::Wait(output)
        },
        ChannelEvent::Extended { .. } | ChannelEvent::Other => ReportStep::Wait(output),
        ChannelEvent::ExitStatus(_) => if ends_at_status {
            ReportStep::Done(trim(output.as_str()))
        } else {
            ReportStep::Wait(output)
        },
        _ => ReportStep::Done(trim(output.as_str())),
    }
}

/// The exit code of a command is its status, read as a signed number of the same 32 bits.
pub proof fn law_exit_code_is_the_status(status: u32)
    ensures
        signed_status(status) == status || signed_status(status) == status - 0x1_0000_0000,
        status <= i32::MAX ==> signed_status(status) == status,
        signed_status(status) == 0 <==> status == 0,
{
}

/// A command is over exactly when its channel is closed or gone, or its time is over. In time it
/// gives what was kept of it, as it is; too late it gives an error that tells how long was waited.
pub proof fn law_command_ends_with_its_channel(
    output: Output<Seq<char>>,
    event: ChannelEvent<Seq<char>>,
    timeout_secs: u64,
    step: ExecStep,
)
    requires
        exec_step(output, event, timeout_secs, step),
    ensures
        step is Done <==> event is Close || event is Ended || event is Deadline,
        event is Close || event is Ended ==> (step matches ExecStep::Done(
            Ok((stdout, stderr, exit_code)),
        ) && stdout@ == output.stdout && stderr@ == output.stderr && exit_code
            == output.exit_code),
        event is Deadline ==> (step matches ExecStep::Done(Err(message)) && message@
            == "Command timed out after "@ + decimal(timeout_secs as nat) + "s"@),
{
}

/// Until a command is over everything it writes is kept behind what was written to the same
/// stream before, and the last status counts.
pub proof fn law_output_is_kept(
    events: Seq<ChannelEvent<Seq<char>>>,
    event: ChannelEvent<Seq<char>>,
    timeout_secs: u64,
    step: ExecStep,
)
    requires
        exec_step(after_events(events), event, timeout_secs, step),
        step is Wait,
    ensures
        step->Wait_0@.stdout == data_of(events.push(event)),
        step->Wait_0@.stderr == errors_of(events.push(event)),
        step->Wait_0@.exit_code == code_of(events.push(event)),
        after_events(Seq::empty()).stdout.len() == 0,
        after_events(Seq::empty()).stderr.len() == 0,
        after_events(Seq::empty()).exit_code == -1,
{
    assert(events.push(event).drop_last() =~= events);
    lemma_after_events(events.push(event));
}

/// What is shown of an event is what was written as text, and everything else as it is.
pub proof fn law_events_are_shown_as_they_are(event: ChannelEvent<Vec<u8>>)
    ensures
        event matches ChannelEvent::Data(bytes) ==> shown_event(event) == ChannelEvent::Data(
            lossy_text(bytes@),
        ),
        event matches ChannelEvent::Extended { data, ext } ==> shown_event(event) == (
        ChannelEvent::Extended { data: lossy_text(data@), ext }),
        event matches ChannelEvent::ExitStatus(status) ==> shown_event(event)
            == ChannelEvent::<Seq<char>>::ExitStatus(status),
        event is Eof ==> shown_event(event) is Eof,
        event is Close ==> shown_event(event) is Close,
        event is Other ==> shown_event(event) is Other,
        event is Ended ==> shown_event(event) is Ended,
        event is Deadline ==> shown_event(event) is Deadline,
{
}

/// Setting permissions and reporting on a directory go on while nothing was written to the
/// output, and while the output goes on, respectively; both end with the channel and the time.
pub proof fn law_waits_end_with_the_channel(
    event: ChannelEvent<Seq<char>>,
    ends_at_status: bool,
    stderr: Seq<char>,
)
    ensures
        ends_chmod(event) <==> !(event is Extended || event is ExitStatus || event is Other),
        ends_report(event, ends_at_status) <==> !(event is Data || event is Extended
            || event is Other || (event is ExitStatus && !ends_at_status)),
        chmod_message(stderr) == "chmod error: "@ + trimmed(stderr),
{
}

/// An event and what is known of a command say what they hold, each thing in its own place.
pub proof fn law_channels_say_what_they_hold(event: ChannelEvent<String>, output: Output<String>)
    ensures
        event matches ChannelEvent::Data(text) ==> event@ == ChannelEvent::Data(text@),
        event matches ChannelEvent::Extended { data, ext } ==> event@ == (ChannelEvent::Extended {
            data: data@,
            ext,
        }),
        event matches ChannelEvent::ExitStatus(status) ==> event@ == ChannelEvent::<
            Seq<char>,
        >::ExitStatus(status),
        event is Eof <==> event@ is Eof,
        event is Close <==> event@ is Close,
        event is Other <==> event@ is Other,
        event is Ended <==> event@ is Ended,
        event is Deadline <==> event@ is Deadline,
        output@.stdout == output.stdout@,
        output@.stderr == output.stderr@,
        output@.exit_code == output.exit_code,
{
}

} // verus!
