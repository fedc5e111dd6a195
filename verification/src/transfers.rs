//! Copying, packing, unpacking and downloading on a server: what is told while a command runs,
//! and how it ends.

use crate::channel::{data_of, errors_of, ChannelEvent};
use crate::json::{Json, JsonView};
use crate::lines::{
    curl_percentages, law_shown_lines_are_lines, lines_of, parts_of, percentages_of, shown_lines,
    visible_lines,
};
use crate::shell::texts;
use crate::spaces::{is_blank, trim, trimmed};
use crate::text::{cat2, cat4, decimal, decimal_text};
use vstd::prelude::*;
use vstd::string::*;

verus! {

/// Something that is told to the user interface: a topic and what there is to tell.
#[derive(Debug, PartialEq)]
pub struct Notice {
    pub topic: &'static str,
    pub payload: Json,
}

/// What a notice says.
pub struct NoticeView {
    pub topic: Seq<char>,
    pub payload: JsonView,
}

impl View for Notice {
    type V = NoticeView;

    open spec fn view(&self) -> NoticeView {
        NoticeView { topic: self.topic@, payload: self.payload@ }
    }
}

/// Notices as what they say.
pub open spec fn notices_view(notices: Seq<Notice>) -> Seq<NoticeView> {
    notices.map_values(|notice: Notice| notice@)
}

/// A line of output of a session, with the state of the work.
pub open spec fn line_notice(
    topic: Seq<char>,
    session_id: Seq<char>,
    line: Seq<char>,
    status: Seq<char>,
) -> NoticeView {
    NoticeView {
        topic,
        payload: JsonView::Object(
            map![
                "sessionId"@ => JsonView::Text(session_id),
                "line"@ => JsonView::Text(line),
                "status"@ => JsonView::Text(status),
            ],
        ),
    }
}

/// A notice for each of some lines.
pub open spec fn line_notices(
    topic: Seq<char>,
    session_id: Seq<char>,
    lines: Seq<Seq<char>>,
    status: Seq<char>,
) -> Seq<NoticeView> {
    lines.map_values(|line: Seq<char>| line_notice(topic, session_id, line, status))
}

fn tell_line(topic: &'static str, session_id: &str, line: &str, status: &str) -> (notice: Notice)
    ensures
        notice@ == line_notice(topic@, session_id@, line@, status@),
{
    let payload = Json::object().with("sessionId", Json::text(session_id)).with(
        "line",
        Json::text(line),
    ).with("status", Json::text(status));
    Notice { topic, payload }
}

fn tell_lines(topic: &'static str, session_id: &str, lines: &Vec<String>, status: &str) -> (
notices: Vec<Notice>)
    ensures
        notices_view(notices@) == line_notices(topic@, session_id@, texts(lines@), status@),
{
    let mut notices: Vec<Notice> = Vec::new();
    let mut i: usize = 0;
    while i < lines.len()
        invariant
            i <= lines@.len(),
            notices@.len() == i,
            forall|j: int|
                0 <= j < i ==> (#[trigger] notices@[j])@ == line_notice(
                    topic@,
                    session_id@,
                    lines@[j]@,
                    status@,
                ),
        decreases lines@.len() - i,
    {
        notices.push(tell_line(topic, session_id, lines[i].as_str(), status));
        i += 1;
    }
    assert(notices_view(notices@) =~= line_notices(topic@, session_id@, texts(lines@), status@));
    notices
}

fn tell_one(notice: Notice) -> (notices: Vec<Notice>)
    ensures
        notices_view(notices@) == seq![notice@],
{
    let notices = vec![notice];
    assert(notices_view(notices@) =~= seq![notice@]);
    notices
}

fn tell_nothing() -> (notices: Vec<Notice>)
    ensures
        notices_view(notices@) == Seq::<NoticeView>::empty(),
{
    let notices: Vec<Notice> = Vec::new();
    assert(notices_view(notices@) =~= Seq::<NoticeView>::empty());
    notices
}

/// What comes of some work after an event: more is awaited, with what is kept until then, or
/// the work is over.
#[derive(Debug, PartialEq)]
pub enum Flow<S> {
    Wait(S),
    Done(Result<(), String>),
}

/// Some texts one behind the other.
pub open spec fn joined(lines: Seq<Seq<char>>) -> Seq<char>
    decreases lines.len(),
{
    if lines.len() == 0 {
        Seq::empty()
    } else {
        joined(lines.drop_last()) + lines.last()
    }
}

fn join_lines(start: String, lines: &Vec<String>) -> (text: String)
    ensures
        text@ == start@ + joined(texts(lines@)),
{
    let mut text = start;
    let mut i: usize = 0;
    assert(text@ =~= start@ + joined(texts(lines@).take(0)));
    while i < lines.len()
        invariant
            i <= lines@.len(),
            text@ == start@ + joined(texts(lines@).take(i as int)),
        decreases lines@.len() - i,
    {
        assert(texts(lines@).take(i + 1).drop_last() =~= texts(lines@).take(i as int));
        text.append(lines[i].as_str());
        assert(text@ =~= start@ + joined(texts(lines@).take(i + 1)));
        i += 1;
    }
    assert(texts(lines@).take(lines@.len() as int) =~= texts(lines@));
    text
}

/// What is told when a copy begins.
pub fn copy_started(session_id: &str, command: &str) -> (notice: Notice)
    ensures
        notice@ == line_notice("copy-progress"@, session_id@, "$ "@ + command@, "copying"@),
{
    tell_line("copy-progress", session_id, cat2("$ ", command).as_str(), "copying")
}

/// What is reported of a copy that failed.
pub open spec fn copy_failure(is_dir: bool, status: u32, stderr: Seq<char>) -> Seq<char> {
    (if is_dir {
        "cp -r failed (exit "@
    } else {
        "cp failed (exit "@
    }) + decimal(status as nat) + "): "@ + trimmed(stderr)
}

/// What a copy keeps of its error output: all of it, or only the lines that are shown.
pub open spec fn copy_errors(stderr: Seq<char>, text: Seq<char>, only_lines: bool) -> Seq<char> {
    if only_lines {
        stderr + joined(shown_lines(text))
    } else {
        stderr + text
    }
}

/// Whether `step` is what comes of a copy after an event.
pub open spec fn copy_step(
    session_id: Seq<char>,
    is_dir: bool,
    only_lines: bool,
    stderr: Seq<char>,
    event: ChannelEvent<Seq<char>>,
    flow: Flow<String>,
    notices: Seq<NoticeView>,
) -> bool {
    match event {
        ChannelEvent::Data(text) => {
            &&& flow matches Flow::Wait(next) && next@ == stderr
            &&& notices == line_notices(
                "copy-progress"@,
                session_id,
                shown_lines(text),
                "copying"@,
            )
        },
        ChannelEvent::Extended { data, ext } => if ext == 1 {
            &&& flow matches Flow::Wait(next) && next@ == copy_errors(stderr, data, only_lines)
            &&& notices == line_notices("copy-progress"@, session_id, shown_lines(data), "error"@)
        } else {
            &&& flow matches Flow::Wait(next) && next@ == stderr
            &&& notices.len() == 0
        },
        ChannelEvent::ExitStatus(status) => if status == 0 {
            flow == Flow::<String>::Done(Ok(())) && notices.len() == 0
        } else {
            let message = copy_failure(is_dir, status, stderr);
            &&& flow matches Flow::Done(Err(error)) && error@ == message
            &&& notices == seq![line_notice("copy-progress"@, session_id, message, "error"@)]
        },
        ChannelEvent::Ended => {
            &&& flow matches Flow::Done(Err(error)) && error@ == "Connection lost during copy"@
            &&& notices.len() == 0
        },
        _ => {
            &&& flow matches Flow::Wait(next) && next@ == stderr
            &&& notices.len() == 0
        },
    }
}

/// Goes on with a copy after an event.
fn copy_on_event(
    session_id: &str,
    is_dir: bool,
    only_lines: bool,
    stderr: String,
    event: ChannelEvent<String>,
) -> (step: (Flow<String>, Vec<Notice>))
    ensures
        copy_step(
            session_id@,
            is_dir,
            only_lines,
            stderr@,
            event@,
            step.0,
            notices_view(step.1@),
        ),
{
    match event {
        ChannelEvent::Data(text) => {
            let lines = visible_lines(text.as_str());
            let notices = tell_lines("copy-progress", session_id, &lines, "copying");
            (Flow::Wait(stderr), notices)
        },
        ChannelEvent::Extended { data, ext } => {
            if ext == 1 {
                let lines = visible_lines(data.as_str());
                let notices = tell_lines("copy-progress", session_id, &lines, "error");
                if only_lines {
                    (Flow::Wait(join_lines(stderr, &lines)), notices)
                } else {
                    (Flow::Wait(cat2(stderr.as_str(), data.as_str())), notices)
                }
            } else {
                (Flow::Wait(stderr), tell_nothing())
            }
        },
        ChannelEvent::ExitStatus(status) => {
            if status != 0 {
                let prefix = if is_dir {
                    "cp -r failed (exit "
                } else {
                    "cp failed (exit "
                };
                let message = cat4(
                    prefix,
                    decimal_text(status as u64).as_str(),
                    "): ",
                    trim(stderr.as_str()).as_str(),
                );
                let notice = tell_line("copy-progress", session_id, message.as_str(), "error");
                (Flow::Done(Err(message)), tell_one(notice))
            } else {
                (Flow::Done(Ok(())), tell_nothing())
            }
        },
        ChannelEvent::Ended => (
            Flow::Done(Err("Connection lost during copy".to_owned())),
            tell_nothing(),
        ),
        _ => (Flow::Wait(stderr), tell_nothing()),
    }
}

/// Goes on with copying a file after an event.
pub fn copy_file(session_id: &str, stderr: String, event: ChannelEvent<String>) -> (step: (
    Flow<String>,
    Vec<Notice>,
))
    ensures
        copy_step(session_id@, false, false, stderr@, event@, step.0, notices_view(step.1@)),
{
    copy_on_event(session_id, false, false, stderr, event)
}

/// Goes on with copying a directory after an event.
pub fn copy_dir(session_id: &str, stderr: String, event: ChannelEvent<String>) -> (step: (
    Flow<String>,
    Vec<Notice>,
))
    ensures
        copy_step(session_id@, true, false, stderr@, event@, step.0, notices_view(step.1@)),
{
    copy_on_event(session_id, true, false, stderr, event)
}

/// Goes on with copying a file after an event, and keeps only the shown lines of the errors.
pub fn session_copy_file(session_id: &str, stderr: String, event: ChannelEvent<String>) -> (step: (
    Flow<String>,
    Vec<Notice>,
))
    ensures
        copy_step(session_id@, false, true, stderr@, event@, step.0, notices_view(step.1@)),
{
    copy_on_event(session_id, false, true, stderr, event)
}

/// Goes on with copying a directory after an event, and keeps only the shown lines of the
/// errors.
pub fn session_copy_dir(session_id: &str, stderr: String, event: ChannelEvent<String>) -> (step: (
    Flow<String>,
    Vec<Notice>,
))
    ensures
        copy_step(session_id@, true, true, stderr@, event@, step.0, notices_view(step.1@)),
{
    copy_on_event(session_id, true, true, stderr, event)
}

/// What an event writes where both streams count.
pub open spec fn written(event: ChannelEvent<Seq<char>>) -> Option<Seq<char>> {
    match event {
        ChannelEvent::Data(text) => Some(text),
        ChannelEvent::Extended { data, ext } => if ext == 1 {
            Some(data)
        } else {
            None
        },
        _ => None,
    }
}

fn written_text(event: &ChannelEvent<String>) -> (text: Option<&String>)
    ensures
        match text {
            Some(t) => written(event@) == Some(t@),
            None => written(event@) is None,
        },
{
    match event {
        ChannelEvent::Data(text) => Some(text),
        ChannelEvent::Extended { data, ext } => if *ext == 1 {
            Some(data)
        } else {
            None
        },
        _ => None,
    }
}

/// What packing or unpacking an archive keeps: what was written, and the status with which the
/// command ended, once it is known.
#[derive(Debug, PartialEq, Eq)]
pub struct Archiving {
    pub written: String,
    pub status: Option<u32>,
}

/// Packing or unpacking an archive, before anything was written.
pub fn start_archiving() -> (state: Archiving)
    ensures
        state.written@.len() == 0,
        state.status is None,
{
    Archiving { written: String::new(), status: None }
}

/// Whether packing or unpacking goes on in a state.
pub open spec fn archive_waits(
    flow: Flow<Archiving>,
    written: Seq<char>,
    status: Option<u32>,
) -> bool {
    flow matches Flow::Wait(next) && next.written@ == written && next.status == status
}

/// Whether packing or unpacking ends by the status of its command: it succeeds, and says so,
/// where the status is known and is zero, and fails with all that was written otherwise.
pub open spec fn archive_ends(
    session_id: Seq<char>,
    state: Archiving,
    done: Seq<char>,
    failed: Seq<char>,
    flow: Flow<Archiving>,
    notices: Seq<NoticeView>,
) -> bool {
    if state.status == Some(0u32) {
        &&& flow == Flow::<Archiving>::Done(Ok(()))
        &&& notices == seq![line_notice("archive-progress"@, session_id, done, "done"@)]
    } else {
        &&& flow matches Flow::Done(Err(error)) && error@ == failed + trimmed(state.written@)
        &&& notices.len() == 0
    }
}

/// Whether packing or unpacking fails for want of time.
pub open spec fn archive_times_out(
    message: Seq<char>,
    flow: Flow<Archiving>,
    notices: Seq<NoticeView>,
) -> bool {
    &&& flow matches Flow::Done(Err(error)) && error@ == message
    &&& notices.len() == 0
}

/// Whether `flow` and `notices` are what comes of packing an archive after an event. It ends
/// with its channel, or with the last of its output once the status is known; when time is
/// up, a status that is known still counts.
pub open spec fn compress_step(
    session_id: Seq<char>,
    state: Archiving,
    event: ChannelEvent<Seq<char>>,
    flow: Flow<Archiving>,
    notices: Seq<NoticeView>,
) -> bool {
    let ends = archive_ends(
        session_id,
        state,
        "Compression completed."@,
        "Compression failed: "@,
        flow,
        notices,
    );
    if written(event) is Some {
        &&& archive_waits(flow, state.written@ + written(event)->0, state.status)
        &&& notices == line_notices(
            "archive-progress"@,
            session_id,
            shown_lines(written(event)->0),
            "compressing"@,
        )
    } else {
        match event {
            ChannelEvent::ExitStatus(status) => {
                &&& archive_waits(flow, state.written@, Some(status))
                &&& notices.len() == 0
            },
            ChannelEvent::Eof => if state.status is Some {
                ends
            } else {
                flow == Flow::Wait(state) && notices.len() == 0
            },
            ChannelEvent::Close | ChannelEvent::Ended => ends,
            ChannelEvent::Deadline => if state.status is Some {
                ends
            } else {
                archive_times_out("Compress operation timed out"@, flow, notices)
            },
            _ => flow == Flow::Wait(state) && notices.len() == 0,
        }
    }
}

/// Whether `flow` and `notices` are what comes of unpacking an archive after an event. It ends
/// with its channel, or with the last of its output once the status is known.
pub open spec fn extract_step(
    session_id: Seq<char>,
    state: Archiving,
    event: ChannelEvent<Seq<char>>,
    flow: Flow<Archiving>,
    notices: Seq<NoticeView>,
) -> bool {
    let ends = archive_ends(
        session_id,
        state,
        "Extraction completed."@,
        "Extraction failed: "@,
        flow,
        notices,
    );
    if written(event) is Some {
        &&& archive_waits(flow, state.written@ + written(event)->0, state.status)
        &&& notices == line_notices(
            "archive-progress"@,
            session_id,
            shown_lines(written(event)->0),
            "extracting"@,
        )
    } else {
        match event {
            ChannelEvent::ExitStatus(status) => {
                &&& archive_waits(flow, state.written@, Some(status))
                &&& notices.len() == 0
            },
            ChannelEvent::Eof => if state.status is Some {
                ends
            } else {
                flow == Flow::Wait(state) && notices.len() == 0
            },
            ChannelEvent::Close | ChannelEvent::Ended => ends,
            ChannelEvent::Deadline => archive_times_out(
                "Extract operation timed out"@,
                flow,
                notices,
            ),
            _ => flow == Flow::Wait(state) && notices.len() == 0,
        }
    }
}

fn end_archiving(session_id: &str, state: Archiving, done: &str, failed: &str) -> (step: (
    Flow<Archiving>,
    Vec<Notice>,
))
    ensures
        archive_ends(session_id@, state, done@, failed@, step.0, notices_view(step.1@)),
{
    match state.status {
        Some(0) => {
            let notice = tell_line("archive-progress", session_id, done, "done");
            (Flow::Done(Ok(())), tell_one(notice))
        },
        _ => {
            let message = cat2(failed, trim(state.written.as_str()).as_str());
            (Flow::Done(Err(message)), tell_nothing())
        },
    }
}

fn keep_written(session_id: &str, state: Archiving, text: &str, status: &str) -> (step: (
    Flow<Archiving>,
    Vec<Notice>,
))
    ensures
        archive_waits(step.0, state.written@ + text@, state.status),
        notices_view(step.1@) == line_notices(
            "archive-progress"@,
            session_id@,
            shown_lines(text@),
            status@,
        ),
{
    let lines = visible_lines(text);
    let notices = tell_lines("archive-progress", session_id, &lines, status);
    let next = Archiving { written: cat2(state.written.as_str(), text), status: state.status };
    (Flow::Wait(next), notices)
}

/// Goes on with packing an archive after an event.
pub fn compress(session_id: &str, state: Archiving, event: ChannelEvent<String>) -> (step: (
    Flow<Archiving>,
    Vec<Notice>,
))
    ensures
        compress_step(session_id@, state, event@, step.0, notices_view(step.1@)),
{
    match written_text(&event) {
        Some(text) => {
            return keep_written(session_id, state, text.as_str(), "compressing");
        },
        None => {},
    }
    let known = state.status.is_some();
    match event {
        ChannelEvent::ExitStatus(status) => {
            let next = Archiving { written: state.written, status: Some(status) };
            (Flow::Wait(next), tell_nothing())
        },
        ChannelEvent::Eof if !known => (Flow::Wait(state), tell_nothing()),
        ChannelEvent::Deadline if !known => (
            Flow::Done(Err("Compress operation timed out".to_owned())),
            tell_nothing(),
        ),
        ChannelEvent::Eof
        | ChannelEvent::Close
        | ChannelEvent::Ended
        | ChannelEvent::Deadline => end_archiving(
            session_id,
            state,
            "Compression completed.",
            "Compression failed: ",
        ),
        _ => (Flow::Wait(state), tell_nothing()),
    }
}

/// Goes on with unpacking an archive after an event.
pub fn extract(session_id: &str, state: Archiving, event: ChannelEvent<String>) -> (step: (
    Flow<Archiving>,
    Vec<Notice>,
))
    ensures
        extract_step(session_id@, state, event@, step.0, notices_view(step.1@)),
{
    match written_text(&event) {
        Some(text) => {
            return keep_written(session_id, state, text.as_str(), "extracting");
        },
        None => {},
    }
    let known = state.status.is_some();
    match event {
        ChannelEvent::ExitStatus(status) => {
            let next = Archiving { written: state.written, status: Some(status) };
            (Flow::Wait(next), tell_nothing())
        },
        ChannelEvent::Eof if !known => (Flow::Wait(state), tell_nothing()),
        ChannelEvent::Eof | ChannelEvent::Close | ChannelEvent::Ended => end_archiving(
            session_id,
            state,
            "Extraction completed.",
            "Extraction failed: ",
        ),
        ChannelEvent::Deadline => (
            Flow::Done(Err("Extract operation timed out".to_owned())),
            tell_nothing(),
        ),
        _ => (Flow::Wait(state), tell_nothing()),
    }
}

/// How far a download has come, told of a session.
pub open spec fn download_notice(session_id: Seq<char>, progress: JsonView) -> NoticeView {
    NoticeView {
        topic: "download-progress"@,
        payload: JsonView::Object(
            map![
                "sessionId"@ => JsonView::Text(session_id),
                "progress"@ => progress,
                "status"@ => JsonView::Text("downloading"@),
            ],
        ),
    }
}

/// Tells how far a download has come.
pub fn download_progress(session_id: &str, progress: Json) -> (notice: Notice)
    ensures
        notice@ == download_notice(session_id@, progress@),
{
    let payload = Json::object().with("sessionId", Json::text(session_id)).with(
        "progress",
        progress,
    ).with("status", Json::text("downloading"));
    Notice { topic: "download-progress", payload }
}

/// What is told of a download that is done.
pub open spec fn download_done(session_id: Seq<char>) -> NoticeView {
    NoticeView {
        topic: "download-progress"@,
        payload: JsonView::Object(
            map![
                "sessionId"@ => JsonView::Text(session_id),
                "progress"@ => JsonView::Int(100),
                "status"@ => JsonView::Text("done"@),
            ],
        ),
    }
}

/// What is told of a download that failed.
pub open spec fn download_failed(session_id: Seq<char>, error: Seq<char>) -> NoticeView {
    NoticeView {
        topic: "download-progress"@,
        payload: JsonView::Object(
            map![
                "sessionId"@ => JsonView::Text(session_id),
                "progress"@ => JsonView::Int(0),
                "status"@ => JsonView::Text("error"@),
                "error"@ => JsonView::Text(error),
            ],
        ),
    }
}

/// What a download keeps: what was written, and the status with which the command ended, once
/// it is known.
#[derive(Debug, PartialEq, Eq)]
pub struct Downloading {
    pub stdout: String,
    pub stderr: String,
    pub status: Option<u32>,
}

/// A download, before anything was written.
pub fn start_downloading() -> (state: Downloading)
    ensures
        state.stdout@.len() == 0,
        state.stderr@.len() == 0,
        state.status is None,
{
    Downloading { stdout: String::new(), stderr: String::new(), status: None }
}

/// What comes of a download after an event.
#[derive(Debug, PartialEq)]
pub enum DownloadStep {
    /// More is awaited; meanwhile the texts that are percentages are to be told.
    Wait { state: Downloading, percentages: Vec<String> },
    /// The download is over.
    Done { outcome: Result<(), String>, notice: Notice },
}

/// Whether a download goes on in a state, and tells some percentages.
pub open spec fn download_waits(
    step: DownloadStep,
    stdout: Seq<char>,
    stderr: Seq<char>,
    status: Option<u32>,
    percents: Seq<Seq<char>>,
) -> bool {
    step matches DownloadStep::Wait { state, percentages } && state.stdout@ == stdout
        && state.stderr@ == stderr && state.status == status && texts(percentages@) == percents
}

/// What is reported of a download that failed.
pub open spec fn download_errors(state: Downloading) -> Seq<char> {
    trimmed(state.stdout@) + trimmed(state.stderr@)
}

/// Whether a download ends by the status of its command: it succeeds where the status is known
/// and is zero, and fails with all that was written otherwise.
pub open spec fn download_ends(
    session_id: Seq<char>,
    state: Downloading,
    step: DownloadStep,
) -> bool {
    if state.status == Some(0u32) {
        step matches DownloadStep::Done { outcome, notice } && outcome == Ok::<(), String>(())
            && notice@ == download_done(session_id)
    } else {
        step matches DownloadStep::Done { outcome: Err(message), notice } && message@
            == "Download failed: "@ + download_errors(state) && notice@ == download_failed(
            session_id,
            download_errors(state),
        )
    }
}

/// Whether `step` is what comes of a download after an event: it ends with its channel, or when
/// time is up, or with the last of its output once the status is known.
pub open spec fn download_step(
    session_id: Seq<char>,
    state: Downloading,
    event: ChannelEvent<Seq<char>>,
    step: DownloadStep,
) -> bool {
    match event {
        ChannelEvent::Data(text) => download_waits(
            step,
            state.stdout@ + text,
            state.stderr@,
            state.status,
            Seq::empty(),
        ),
        ChannelEvent::Extended { data, ext } => if ext == 1 {
            download_waits(
                step,
                state.stdout@,
                state.stderr@ + data,
                state.status,
                percentages_of(parts_of(data)),
            )
        } else {
            download_waits(step, state.stdout@, state.stderr@, state.status, Seq::empty())
        },
        ChannelEvent::ExitStatus(status) => download_waits(
            step,
            state.stdout@,
            state.stderr@,
            Some(status),
            Seq::empty(),
        ),
        ChannelEvent::Eof => if state.status is Some {
            download_ends(session_id, state, step)
        } else {
            download_waits(step, state.stdout@, state.stderr@, state.status, Seq::empty())
        },
        ChannelEvent::Other => download_waits(
            step,
            state.stdout@,
            state.stderr@,
            state.status,
            Seq::empty(),
        ),
        _ => download_ends(session_id, state, step),
    }
}

fn end_download(session_id: &str, state: Downloading) -> (step: DownloadStep)
    ensures
        download_ends(session_id@, state, step),
{
    let payload = Json::object().with("sessionId", Json::text(session_id));
    match state.status {
        Some(0) => {
            let payload = payload.with("progress", Json::Unsigned(100)).with(
                "status",
                Json::text("done"),
            );
            DownloadStep::Done {
                outcome: Ok(()),
                notice: Notice { topic: "download-progress", payload },
            }
        },
        _ => {
            let error = cat2(
                trim(state.stdout.as_str()).as_str(),
                trim(state.stderr.as_str()).as_str(),
            );
            let payload = payload.with("progress", Json::Unsigned(0)).with(
                "status",
                Json::text("error"),
            ).with("error", Json::text(error.as_str()));
            DownloadStep::Done {
                outcome: Err(cat2("Download failed: ", error.as_str())),
                notice: Notice { topic: "download-progress", payload },
            }
        },
    }
}

/// Goes on with a download after an event.
pub fn download_file(session_id: &str, state: Downloading, event: ChannelEvent<String>) -> (step:
    DownloadStep)
    ensures
        download_step(session_id@, state, event@, step),
{
    let mut state = state;
    let mut percentages: Vec<String> = Vec::new();
    assert(texts(percentages@) =~= Seq::<Seq<char>>::empty());
    match event {
        ChannelEvent::Data(text) => {
            state.stdout.append(text.as_str());
        },
        ChannelEvent::Extended { data, ext } => {
            if ext == 1 {
                state.stderr.append(data.as_str());
                percentages = curl_percentages(data.as_str());
            }
        },
        ChannelEvent::ExitStatus(status) => {
            state.status = Some(status);
        },
        ChannelEvent::Eof => {
            if state.status.is_some() {
                return end_download(session_id, state);
            }
        },
        ChannelEvent::Other => {},
        _ => {
            return end_download(session_id, state);
        },
    }
    DownloadStep::Wait { state, percentages }
}

/// What a copy keeps of its error output after some events.
pub open spec fn kept_errors(events: Seq<ChannelEvent<Seq<char>>>, only_lines: bool) -> Seq<char>
    decreases events.len(),
{
    if events.len() == 0 {
        Seq::empty()
    } else {
        let before = kept_errors(events.drop_last(), only_lines);
        match events.last() {
            ChannelEvent::Extended { data, ext } => if ext == 1 {
                copy_errors(before, data, only_lines)
            } else {
                before
            },
            _ => before,
        }
    }
}

proof fn lemma_kept_errors(events: Seq<ChannelEvent<Seq<char>>>)
    ensures
        kept_errors(events, false) == errors_of(events),
    decreases events.len(),
{
    if events.len() > 0 {
        lemma_kept_errors(events.drop_last());
    }
}

/// A copy that fails reports the errors that were written until then: all of them, unless only
/// the shown lines are kept.
pub proof fn law_copy_reports_its_errors(
    session_id: Seq<char>,
    is_dir: bool,
    only_lines: bool,
    events: Seq<ChannelEvent<Seq<char>>>,
    event: ChannelEvent<Seq<char>>,
    flow: Flow<String>,
    notices: Seq<NoticeView>,
)
    requires
        copy_step(
            session_id,
            is_dir,
            only_lines,
            kept_errors(events, only_lines),
            event,
            flow,
            notices,
        ),
    ensures
        flow matches Flow::Wait(next) ==> next@ == kept_errors(events.push(event), only_lines),
        event matches ChannelEvent::ExitStatus(status) ==> (status != 0 ==> (flow matches Flow::Done(
            Err(message),
        ) && message@ == copy_failure(is_dir, status, kept_errors(events, only_lines)))),
        !only_lines ==> kept_errors(events, only_lines) == errors_of(events),
{
    assert(events.push(event).drop_last() == events);
    lemma_kept_errors(events);
}

/// The last status that some events tell, if they tell one.
pub open spec fn last_status(events: Seq<ChannelEvent<Seq<char>>>) -> Option<u32>
    decreases events.len(),
{
    if events.len() == 0 {
        None
    } else {
        match events.last() {
            ChannelEvent::ExitStatus(status) => Some(status),
            _ => last_status(events.drop_last()),
        }
    }
}

/// What was written to both streams in some events.
pub open spec fn all_written(events: Seq<ChannelEvent<Seq<char>>>) -> Seq<char>
    decreases events.len(),
{
    if events.len() == 0 {
        Seq::empty()
    } else {
        match written(events.last()) {
            Some(text) => all_written(events.drop_last()) + text,
            None => all_written(events.drop_last()),
        }
    }
}

/// Packing keeps all that was written and the last status, and ends by them: it succeeds, and
/// is told to be done, where a status was told and the last one was zero, and no other way.
pub proof fn law_compress_ends_by_its_status(
    session_id: Seq<char>,
    state: Archiving,
    events: Seq<ChannelEvent<Seq<char>>>,
    event: ChannelEvent<Seq<char>>,
    flow: Flow<Archiving>,
    notices: Seq<NoticeView>,
)
    requires
        state.written@ == all_written(events),
        state.status == last_status(events),
        compress_step(session_id, state, event, flow, notices),
    ensures
        flow matches Flow::Wait(next) ==> next.written@ == all_written(events.push(event))
            && next.status == last_status(events.push(event)),
        flow matches Flow::Done(outcome) ==> (outcome is Ok <==> last_status(events) == Some(0u32)),
        flow matches Flow::Done(outcome) ==> notices == if outcome is Ok {
            seq![
                line_notice("archive-progress"@, session_id, "Compression completed."@, "done"@),
            ]
        } else {
            Seq::empty()
        },
{
    assert(events.push(event).drop_last() == events);
}

/// Unpacking keeps all that was written and the last status, and ends by them: it succeeds, and
/// is told to be done, where the last status was zero before time was up, and no other way.
pub proof fn law_extract_ends_by_its_status(
    session_id: Seq<char>,
    state: Archiving,
    events: Seq<ChannelEvent<Seq<char>>>,
    event: ChannelEvent<Seq<char>>,
    flow: Flow<Archiving>,
    notices: Seq<NoticeView>,
)
    requires
        state.written@ == all_written(events),
        state.status == last_status(events),
        extract_step(session_id, state, event, flow, notices),
    ensures
        flow matches Flow::Wait(next) ==> next.written@ == all_written(events.push(event))
            && next.status == last_status(events.push(event)),
        flow matches Flow::Done(outcome) ==> (outcome is Ok <==> !(event is Deadline)
            && last_status(events) == Some(0u32)),
        flow matches Flow::Done(outcome) ==> notices == if outcome is Ok {
            seq![line_notice("archive-progress"@, session_id, "Extraction completed."@, "done"@)]
        } else {
            Seq::empty()
        },
{
    assert(events.push(event).drop_last() == events);
}

/// A download keeps what was written to each stream and the last status, and ends by them: it
/// succeeds, and is told to be done, where a status was told and the last one was zero, and
/// otherwise fails with what was written.
pub proof fn law_download_ends_by_its_status(
    session_id: Seq<char>,
    state: Downloading,
    events: Seq<ChannelEvent<Seq<char>>>,
    event: ChannelEvent<Seq<char>>,
    step: DownloadStep,
)
    requires
        state.stdout@ == data_of(events),
        state.stderr@ == errors_of(events),
        state.status == last_status(events),
        download_step(session_id, state, event, step),
    ensures
        step matches DownloadStep::Wait { state: next, .. } ==> next.stdout@ == data_of(
            events.push(event),
        ) && next.stderr@ == errors_of(events.push(event)) && next.status == last_status(
            events.push(event),
        ),
        step matches DownloadStep::Done { outcome, notice } ==> {
            let errors = trimmed(data_of(events)) + trimmed(errors_of(events));
            &&& outcome is Ok <==> last_status(events) == Some(0u32)
            &&& outcome matches Err(message) ==> message@ == "Download failed: "@ + errors
            &&& notice@ == if outcome is Ok {
                download_done(session_id)
            } else {
                download_failed(session_id, errors)
            }
        },
{
    assert(events.push(event).drop_last() == events);
}

proof fn lemma_notice_names()
    ensures
        "sessionId"@ != "line"@,
        "sessionId"@ != "status"@,
        "line"@ != "status"@,
        "sessionId"@ != "progress"@,
        "sessionId"@ != "error"@,
        "progress"@ != "status"@,
        "progress"@ != "error"@,
        "status"@ != "error"@,
{
    reveal_strlit("sessionId");
    reveal_strlit("line");
    reveal_strlit("status");
    reveal_strlit("progress");
    reveal_strlit("error");
    assert("sessionId"@.len() == 9 && "line"@.len() == 4 && "status"@.len() == 6);
    assert("progress"@.len() == 8 && "error"@.len() == 5);
}

/// Whether a notice tells a line of a session under a topic, with the state of the work.
pub open spec fn tells_line(
    notice: NoticeView,
    topic: Seq<char>,
    session_id: Seq<char>,
    line: Seq<char>,
    status: Seq<char>,
) -> bool {
    &&& notice.topic == topic
    &&& notice.payload.text_field("sessionId"@) == Some(session_id)
    &&& notice.payload.text_field("line"@) == Some(line)
    &&& notice.payload.text_field("status"@) == Some(status)
}

/// Whether notices tell the lines of a text of a session that are not blank, one each and in
/// their order.
pub open spec fn tells_text(
    notices: Seq<NoticeView>,
    topic: Seq<char>,
    session_id: Seq<char>,
    text: Seq<char>,
    status: Seq<char>,
) -> bool {
    let lines = lines_of(text).filter(|line: Seq<char>| !is_blank(line));
    &&& notices.len() == lines.len()
    &&& forall|i: int|
        0 <= i < lines.len() ==> tells_line(
            #[trigger] notices[i],
            topic,
            session_id,
            lines[i],
            status,
        )
}

proof fn lemma_tells_line(
    topic: Seq<char>,
    session_id: Seq<char>,
    line: Seq<char>,
    status: Seq<char>,
)
    ensures
        tells_line(line_notice(topic, session_id, line, status), topic, session_id, line, status),
{
    lemma_notice_names();
}

proof fn lemma_tells_text(
    topic: Seq<char>,
    session_id: Seq<char>,
    text: Seq<char>,
    status: Seq<char>,
)
    ensures
        tells_text(
            line_notices(topic, session_id, shown_lines(text), status),
            topic,
            session_id,
            text,
            status,
        ),
{
    law_shown_lines_are_lines(text);
    let notices = line_notices(topic, session_id, shown_lines(text), status);
    assert forall|i: int| 0 <= i < shown_lines(text).len() implies tells_line(
        #[trigger] notices[i],
        topic,
        session_id,
        shown_lines(text)[i],
        status,
    ) by {
        lemma_tells_line(topic, session_id, shown_lines(text)[i], status);
    }
}

/// A copy tells each line that it writes, as progress or as an error by the stream, ends with its
/// status or when the connection is lost, and succeeds exactly with the status zero. A failure is
/// told, with the status and the errors that were kept.
pub proof fn law_copy_ends_by_its_status(
    session_id: Seq<char>,
    is_dir: bool,
    only_lines: bool,
    stderr: Seq<char>,
    event: ChannelEvent<Seq<char>>,
    flow: Flow<String>,
    notices: Seq<NoticeView>,
)
    requires
        copy_step(session_id, is_dir, only_lines, stderr, event, flow, notices),
    ensures
        flow is Done <==> event is ExitStatus || event is Ended,
        flow matches Flow::Done(Ok(())) <==> event == ChannelEvent::<Seq<char>>::ExitStatus(0),
        event is Ended ==> (flow matches Flow::Done(Err(message)) && message@
            == "Connection lost during copy"@ && notices.len() == 0),
        event matches ChannelEvent::Data(text) ==> tells_text(
            notices,
            "copy-progress"@,
            session_id,
            text,
            "copying"@,
        ),
        event matches ChannelEvent::Extended { data, ext } ==> if ext == 1 {
            tells_text(notices, "copy-progress"@, session_id, data, "error"@)
        } else {
            notices.len() == 0
        },
        event matches ChannelEvent::ExitStatus(status) ==> {
            let message = (if is_dir {
                "cp -r failed (exit "@
            } else {
                "cp failed (exit "@
            }) + decimal(status as nat) + "): "@ + trimmed(stderr);
            &&& status == 0 ==> notices.len() == 0
            &&& status != 0 ==> (flow matches Flow::Done(Err(error)) && error@ == message)
            &&& status != 0 ==> notices.len() == 1 && tells_line(
                notices[0],
                "copy-progress"@,
                session_id,
                message,
                "error"@,
            )
        },
        event is Eof || event is Close || event is Other || event is Deadline ==> notices.len()
            == 0,
{
    match event {
        ChannelEvent::Data(text) => {
            lemma_tells_text("copy-progress"@, session_id, text, "copying"@);
        },
        ChannelEvent::Extended { data, ext } => {
            lemma_tells_text("copy-progress"@, session_id, data, "error"@);
        },
        ChannelEvent::ExitStatus(status) => {
            lemma_tells_line(
                "copy-progress"@,
                session_id,
                copy_failure(is_dir, status, stderr),
                "error"@,
            );
        },
        _ => {},
    }
}

/// Packing tells each line that it writes to either stream, and waits until its channel is gone,
/// or until it knows its status and nothing more will be written or the time is over. What is
/// reported where it fails is all that was written, or that the time is over.
pub proof fn law_packing_tells_what_it_does(
    session_id: Seq<char>,
    state: Archiving,
    event: ChannelEvent<Seq<char>>,
    flow: Flow<Archiving>,
    notices: Seq<NoticeView>,
)
    requires
        compress_step(session_id, state, event, flow, notices),
    ensures
        flow is Done <==> event is Close || event is Ended || event is Deadline || (event is Eof
            && state.status is Some),
        event matches ChannelEvent::Data(text) ==> tells_text(
            notices,
            "archive-progress"@,
            session_id,
            text,
            "compressing"@,
        ),
        event matches ChannelEvent::Extended { data, ext } ==> if ext == 1 {
            tells_text(notices, "archive-progress"@, session_id, data, "compressing"@)
        } else {
            notices.len() == 0
        },
        flow is Wait && !(event is Data) && !(event is Extended) ==> notices.len() == 0,
        event matches ChannelEvent::ExitStatus(status) ==> (flow matches Flow::Wait(next)
            && next.status == Some(status) && next.written@ == state.written@),
        flow matches Flow::Done(Err(error)) ==> error@ == if event is Deadline
            && state.status is None {
            "Compress operation timed out"@
        } else {
            "Compression failed: "@ + trimmed(state.written@)
        },
        flow matches Flow::Done(Ok(())) ==> notices.len() == 1 && tells_line(
            notices[0],
            "archive-progress"@,
            session_id,
            "Compression completed."@,
            "done"@,
        ),
{
    if written(event) is Some {
        lemma_tells_text("archive-progress"@, session_id, written(event)->0, "compressing"@);
    }
    lemma_tells_line("archive-progress"@, session_id, "Compression completed."@, "done"@);
}

/// Unpacking tells each line that it writes to either stream, and waits until its channel is gone
/// or the time is over, or until it knows its status and nothing more will be written. What is
/// reported where it fails is all that was written, or that the time is over.
pub proof fn law_unpacking_tells_what_it_does(
    session_id: Seq<char>,
    state: Archiving,
    event: ChannelEvent<Seq<char>>,
    flow: Flow<Archiving>,
    notices: Seq<NoticeView>,
)
    requires
        extract_step(session_id, state, event, flow, notices),
    ensures
        flow is Done <==> event is Close || event is Ended || event is Deadline || (event is Eof
            && state.status is Some),
        event matches ChannelEvent::Data(text) ==> tells_text(
            notices,
            "archive-progress"@,
            session_id,
            text,
            "extracting"@,
        ),
        event matches ChannelEvent::Extended { data, ext } ==> if ext == 1 {
            tells_text(notices, "archive-progress"@, session_id, data, "extracting"@)
        } else {
            notices.len() == 0
        },
        flow is Wait && !(event is Data) && !(event is Extended) ==> notices.len() == 0,
        event matches ChannelEvent::ExitStatus(status) ==> (flow matches Flow::Wait(next)
            && next.status == Some(status) && next.written@ == state.written@),
        flow matches Flow::Done(Err(error)) ==> error@ == if event is Deadline {
            "Extract operation timed out"@
        } else {
            "Extraction failed: "@ + trimmed(state.written@)
        },
        flow matches Flow::Done(Ok(())) ==> notices.len() == 1 && tells_line(
            notices[0],
            "archive-progress"@,
            session_id,
            "Extraction completed."@,
            "done"@,
        ),
{
    if written(event) is Some {
        lemma_tells_text("archive-progress"@, session_id, written(event)->0, "extracting"@);
    }
    lemma_tells_line("archive-progress"@, session_id, "Extraction completed."@, "done"@);
}

/// What is told of a download names its session: how far it has come while it runs, that it came
/// to 100 percent when it is done, and otherwise the error.
pub proof fn law_download_notices_tell_the_progress(
    session_id: Seq<char>,
    progress: JsonView,
    error: Seq<char>,
)
    ensures
        ({
            let running = download_notice(session_id, progress);
            let done = download_done(session_id);
            let failed = download_failed(session_id, error);
            &&& running.topic == "download-progress"@
            &&& running.payload.text_field("sessionId"@) == Some(session_id)
            &&& running.payload.field("progress"@) == Some(progress)
            &&& running.payload.text_field("status"@) == Some("downloading"@)
            &&& done.topic == "download-progress"@
            &&& done.payload.text_field("sessionId"@) == Some(session_id)
            &&& done.payload.field("progress"@) == Some(JsonView::Int(100))
            &&& done.payload.text_field("status"@) == Some("done"@)
            &&& failed.topic == "download-progress"@
            &&& failed.payload.text_field("sessionId"@) == Some(session_id)
            &&& failed.payload.field("progress"@) == Some(JsonView::Int(0))
            &&& failed.payload.text_field("status"@) == Some("error"@)
            &&& failed.payload.text_field("error"@) == Some(error)
        }),
{
    lemma_notice_names();
}

/// A download goes on until its channel is gone or the time is over, or until it knows its status
/// and nothing more will be written. While it goes on, the percentages that it writes to its error
/// output are told, and nothing else.
pub proof fn law_download_tells_its_percentages(
    session_id: Seq<char>,
    state: Downloading,
    event: ChannelEvent<Seq<char>>,
    step: DownloadStep,
)
    requires
        download_step(session_id, state, event, step),
    ensures
        step is Done <==> event is Close || event is Ended || event is Deadline || (event is Eof
            && state.status is Some),
        step matches DownloadStep::Wait { percentages, .. } ==> texts(percentages@) == match event {
            ChannelEvent::Extended { data, ext } => if ext == 1 {
                percentages_of(parts_of(data))
            } else {
                Seq::empty()
            },
            _ => Seq::empty(),
        },
{
}

proof fn lemma_joined(lines: Seq<Seq<char>>)
    ensures
        joined(lines) == lines.flatten_alt(),
    decreases lines.len(),
{
    if lines.len() > 0 {
        lemma_joined(lines.drop_last());
    }
}

/// What a copy keeps of its error output goes behind what it kept before: all that was written,
/// or, where only lines are kept, the lines that are not blank, one behind the other.
pub proof fn law_copy_keeps_its_errors(stderr: Seq<char>, text: Seq<char>)
    ensures
        copy_errors(stderr, text, false) == stderr + text,
        copy_errors(stderr, text, true) == stderr + lines_of(text).filter(
            |line: Seq<char>| !is_blank(line),
        ).flatten_alt(),
{
    law_shown_lines_are_lines(text);
    lemma_joined(shown_lines(text));
}

/// A notice says its topic and what there is to tell, and notices say so one by one, in their
/// order.
pub proof fn law_notices_say_what_they_hold(notice: Notice, notices: Seq<Notice>)
    ensures
        notice@.topic == notice.topic@,
        notice@.payload == notice.payload@,
        notices_view(notices).len() == notices.len(),
        forall|i: int| 0 <= i < notices.len() ==> #[trigger] notices_view(notices)[i]
            == notices[i]@,
{
}

} // verus!
