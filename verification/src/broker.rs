//! What the broker does on a server to answer a call: one action after the other, each
//! chosen from the call and from what came of the actions before it.

use crate::calls::{BrokerCall, CallView, Query};
use crate::commands::{elevated_command, elevated_line};
use crate::json::{outcome_view, Json, JsonView};
use crate::limits::{byte_len, cut_text, law_cut_text_fits, truncate_utf8};
use crate::text::{cat2, cat4, text_eq};
use vstd::prelude::*;

verus! {

/// What is done on a server. The texts are of type `T`.
#[derive(Debug, PartialEq, Eq)]
pub enum ServerAction<T> {
    /// Read the system information.
    SystemInfo,
    /// Read the states of the known services.
    ServiceStatuses,
    /// Read the details of one service.
    ServiceInfo { service: T },
    /// Test the configuration of the web server.
    TestNginxConfig,
    /// List the configuration files of the virtual hosts.
    ListVhosts,
    /// Read the state of the container runtime.
    ContainerRuntime,
    /// List the containers, to be answered as they are.
    ListContainers,
    /// List the containers, to find one of them.
    FindContainers,
    /// List the images.
    ListImages,
    /// List the sites, to be answered as they are.
    ListSites,
    /// List the sites, to find one of them.
    FindSites,
    /// Read the last lines that a container logged.
    ContainerLogs { id: T, lines: usize },
    /// Start, stop or restart a container.
    ContainerAction { id: T, action: T },
    /// Read a file.
    ReadFile { path: T },
    /// Write a file.
    WriteFile { path: T, content: T },
    /// Run a command.
    Execute { command: T, timeout_secs: u64 },
    /// Enable or disable a site.
    ToggleSite { config_path: T, domain: T, enabled: bool },
}

impl View for ServerAction<String> {
    type V = ServerAction<Seq<char>>;

    open spec fn view(&self) -> ServerAction<Seq<char>> {
        match *self {
            ServerAction::SystemInfo => ServerAction::SystemInfo,
            ServerAction::ServiceStatuses => ServerAction::ServiceStatuses,
            ServerAction::ServiceInfo { service } => ServerAction::ServiceInfo {
                service: service@,
            },
            ServerAction::TestNginxConfig => ServerAction::TestNginxConfig,
            ServerAction::ListVhosts => ServerAction::ListVhosts,
            ServerAction::ContainerRuntime => ServerAction::ContainerRuntime,
            ServerAction::ListContainers => ServerAction::ListContainers,
            ServerAction::FindContainers => ServerAction::FindContainers,
            ServerAction::ListImages => ServerAction::ListImages,
            ServerAction::ListSites => ServerAction::ListSites,
            ServerAction::FindSites => ServerAction::FindSites,
            ServerAction::ContainerLogs { id, lines } => ServerAction::ContainerLogs {
                id: id@,
                lines,
            },
            ServerAction::ContainerAction { id, action } => ServerAction::ContainerAction {
                id: id@,
                action: action@,
            },
            ServerAction::ReadFile { path } => ServerAction::ReadFile { path: path@ },
            ServerAction::WriteFile { path, content } => ServerAction::WriteFile {
                path: path@,
                content: content@,
            },
            ServerAction::Execute { command, timeout_secs } => ServerAction::Execute {
                command: command@,
                timeout_secs,
            },
            ServerAction::ToggleSite { config_path, domain, enabled } => ServerAction::ToggleSite {
                config_path: config_path@,
                domain: domain@,
                enabled,
            },
        }
    }
}

/// A container of a server.
#[derive(Debug, PartialEq, Eq)]
pub struct Container<T> {
    pub id: T,
    pub name: T,
    pub state: T,
    pub status: T,
}

/// A site of a server.
#[derive(Debug, PartialEq, Eq)]
pub struct Site<T> {
    pub domain: T,
    pub config_path: T,
    pub enabled: bool,
}

impl View for Container<String> {
    type V = Container<Seq<char>>;

    open spec fn view(&self) -> Container<Seq<char>> {
        Container { id: self.id@, name: self.name@, state: self.state@, status: self.status@ }
    }
}

impl View for Site<String> {
    type V = Site<Seq<char>>;

    open spec fn view(&self) -> Site<Seq<char>> {
        Site { domain: self.domain@, config_path: self.config_path@, enabled: self.enabled }
    }
}

/// What came of an action.
#[derive(Debug, PartialEq)]
pub enum ServerEvent {
    /// The action failed.
    Failed(String),
    /// What was read or listed.
    Answer(Json),
    /// The outcome of a configuration test, with its output.
    Tested { valid: bool, output: String },
    /// The containers.
    Containers(Vec<Container<String>>),
    /// The sites.
    Sites(Vec<Site<String>>),
    /// A text: the log of a container, the content of a file, or what a change reported.
    Text(String),
    /// A file was written.
    Written,
    /// A command ended.
    Finished { stdout: String, stderr: String, exit_code: i32 },
}

/// What an event says.
pub enum EventView {
    Failed(Seq<char>),
    Answer(JsonView),
    Tested { valid: bool, output: Seq<char> },
    Containers(Seq<Container<Seq<char>>>),
    Sites(Seq<Site<Seq<char>>>),
    Text(Seq<char>),
    Written,
    Finished { stdout: Seq<char>, stderr: Seq<char>, exit_code: int },
}

/// The containers as what they say.
pub open spec fn containers_view(containers: Seq<Container<String>>) -> Seq<Container<Seq<char>>> {
    containers.map_values(|container: Container<String>| container@)
}

/// The sites as what they say.
pub open spec fn sites_view(sites: Seq<Site<String>>) -> Seq<Site<Seq<char>>> {
    sites.map_values(|site: Site<String>| site@)
}

impl View for ServerEvent {
    type V = EventView;

    open spec fn view(&self) -> EventView {
        match *self {
            ServerEvent::Failed(message) => EventView::Failed(message@),
            ServerEvent::Answer(answer) => EventView::Answer(answer@),
            ServerEvent::Tested { valid, output } => EventView::Tested { valid, output: output@ },
            ServerEvent::Containers(containers) => EventView::Containers(
                containers_view(containers@),
            ),
            ServerEvent::Sites(sites) => EventView::Sites(sites_view(sites@)),
            ServerEvent::Text(text) => EventView::Text(text@),
            ServerEvent::Written => EventView::Written,
            ServerEvent::Finished { stdout, stderr, exit_code } => EventView::Finished {
                stdout: stdout@,
                stderr: stderr@,
                exit_code: exit_code as int,
            },
        }
    }
}

/// How far a call has come: the action that is under way, and what is kept for the answer.
/// The texts are of type `T`, the values of type `J`.
#[derive(Debug, PartialEq)]
pub enum Progress<T, J> {
    /// The system information, before the services.
    System,
    /// The services, after the system information.
    SystemServices { system: J },
    /// The web server, before its configuration test.
    Nginx,
    /// The configuration test.
    NginxTest { service: J },
    /// The virtual hosts, after the test.
    NginxVhosts { service: J, valid: bool, output: T },
    /// An answer that is passed on.
    Plain,
    /// The containers, to find the one whose log is wanted.
    LogContainers { requested: T, lines: usize },
    /// The log of a container.
    Log { id: T, name: T, lines: usize },
    /// The content of a file.
    File { path: T, max_bytes: usize },
    /// The writing of a file.
    Writing { path: T, bytes: usize },
    /// A command.
    Command,
    /// The containers, to find the one to act on.
    ActionContainers { requested: T, action: T },
    /// The action on a container.
    Acting { id: T, name: T, action: T, before: J },
    /// The containers after the action.
    Acted { id: T, name: T, action: T, before: J, message: T },
    /// The sites, to find the one to change.
    SiteList { domain: T, enabled: bool },
    /// The change of a site.
    Toggling { domain: T, enabled: bool },
}

impl View for Progress<String, Json> {
    type V = Progress<Seq<char>, JsonView>;

    open spec fn view(&self) -> Progress<Seq<char>, JsonView> {
        match *self {
            Progress::System => Progress::System,
            Progress::SystemServices { system } => Progress::SystemServices { system: system@ },
            Progress::Nginx => Progress::Nginx,
            Progress::NginxTest { service } => Progress::NginxTest { service: service@ },
            Progress::NginxVhosts { service, valid, output } => Progress::NginxVhosts {
                service: service@,
                valid,
                output: output@,
            },
            Progress::Plain => Progress::Plain,
            Progress::LogContainers { requested, lines } => Progress::LogContainers {
                requested: requested@,
                lines,
            },
            Progress::Log { id, name, lines } => Progress::Log { id: id@, name: name@, lines },
            Progress::File { path, max_bytes } => Progress::File { path: path@, max_bytes },
            Progress::Writing { path, bytes } => Progress::Writing { path: path@, bytes },
            Progress::Command => Progress::Command,
            Progress::ActionContainers { requested, action } => Progress::ActionContainers {
                requested: requested@,
                action: action@,
            },
            Progress::Acting { id, name, action, before } => Progress::Acting {
                id: id@,
                name: name@,
                action: action@,
                before: before@,
            },
            Progress::Acted { id, name, action, before, message } => Progress::Acted {
                id: id@,
                name: name@,
                action: action@,
                before: before@,
                message: message@,
            },
            Progress::SiteList { domain, enabled } => Progress::SiteList {
                domain: domain@,
                enabled,
            },
            Progress::Toggling { domain, enabled } => Progress::Toggling {
                domain: domain@,
                enabled,
            },
        }
    }
}

/// What comes next: an action, or the outcome of the call.
#[derive(Debug, PartialEq)]
pub enum Step {
    Act { progress: Progress<String, Json>, action: ServerAction<String> },
    Done(Result<Json, String>),
}

/// What a step says.
pub enum StepView {
    Act { progress: Progress<Seq<char>, JsonView>, action: ServerAction<Seq<char>> },
    Done(Result<JsonView, Seq<char>>),
}

impl View for Step {
    type V = StepView;

    open spec fn view(&self) -> StepView {
        match *self {
            Step::Act { progress, action } => StepView::Act {
                progress: progress@,
                action: action@,
            },
            Step::Done(outcome) => StepView::Done(outcome_view(outcome)),
        }
    }
}

/// The progress and the action with which a call on a server begins; the list of servers
/// needs none.
pub open spec fn first_step(call: CallView) -> Option<
    (Progress<Seq<char>, JsonView>, ServerAction<Seq<char>>),
> {
    match call {
        CallView::ListServers => None,
        CallView::Ask { query, .. } => Some(
            match query {
                Query::ServerStatus => (Progress::System, ServerAction::SystemInfo),
                Query::Services => (Progress::Plain, ServerAction::ServiceStatuses),
                Query::NginxStatus => (
                    Progress::Nginx,
                    ServerAction::ServiceInfo { service: "nginx"@ },
                ),
                Query::ContainerRuntime => (Progress::Plain, ServerAction::ContainerRuntime),
                Query::Containers => (Progress::Plain, ServerAction::ListContainers),
                Query::Images => (Progress::Plain, ServerAction::ListImages),
                Query::Sites => (Progress::Plain, ServerAction::ListSites),
            },
        ),
        CallView::ContainerLogs { container, lines, .. } => Some(
            (
                Progress::LogContainers { requested: container, lines: lines as usize },
                ServerAction::FindContainers,
            ),
        ),
        CallView::ReadFile { path, max_bytes, .. } => Some(
            (
                Progress::File { path, max_bytes: max_bytes as usize },
                ServerAction::ReadFile { path },
            ),
        ),
        CallView::WriteFile { path, content, .. } => Some(
            (
                Progress::Writing { path, bytes: byte_len(content) as usize },
                ServerAction::WriteFile { path, content },
            ),
        ),
        CallView::RunCommand { command, timeout_secs, .. } => Some(
            (
                Progress::Command,
                ServerAction::Execute { command, timeout_secs: timeout_secs as u64 },
            ),
        ),
        CallView::RunPrivileged { command, timeout_secs, .. } => Some(
            (
                Progress::Command,
                ServerAction::Execute {
                    command: elevated_line(command),
                    timeout_secs: timeout_secs as u64,
                },
            ),
        ),
        CallView::ContainerAction { container, action, .. } => Some(
            (
                Progress::ActionContainers { requested: container, action },
                ServerAction::FindContainers,
            ),
        ),
        CallView::SetSiteEnabled { domain, enabled, .. } => Some(
            (Progress::SiteList { domain, enabled }, ServerAction::FindSites),
        ),
    }
}

/// A first step as what it says.
pub open spec fn begin_view(
    step: Option<(Progress<String, Json>, ServerAction<String>)>,
) -> Option<(Progress<Seq<char>, JsonView>, ServerAction<Seq<char>>)> {
    match step {
        Some((progress, action)) => Some((progress@, action@)),
        None => None,
    }
}

/// The progress and the action with which a call on a server begins.
pub fn begin(call: BrokerCall) -> (step: Option<(Progress<String, Json>, ServerAction<String>)>)
    ensures
        begin_view(step) == first_step(call@),
{
    match call {
        BrokerCall::ListServers => None,
        BrokerCall::Ask { query, .. } => Some(
            match query {
                Query::ServerStatus => (Progress::System, ServerAction::SystemInfo),
                Query::Services => (Progress::Plain, ServerAction::ServiceStatuses),
                Query::NginxStatus => (
                    Progress::Nginx,
                    ServerAction::ServiceInfo { service: "nginx".to_owned() },
                ),
                Query::ContainerRuntime => (Progress::Plain, ServerAction::ContainerRuntime),
                Query::Containers => (Progress::Plain, ServerAction::ListContainers),
                Query::Images => (Progress::Plain, ServerAction::ListImages),
                Query::Sites => (Progress::Plain, ServerAction::ListSites),
            },
        ),
        BrokerCall::ContainerLogs { container, lines, .. } => Some(
            (Progress::LogContainers { requested: container, lines }, ServerAction::FindContainers),
        ),
        BrokerCall::ReadFile { path, max_bytes, .. } => Some(
            (Progress::File { path: path.clone(), max_bytes }, ServerAction::ReadFile { path }),
        ),
        BrokerCall::WriteFile { path, content, .. } => {
            let bytes: usize = content.as_str().as_bytes().len();
            Some(
                (
                    Progress::Writing { path: path.clone(), bytes },
                    ServerAction::WriteFile { path, content },
                ),
            )
        },
        BrokerCall::RunCommand { command, timeout_secs, .. } => Some(
            (Progress::Command, ServerAction::Execute { command, timeout_secs }),
        ),
        BrokerCall::RunPrivileged { command, timeout_secs, .. } => Some(
            (
                Progress::Command,
                ServerAction::Execute {
                    command: elevated_command(command.as_str()),
                    timeout_secs,
                },
            ),
        ),
        BrokerCall::ContainerAction { container, action, .. } => Some(
            (
                Progress::ActionContainers { requested: container, action },
                ServerAction::FindContainers,
            ),
        ),
        BrokerCall::SetSiteEnabled { domain, enabled, .. } => Some(
            (Progress::SiteList { domain, enabled }, ServerAction::FindSites),
        ),
    }
}

/// Whether an event can come of the action that is under way. Every action can fail.
pub open spec fn answers(
    progress: Progress<Seq<char>, JsonView>,
    event: EventView,
) -> bool {
    ||| event is Failed
    ||| match progress {
        Progress::System => event is Answer,
        Progress::SystemServices { .. } => event is Answer,
        Progress::Nginx => event is Answer,
        Progress::NginxTest { .. } => event is Tested,
        Progress::NginxVhosts { .. } => event is Answer,
        Progress::Plain => event is Answer,
        Progress::LogContainers { .. } => event is Containers,
        Progress::Log { .. } => event is Text,
        Progress::File { .. } => event is Text,
        Progress::Writing { .. } => event is Written,
        Progress::Command => event is Finished,
        Progress::ActionContainers { .. } => event is Containers,
        Progress::Acting { .. } => event is Text,
        Progress::Acted { .. } => event is Containers,
        Progress::SiteList { .. } => event is Sites,
        Progress::Toggling { .. } => event is Text,
    }
}

/// Tells whether an event can come of the action that is under way.
pub fn can_answer(progress: &Progress<String, Json>, event: &ServerEvent) -> (fits: bool)
    ensures
        fits == answers(progress@, event@),
{
    match (progress, event) {
        (_, ServerEvent::Failed(_)) => true,
        (Progress::System, ServerEvent::Answer(_)) => true,
        (Progress::SystemServices { .. }, ServerEvent::Answer(_)) => true,
        (Progress::Nginx, ServerEvent::Answer(_)) => true,
        (Progress::NginxTest { .. }, ServerEvent::Tested { .. }) => true,
        (Progress::NginxVhosts { .. }, ServerEvent::Answer(_)) => true,
        (Progress::Plain, ServerEvent::Answer(_)) => true,
        (Progress::LogContainers { .. }, ServerEvent::Containers(_)) => true,
        (Progress::Log { .. }, ServerEvent::Text(_)) => true,
        (Progress::File { .. }, ServerEvent::Text(_)) => true,
        (Progress::Writing { .. }, ServerEvent::Written) => true,
        (Progress::Command, ServerEvent::Finished { .. }) => true,
        (Progress::ActionContainers { .. }, ServerEvent::Containers(_)) => true,
        (Progress::Acting { .. }, ServerEvent::Text(_)) => true,
        (Progress::Acted { .. }, ServerEvent::Containers(_)) => true,
        (Progress::SiteList { .. }, ServerEvent::Sites(_)) => true,
        (Progress::Toggling { .. }, ServerEvent::Text(_)) => true,
        (_, _) => false,
    }
}

/// The first container that has a text as its id or its name, by its place in the list.
pub open spec fn container_named(
    containers: Seq<Container<Seq<char>>>,
    requested: Seq<char>,
) -> Option<int>
    decreases containers.len(),
{
    if containers.len() == 0 {
        None
    } else {
        match container_named(containers.drop_last(), requested) {
            Some(index) => Some(index),
            None => if containers.last().id == requested || containers.last().name == requested {
                Some(containers.len() - 1)
            } else {
                None
            },
        }
    }
}

/// The first container with an id, by its place in the list.
pub open spec fn container_with_id(
    containers: Seq<Container<Seq<char>>>,
    id: Seq<char>,
) -> Option<int>
    decreases containers.len(),
{
    if containers.len() == 0 {
        None
    } else {
        match container_with_id(containers.drop_last(), id) {
            Some(index) => Some(index),
            None => if containers.last().id == id {
                Some(containers.len() - 1)
            } else {
                None
            },
        }
    }
}

/// The first site with a domain, by its place in the list.
pub open spec fn site_with_domain(sites: Seq<Site<Seq<char>>>, domain: Seq<char>) -> Option<int>
    decreases sites.len(),
{
    if sites.len() == 0 {
        None
    } else {
        match site_with_domain(sites.drop_last(), domain) {
            Some(index) => Some(index),
            None => if sites.last().domain == domain {
                Some(sites.len() - 1)
            } else {
                None
            },
        }
    }
}

/// A place in a list, or none.
pub open spec fn place(index: Option<usize>) -> Option<int> {
    match index {
        Some(i) => Some(i as int),
        None => None,
    }
}

fn find_container(containers: &Vec<Container<String>>, requested: &str) -> (index: Option<usize>)
    ensures
        place(index) == container_named(containers_view(containers@), requested@),
        index is Some ==> index->0 < containers@.len(),
{
    let ghost all = containers_view(containers@);
    let mut found: Option<usize> = None;
    let mut i: usize = 0;
    while i < containers.len()
        invariant
            i <= containers@.len(),
            all == containers_view(containers@),
            place(found) == container_named(all.take(i as int), requested@),
            found is Some ==> found->0 < i,
        decreases containers@.len() - i,
    {
        assert(all.take(i + 1).drop_last() == all.take(i as int));
        assert(all[i as int] == containers@[i as int]@);
        if found.is_none() && (text_eq(containers[i].id.as_str(), requested) || text_eq(
            containers[i].name.as_str(),
            requested,
        )) {
            found = Some(i);
        }
        i += 1;
    }
    assert(all.take(all.len() as int) == all);
    found
}

fn find_container_id(containers: &Vec<Container<String>>, id: &str) -> (index: Option<usize>)
    ensures
        place(index) == container_with_id(containers_view(containers@), id@),
        index is Some ==> index->0 < containers@.len(),
{
    let ghost all = containers_view(containers@);
    let mut found: Option<usize> = None;
    let mut i: usize = 0;
    while i < containers.len()
        invariant
            i <= containers@.len(),
            all == containers_view(containers@),
            place(found) == container_with_id(all.take(i as int), id@),
            found is Some ==> found->0 < i,
        decreases containers@.len() - i,
    {
        assert(all.take(i + 1).drop_last() == all.take(i as int));
        assert(all[i as int] == containers@[i as int]@);
        if found.is_none() && text_eq(containers[i].id.as_str(), id) {
            found = Some(i);
        }
        i += 1;
    }
    assert(all.take(all.len() as int) == all);
    found
}

fn find_site(sites: &Vec<Site<String>>, domain: &str) -> (index: Option<usize>)
    ensures
        place(index) == site_with_domain(sites_view(sites@), domain@),
        index is Some ==> index->0 < sites@.len(),
{
    let ghost all = sites_view(sites@);
    let mut found: Option<usize> = None;
    let mut i: usize = 0;
    while i < sites.len()
        invariant
            i <= sites@.len(),
            all == sites_view(sites@),
            place(found) == site_with_domain(all.take(i as int), domain@),
            found is Some ==> found->0 < i,
        decreases sites@.len() - i,
    {
        assert(all.take(i + 1).drop_last() == all.take(i as int));
        assert(all[i as int] == sites@[i as int]@);
        if found.is_none() && text_eq(sites[i].domain.as_str(), domain) {
            found = Some(i);
        }
        i += 1;
    }
    assert(all.take(all.len() as int) == all);
    found
}

/// What a command printed and how it ended: each output is cut at 65536 bytes.
pub open spec fn command_answer(stdout: Seq<char>, stderr: Seq<char>, exit_code: int) -> JsonView {
    JsonView::Object(
        map![
            "stdout"@ => JsonView::Text(cut_text(stdout, 65536)),
            "stderr"@ => JsonView::Text(cut_text(stderr, 65536)),
            "exit_code"@ => JsonView::Int(exit_code),
            "truncated"@ => JsonView::Bool(
                byte_len(stdout) > 65536 || byte_len(stderr) > 65536,
            ),
        ],
    )
}

/// What a command printed and how it ended.
pub fn command_result(stdout: String, stderr: String, exit_code: i32) -> (answer: Json)
    ensures
        answer@ == command_answer(stdout@, stderr@, exit_code as int),
{
    let (stdout, stdout_truncated) = truncate_utf8(stdout.as_str(), 65536);
    let (stderr, stderr_truncated) = truncate_utf8(stderr.as_str(), 65536);
    Json::object().with("stdout", Json::Text(stdout)).with("stderr", Json::Text(stderr)).with(
        "exit_code",
        Json::Signed(exit_code as i64),
    ).with("truncated", Json::Bool(stdout_truncated || stderr_truncated))
}

/// The id and the name of a container.
pub open spec fn container_answer(id: Seq<char>, name: Seq<char>) -> JsonView {
    JsonView::Object(map!["id"@ => JsonView::Text(id), "name"@ => JsonView::Text(name)])
}

/// The state and the status of a container.
pub open spec fn state_answer(container: Container<Seq<char>>) -> JsonView {
    JsonView::Object(
        map![
            "state"@ => JsonView::Text(container.state),
            "status"@ => JsonView::Text(container.status),
        ],
    )
}

fn container_value(id: String, name: String) -> (value: Json)
    ensures
        value@ == container_answer(id@, name@),
{
    Json::object().with("id", Json::Text(id)).with("name", Json::Text(name))
}

fn state_value(container: &Container<String>) -> (value: Json)
    ensures
        value@ == state_answer(container@),
{
    Json::object().with("state", Json::text(container.state.as_str())).with(
        "status",
        Json::text(container.status.as_str()),
    )
}

/// The answer to a call for a container that is not there.
pub open spec fn container_missing(requested: Seq<char>) -> Seq<char> {
    "Container not found in LeePanel: "@ + requested
}

/// The answer to a call for a site that is not there.
pub open spec fn site_missing(domain: Seq<char>) -> Seq<char> {
    "Site not found in LeePanel: "@ + domain
}

/// What is reported of a site that already is as it should be.
pub open spec fn site_settled(domain: Seq<char>, enabled: bool) -> Seq<char> {
    "Site "@ + domain + " is already "@ + if enabled {
        "enabled"@
    } else {
        "disabled"@
    }
}

/// The answer to a call that enables or disables a site.
pub open spec fn site_answer(message: Seq<char>, domain: Seq<char>, enabled: bool) -> JsonView {
    JsonView::Object(
        map![
            "message"@ => JsonView::Text(message),
            "domain"@ => JsonView::Text(domain),
            "enabled"@ => JsonView::Bool(enabled),
        ],
    )
}

fn site_value(message: String, domain: String, enabled: bool) -> (value: Json)
    ensures
        value@ == site_answer(message@, domain@, enabled),
{
    Json::object().with("message", Json::Text(message)).with("domain", Json::Text(domain)).with(
        "enabled",
        Json::Bool(enabled),
    )
}

/// What comes next when the containers are listed to find the one whose log is wanted.
pub open spec fn log_step(
    requested: Seq<char>,
    lines: usize,
    containers: Seq<Container<Seq<char>>>,
) -> StepView {
    match container_named(containers, requested) {
        Some(index) => StepView::Act {
            progress: Progress::Log {
                id: containers[index].id,
                name: containers[index].name,
                lines,
            },
            action: ServerAction::ContainerLogs { id: containers[index].id, lines },
        },
        None => StepView::Done(Err(container_missing(requested))),
    }
}

/// What comes next when the containers are listed to find the one to act on.
pub open spec fn act_step(
    requested: Seq<char>,
    action: Seq<char>,
    containers: Seq<Container<Seq<char>>>,
) -> StepView {
    match container_named(containers, requested) {
        Some(index) => StepView::Act {
            progress: Progress::Acting {
                id: containers[index].id,
                name: containers[index].name,
                action,
                before: state_answer(containers[index]),
            },
            action: ServerAction::ContainerAction { id: containers[index].id, action },
        },
        None => StepView::Done(Err(container_missing(requested))),
    }
}

/// What comes next when the sites are listed: nothing is changed on a site that already is as
/// it should be.
pub open spec fn site_step(
    domain: Seq<char>,
    enabled: bool,
    sites: Seq<Site<Seq<char>>>,
) -> StepView {
    match site_with_domain(sites, domain) {
        Some(index) => if sites[index].enabled == enabled {
            StepView::Done(Ok(site_answer(site_settled(domain, enabled), domain, enabled)))
        } else {
            StepView::Act {
                progress: Progress::Toggling { domain, enabled },
                action: ServerAction::ToggleSite {
                    config_path: sites[index].config_path,
                    domain: sites[index].domain,
                    enabled,
                },
            }
        },
        None => StepView::Done(Err(site_missing(domain))),
    }
}

/// The state of a container after an action, or null where it is gone.
pub open spec fn after_answer(id: Seq<char>, containers: Seq<Container<Seq<char>>>) -> JsonView {
    match container_with_id(containers, id) {
        Some(index) => state_answer(containers[index]),
        None => JsonView::Null,
    }
}

/// What comes next after an event: a failed action ends the call with its message.
pub open spec fn next_step(
    progress: Progress<Seq<char>, JsonView>,
    event: EventView,
) -> StepView {
    match event {
        EventView::Failed(message) => StepView::Done(Err(message)),
        EventView::Answer(value) => match progress {
            Progress::System => StepView::Act {
                progress: Progress::SystemServices { system: value },
                action: ServerAction::ServiceStatuses,
            },
            Progress::SystemServices { system } => StepView::Done(
                Ok(JsonView::Object(map!["system"@ => system, "services"@ => value])),
            ),
            Progress::Nginx => StepView::Act {
                progress: Progress::NginxTest { service: value },
                action: ServerAction::TestNginxConfig,
            },
            Progress::NginxVhosts { service, valid, output } => StepView::Done(
                Ok(
                    JsonView::Object(
                        map![
                            "service"@ => service,
                            "config_valid"@ => JsonView::Bool(valid),
                            "config_test_output"@ => JsonView::Text(output),
                            "vhosts"@ => value,
                        ],
                    ),
                ),
            ),
            _ => StepView::Done(Ok(value)),
        },
        EventView::Tested { valid, output } => StepView::Act {
            progress: Progress::NginxVhosts { service: progress->NginxTest_service, valid, output },
            action: ServerAction::ListVhosts,
        },
        EventView::Containers(containers) => match progress {
            Progress::LogContainers { requested, lines } => log_step(requested, lines, containers),
            Progress::ActionContainers { requested, action } => act_step(
                requested,
                action,
                containers,
            ),
            _ => StepView::Done(
                Ok(
                    JsonView::Object(
                        map![
                            "container"@ => container_answer(
                                progress->Acted_id,
                                progress->Acted_name,
                            ),
                            "action"@ => JsonView::Text(progress->Acted_action),
                            "message"@ => JsonView::Text(progress->Acted_message),
                            "before"@ => progress->Acted_before,
                            "after"@ => after_answer(progress->Acted_id, containers),
                        ],
                    ),
                ),
            ),
        },
        EventView::Sites(sites) => site_step(
            progress->SiteList_domain,
            progress->SiteList_enabled,
            sites,
        ),
        EventView::Text(text) => match progress {
            Progress::Log { id, name, lines } => StepView::Done(
                Ok(
                    JsonView::Object(
                        map![
                            "container"@ => container_answer(id, name),
                            "lines"@ => JsonView::Int(lines as int),
                            "logs"@ => JsonView::Text(text),
                        ],
                    ),
                ),
            ),
            Progress::File { path, max_bytes } => StepView::Done(
                Ok(
                    JsonView::Object(
                        map![
                            "path"@ => JsonView::Text(path),
                            "content"@ => JsonView::Text(cut_text(text, max_bytes as nat)),
                            "truncated"@ => JsonView::Bool(byte_len(text) > max_bytes),
                        ],
                    ),
                ),
            ),
            Progress::Acting { id, name, action, before } => StepView::Act {
                progress: Progress::Acted { id, name, action, before, message: text },
                action: ServerAction::FindContainers,
            },
            _ => StepView::Done(
                Ok(site_answer(text, progress->Toggling_domain, progress->Toggling_enabled)),
            ),
        },
        EventView::Written => StepView::Done(
            Ok(
                JsonView::Object(
                    map![
                        "path"@ => JsonView::Text(progress->Writing_path),
                        "bytes_written"@ => JsonView::Int(progress->Writing_bytes as int),
                    ],
                ),
            ),
        ),
        EventView::Finished { stdout, stderr, exit_code } => StepView::Done(
            Ok(command_answer(stdout, stderr, exit_code)),
        ),
    }
}

fn after_containers(
    progress: Progress<String, Json>,
    containers: Vec<Container<String>>,
) -> (step: Step)
    requires
        answers(progress@, EventView::Containers(containers_view(containers@))),
    ensures
        step@ == next_step(progress@, EventView::Containers(containers_view(containers@))),
{
    match progress {
        Progress::LogContainers { requested, lines } => {
            match find_container(&containers, requested.as_str()) {
                Some(i) => {
                    let id = containers[i].id.clone();
                    let name = containers[i].name.clone();
                    Step::Act {
                        progress: Progress::Log { id: id.clone(), name, lines },
                        action: ServerAction::ContainerLogs { id, lines },
                    }
                },
                None => Step::Done(
                    Err(cat2("Container not found in LeePanel: ", requested.as_str())),
                ),
            }
        },
        Progress::ActionContainers { requested, action } => {
            match find_container(&containers, requested.as_str()) {
                Some(i) => {
                    let id = containers[i].id.clone();
                    let name = containers[i].name.clone();
                    let before = state_value(&containers[i]);
                    Step::Act {
                        progress: Progress::Acting {
                            id: id.clone(),
                            name,
                            action: action.clone(),
                            before,
                        },
                        action: ServerAction::ContainerAction { id, action },
                    }
                },
                None => Step::Done(
                    Err(cat2("Container not found in LeePanel: ", requested.as_str())),
                ),
            }
        },
        Progress::Acted { id, name, action, before, message } => {
            let after = match find_container_id(&containers, id.as_str()) {
                Some(i) => state_value(&containers[i]),
                None => Json::Null,
            };
            Step::Done(
                Ok(
                    Json::object().with("container", container_value(id, name)).with(
                        "action",
                        Json::Text(action),
                    ).with("message", Json::Text(message)).with("before", before).with(
                        "after",
                        after,
                    ),
                ),
            )
        },
        _ => Step::Done(Ok(Json::Null)),
    }
}

fn after_sites(domain: String, enabled: bool, sites: Vec<Site<String>>) -> (step: Step)
    ensures
        step@ == site_step(domain@, enabled, sites_view(sites@)),
{
    match find_site(&sites, domain.as_str()) {
        Some(i) => if sites[i].enabled == enabled {
            let state = if enabled {
                "enabled"
            } else {
                "disabled"
            };
            let message = cat4("Site ", domain.as_str(), " is already ", state);
            Step::Done(Ok(site_value(message, domain, enabled)))
        } else {
            Step::Act {
                progress: Progress::Toggling { domain, enabled },
                action: ServerAction::ToggleSite {
                    config_path: sites[i].config_path.clone(),
                    domain: sites[i].domain.clone(),
                    enabled,
                },
            }
        },
        None => Step::Done(Err(cat2("Site not found in LeePanel: ", domain.as_str()))),
    }
}

fn after_answer_value(progress: Progress<String, Json>, value: Json) -> (step: Step)
    requires
        answers(progress@, EventView::Answer(value@)),
    ensures
        step@ == next_step(progress@, EventView::Answer(value@)),
{
    match progress {
        Progress::System => Step::Act {
            progress: Progress::SystemServices { system: value },
            action: ServerAction::ServiceStatuses,
        },
        Progress::SystemServices { system } => Step::Done(
            Ok(Json::object().with("system", system).with("services", value)),
        ),
        Progress::Nginx => Step::Act {
            progress: Progress::NginxTest { service: value },
            action: ServerAction::TestNginxConfig,
        },
        Progress::NginxVhosts { service, valid, output } => Step::Done(
            Ok(
                Json::object().with("service", service).with("config_valid", Json::Bool(valid)).with(
                    "config_test_output",
                    Json::Text(output),
                ).with("vhosts", value),
            ),
        ),
        _ => Step::Done(Ok(value)),
    }
}

fn after_text(progress: Progress<String, Json>, text: String) -> (step: Step)
    requires
        answers(progress@, EventView::Text(text@)),
    ensures
        step@ == next_step(progress@, EventView::Text(text@)),
{
    match progress {
        Progress::Log { id, name, lines } => Step::Done(
            Ok(
                Json::object().with("container", container_value(id, name)).with(
                    "lines",
                    Json::Unsigned(lines as u64),
                ).with("logs", Json::Text(text)),
            ),
        ),
        Progress::File { path, max_bytes } => {
            let (content, truncated) = truncate_utf8(text.as_str(), max_bytes);
            Step::Done(
                Ok(
                    Json::object().with("path", Json::Text(path)).with(
                        "content",
                        Json::Text(content),
                    ).with("truncated", Json::Bool(truncated)),
                ),
            )
        },
        Progress::Acting { id, name, action, before } => Step::Act {
            progress: Progress::Acted { id, name, action, before, message: text },
            action: ServerAction::FindContainers,
        },
        Progress::Toggling { domain, enabled } => Step::Done(
            Ok(site_value(text, domain, enabled)),
        ),
        _ => Step::Done(Ok(Json::Null)),
    }
}

/// Goes on with a call after an event.
pub fn advance(progress: Progress<String, Json>, event: ServerEvent) -> (step: Step)
    requires
        answers(progress@, event@),
    ensures
        step@ == next_step(progress@, event@),
{
    match event {
        ServerEvent::Failed(message) => Step::Done(Err(message)),
        ServerEvent::Answer(value) => after_answer_value(progress, value),
        ServerEvent::Tested { valid, output } => match progress {
            Progress::NginxTest { service } => Step::Act {
                progress: Progress::NginxVhosts { service, valid, output },
                action: ServerAction::ListVhosts,
            },
            _ => Step::Done(Ok(Json::Null)),
        },
        ServerEvent::Containers(containers) => after_containers(progress, containers),
        ServerEvent::Sites(sites) => match progress {
            Progress::SiteList { domain, enabled } => after_sites(domain, enabled, sites),
            _ => Step::Done(Ok(Json::Null)),
        },
        ServerEvent::Text(text) => after_text(progress, text),
        ServerEvent::Written => match progress {
            Progress::Writing { path, bytes } => Step::Done(
                Ok(
                    Json::object().with("path", Json::Text(path)).with(
                        "bytes_written",
                        Json::Unsigned(bytes as u64),
                    ),
                ),
            ),
            _ => Step::Done(Ok(Json::Null)),
        },
        ServerEvent::Finished { stdout, stderr, exit_code } => Step::Done(
            Ok(command_result(stdout, stderr, exit_code)),
        ),
    }
}

/// What a command printed is answered in at most 65536 bytes for each output, and a file in at
/// most as many bytes as were asked for; whether anything is missing is told.
pub proof fn law_answers_are_bounded(
    stdout: Seq<char>,
    stderr: Seq<char>,
    exit_code: int,
    path: Seq<char>,
    max_bytes: usize,
    content: Seq<char>,
)
    ensures
        command_answer(stdout, stderr, exit_code).text_field("stdout"@) matches Some(text)
            && byte_len(text) <= 65536 && text.is_prefix_of(stdout),
        command_answer(stdout, stderr, exit_code).text_field("stderr"@) matches Some(text)
            && byte_len(text) <= 65536 && text.is_prefix_of(stderr),
        command_answer(stdout, stderr, exit_code).field("truncated"@) == Some(
            JsonView::Bool(
                cut_text(stdout, 65536) != stdout || cut_text(stderr, 65536) != stderr,
            ),
        ),
        next_step(Progress::File { path, max_bytes }, EventView::Text(content)) matches
            StepView::Done(Ok(answer)) && {
            &&& answer.text_field("content"@) matches Some(text) && byte_len(text) <= max_bytes
                && text.is_prefix_of(content)
            &&& answer.field("truncated"@) == Some(
                JsonView::Bool(cut_text(content, max_bytes as nat) != content),
            )
        },
{
    law_cut_text_fits(stdout, 65536);
    law_cut_text_fits(stderr, 65536);
    law_cut_text_fits(content, max_bytes as nat);
    reveal_strlit("stdout");
    reveal_strlit("stderr");
    reveal_strlit("exit_code");
    reveal_strlit("truncated");
    reveal_strlit("path");
    reveal_strlit("content");
    assert("stdout"@.len() == 6 && "stderr"@.len() == 6 && "exit_code"@.len() == 9);
    assert("truncated"@.len() == 9 && "path"@.len() == 4 && "content"@.len() == 7);
    assert("stdout"@[3] == 'o' && "stderr"@[3] == 'e');
    assert("exit_code"@[0] == 'e' && "truncated"@[0] == 't');
}

/// An action says what it holds, each thing in its own place.
pub proof fn law_actions_say_what_they_hold(action: ServerAction<String>)
    ensures
        action is SystemInfo <==> action@ is SystemInfo,
        action is ServiceStatuses <==> action@ is ServiceStatuses,
        action is TestNginxConfig <==> action@ is TestNginxConfig,
        action is ListVhosts <==> action@ is ListVhosts,
        action is ContainerRuntime <==> action@ is ContainerRuntime,
        action is ListContainers <==> action@ is ListContainers,
        action is FindContainers <==> action@ is FindContainers,
        action is ListImages <==> action@ is ListImages,
        action is ListSites <==> action@ is ListSites,
        action is FindSites <==> action@ is FindSites,
        action matches ServerAction::ServiceInfo { service } ==> action@ == (
        ServerAction::ServiceInfo { service: service@ }),
        action matches ServerAction::ContainerLogs { id, lines } ==> action@ == (
        ServerAction::ContainerLogs { id: id@, lines }),
        action matches ServerAction::ContainerAction { id, action: done } ==> action@ == (
        ServerAction::ContainerAction { id: id@, action: done@ }),
        action matches ServerAction::ReadFile { path } ==> action@ == (ServerAction::ReadFile {
            path: path@,
        }),
        action matches ServerAction::WriteFile { path, content } ==> action@ == (
        ServerAction::WriteFile { path: path@, content: content@ }),
        action matches ServerAction::Execute { command, timeout_secs } ==> action@ == (
        ServerAction::Execute { command: command@, timeout_secs }),
        action matches ServerAction::ToggleSite { config_path, domain, enabled } ==> action@ == (
        ServerAction::ToggleSite { config_path: config_path@, domain: domain@, enabled }),
{
}

/// A container, a site and an event say what they hold, each thing in its own place, and a list
/// of containers or sites says what each of them holds, in their order.
pub proof fn law_events_say_what_they_hold(
    container: Container<String>,
    site: Site<String>,
    event: ServerEvent,
)
    ensures
        container@.id == container.id@,
        container@.name == container.name@,
        container@.state == container.state@,
        container@.status == container.status@,
        site@.domain == site.domain@,
        site@.config_path == site.config_path@,
        site@.enabled == site.enabled,
        event matches ServerEvent::Failed(message) ==> event@ == EventView::Failed(message@),
        event matches ServerEvent::Answer(value) ==> event@ == EventView::Answer(value@),
        event matches ServerEvent::Tested { valid, output } ==> event@ == (EventView::Tested {
            valid,
            output: output@,
        }),
        event matches ServerEvent::Containers(list) ==> (event@ matches EventView::Containers(said)
            && said.len() == list@.len() && forall|i: int|
            0 <= i < said.len() ==> #[trigger] said[i] == list@[i]@),
        event matches ServerEvent::Sites(list) ==> (event@ matches EventView::Sites(said)
            && said.len() == list@.len() && forall|i: int|
            0 <= i < said.len() ==> #[trigger] said[i] == list@[i]@),
        event matches ServerEvent::Text(text) ==> event@ == EventView::Text(text@),
        event is Written ==> event@ is Written,
        event matches ServerEvent::Finished { stdout, stderr, exit_code } ==> event@ == (
        EventView::Finished { stdout: stdout@, stderr: stderr@, exit_code: exit_code as int }),
{
}

/// How far a call has come says what is kept for it, each thing in its own place, and a step says
/// what it does next, or what came of the call.
pub proof fn law_steps_say_what_they_hold(progress: Progress<String, Json>, step: Step)
    ensures
        progress is System <==> progress@ is System,
        progress is Nginx <==> progress@ is Nginx,
        progress is Plain <==> progress@ is Plain,
        progress is Command <==> progress@ is Command,
        progress matches Progress::SystemServices { system } ==> progress@ == (
        Progress::<Seq<char>, JsonView>::SystemServices { system: system@ }),
        progress matches Progress::NginxTest { service } ==> progress@ == (
        Progress::<Seq<char>, JsonView>::NginxTest {
            service: service@,
        }),
        progress matches Progress::NginxVhosts { service, valid, output } ==> progress@ == (
        Progress::<Seq<char>, JsonView>::NginxVhosts { service: service@, valid, output: output@ }),
        progress matches Progress::LogContainers { requested, lines } ==> progress@ == (
        Progress::<Seq<char>, JsonView>::LogContainers { requested: requested@, lines }),
        progress matches Progress::Log { id, name, lines } ==> progress@ == (
        Progress::<Seq<char>, JsonView>::Log {
            id: id@,
            name: name@,
            lines,
        }),
        progress matches Progress::File { path, max_bytes } ==> progress@ == (
        Progress::<Seq<char>, JsonView>::File {
            path: path@,
            max_bytes,
        }),
        progress matches Progress::Writing { path, bytes } ==> progress@ == (
        Progress::<Seq<char>, JsonView>::Writing {
            path: path@,
            bytes,
        }),
        progress matches Progress::ActionContainers { requested, action } ==> progress@ == (
        Progress::<Seq<char>, JsonView>::ActionContainers {
            requested: requested@,
            action: action@,
        }),
        progress matches Progress::Acting { id, name, action, before } ==> progress@ == (
        Progress::<Seq<char>, JsonView>::Acting {
            id: id@,
            name: name@,
            action: action@,
            before: before@,
        }),
        progress matches Progress::Acted { id, name, action, before, message } ==> progress@ == (
        Progress::<Seq<char>, JsonView>::Acted {
            id: id@,
            name: name@,
            action: action@,
            before: before@,
            message: message@,
        }),
        progress matches Progress::SiteList { domain, enabled } ==> progress@ == (
        Progress::<Seq<char>, JsonView>::SiteList { domain: domain@, enabled }),
        progress matches Progress::Toggling { domain, enabled } ==> progress@ == (
        Progress::<Seq<char>, JsonView>::Toggling { domain: domain@, enabled }),
        step matches Step::Act { progress: kept, action } ==> step@ == (StepView::Act {
            progress: kept@,
            action: action@,
        }),
        step matches Step::Done(Ok(value)) ==> step@ == StepView::Done(Ok(value@)),
        step matches Step::Done(Err(message)) ==> step@ == StepView::Done(Err(message@)),
{
}

/// A first step says its progress and its action.
pub proof fn law_first_step_says_what_it_holds(
    progress: Progress<String, Json>,
    action: ServerAction<String>,
)
    ensures
        begin_view(Some((progress, action))) == Some((progress@, action@)),
        begin_view(None) is None,
{
}

} // verus!
