//! What a call does on its server and what it answers, told from the call and from what came of
//! its actions alone.

use crate::broker::{
    answers, container_named, container_with_id, first_step, next_step, site_with_domain,
    Container, EventView, Progress, ServerAction, Site, StepView,
};
use crate::calls::{CallView, Query};
use crate::commands::elevated_line;
use crate::dispatch::{actions_from, actions_of};
use crate::json::JsonView;
use crate::limits::{byte_len, law_cut_text_fits, longest_fitting};
use vstd::prelude::*;

verus! {

/// The outcome of a call that has come this far, where the events lead to one.
pub open spec fn outcome_from(
    progress: Progress<Seq<char>, JsonView>,
    events: Seq<EventView>,
) -> Option<Result<JsonView, Seq<char>>>
    decreases events.len(),
{
    if events.len() == 0 || !answers(progress, events[0]) {
        None
    } else {
        match next_step(progress, events[0]) {
            StepView::Act { progress: next, .. } => outcome_from(next, events.drop_first()),
            StepView::Done(outcome) => Some(outcome),
        }
    }
}

/// The outcome of a call, where the events lead to one.
pub open spec fn outcome_of(call: CallView, events: Seq<EventView>) -> Option<
    Result<JsonView, Seq<char>>,
> {
    match first_step(call) {
        Some((progress, _)) => outcome_from(progress, events),
        None => None,
    }
}

/// Whether a container has a text as its id or its name.
pub open spec fn is_called(container: Container<Seq<char>>, requested: Seq<char>) -> bool {
    container.id == requested || container.name == requested
}

/// Whether a place in a list of containers is that of the first one with a text as its id or
/// its name.
pub open spec fn is_first_called(
    containers: Seq<Container<Seq<char>>>,
    requested: Seq<char>,
    index: int,
) -> bool {
    &&& 0 <= index < containers.len()
    &&& is_called(containers[index], requested)
    &&& forall|j: int| 0 <= j < index ==> !is_called(#[trigger] containers[j], requested)
}

/// Whether a place in a list of containers is that of the first one with an id.
pub open spec fn is_first_with_id(
    containers: Seq<Container<Seq<char>>>,
    id: Seq<char>,
    index: int,
) -> bool {
    &&& 0 <= index < containers.len()
    &&& containers[index].id == id
    &&& forall|j: int| 0 <= j < index ==> (#[trigger] containers[j]).id != id
}

/// Whether a place in a list of sites is that of the first one with a domain.
pub open spec fn is_first_site(sites: Seq<Site<Seq<char>>>, domain: Seq<char>, index: int) -> bool {
    &&& 0 <= index < sites.len()
    &&& sites[index].domain == domain
    &&& forall|j: int| 0 <= j < index ==> (#[trigger] sites[j]).domain != domain
}

proof fn lemma_first_called(containers: Seq<Container<Seq<char>>>, requested: Seq<char>)
    ensures
        match container_named(containers, requested) {
            Some(index) => is_first_called(containers, requested, index),
            None => forall|j: int|
                0 <= j < containers.len() ==> !is_called(#[trigger] containers[j], requested),
        },
    decreases containers.len(),
{
    if containers.len() > 0 {
        let front = containers.drop_last();
        lemma_first_called(front, requested);
        assert forall|j: int| 0 <= j < front.len() implies front[j] == #[trigger] containers[j] by {
        }
        assert(containers.last() == containers[containers.len() - 1]);
    }
}

proof fn lemma_first_with_id(containers: Seq<Container<Seq<char>>>, id: Seq<char>)
    ensures
        match container_with_id(containers, id) {
            Some(index) => is_first_with_id(containers, id, index),
            None => forall|j: int| 0 <= j < containers.len() ==> (#[trigger] containers[j]).id != id,
        },
    decreases containers.len(),
{
    if containers.len() > 0 {
        let front = containers.drop_last();
        lemma_first_with_id(front, id);
        assert forall|j: int| 0 <= j < front.len() implies front[j] == #[trigger] containers[j] by {
        }
        assert(containers.last() == containers[containers.len() - 1]);
    }
}

proof fn lemma_first_site(sites: Seq<Site<Seq<char>>>, domain: Seq<char>)
    ensures
        match site_with_domain(sites, domain) {
            Some(index) => is_first_site(sites, domain, index),
            None => forall|j: int| 0 <= j < sites.len() ==> (#[trigger] sites[j]).domain != domain,
        },
    decreases sites.len(),
{
    if sites.len() > 0 {
        let front = sites.drop_last();
        lemma_first_site(front, domain);
        assert forall|j: int| 0 <= j < front.len() implies front[j] == #[trigger] sites[j] by {
        }
        assert(sites.last() == sites[sites.len() - 1]);
    }
}

/// The words under which answers keep what they tell are all different.
proof fn lemma_answer_names()
    ensures
        "system"@ != "services"@,
        "service"@ != "config_valid"@,
        "service"@ != "config_test_output"@,
        "service"@ != "vhosts"@,
        "config_valid"@ != "config_test_output"@,
        "config_valid"@ != "vhosts"@,
        "config_test_output"@ != "vhosts"@,
        "id"@ != "name"@,
        "state"@ != "status"@,
        "container"@ != "action"@,
        "container"@ != "message"@,
        "container"@ != "before"@,
        "container"@ != "after"@,
        "container"@ != "lines"@,
        "container"@ != "logs"@,
        "lines"@ != "logs"@,
        "action"@ != "message"@,
        "action"@ != "before"@,
        "action"@ != "after"@,
        "message"@ != "before"@,
        "message"@ != "after"@,
        "before"@ != "after"@,
        "message"@ != "domain"@,
        "message"@ != "enabled"@,
        "domain"@ != "enabled"@,
        "path"@ != "content"@,
        "path"@ != "truncated"@,
        "content"@ != "truncated"@,
        "path"@ != "bytes_written"@,
        "stdout"@ != "stderr"@,
        "stdout"@ != "exit_code"@,
        "stdout"@ != "truncated"@,
        "stderr"@ != "exit_code"@,
        "stderr"@ != "truncated"@,
        "exit_code"@ != "truncated"@,
{
    reveal_strlit("system");
    reveal_strlit("services");
    reveal_strlit("service");
    reveal_strlit("config_valid");
    reveal_strlit("config_test_output");
    reveal_strlit("vhosts");
    reveal_strlit("id");
    reveal_strlit("name");
    reveal_strlit("state");
    reveal_strlit("status");
    reveal_strlit("container");
    reveal_strlit("action");
    reveal_strlit("message");
    reveal_strlit("before");
    reveal_strlit("after");
    reveal_strlit("lines");
    reveal_strlit("logs");
    reveal_strlit("domain");
    reveal_strlit("enabled");
    reveal_strlit("path");
    reveal_strlit("content");
    reveal_strlit("truncated");
    reveal_strlit("bytes_written");
    reveal_strlit("stdout");
    reveal_strlit("stderr");
    reveal_strlit("exit_code");
    assert("system"@.len() == 6 && "services"@.len() == 8 && "service"@.len() == 7);
    assert("config_valid"@.len() == 12 && "config_test_output"@.len() == 18);
    assert("vhosts"@.len() == 6 && "id"@.len() == 2 && "name"@.len() == 4);
    assert("state"@.len() == 5 && "status"@.len() == 6 && "container"@.len() == 9);
    assert("action"@.len() == 6 && "message"@.len() == 7 && "before"@.len() == 6);
    assert("after"@.len() == 5 && "lines"@.len() == 5 && "logs"@.len() == 4);
    assert("domain"@.len() == 6 && "enabled"@.len() == 7 && "path"@.len() == 4);
    assert("content"@.len() == 7 && "truncated"@.len() == 9 && "bytes_written"@.len() == 13);
    assert("stdout"@.len() == 6 && "stderr"@.len() == 6 && "exit_code"@.len() == 9);
    assert("action"@[0] == 'a' && "before"@[0] == 'b');
    assert("message"@[0] == 'm' && "enabled"@[0] == 'e');
    assert("stdout"@[3] == 'o' && "stderr"@[3] == 'e');
    assert("exit_code"@[0] == 'e' && "truncated"@[0] == 't');
}

/// Whether an answer is an object with these names and no others.
pub open spec fn has_names(answer: JsonView, names: Set<Seq<char>>) -> bool {
    answer matches JsonView::Object(entries) && entries.dom() =~= names
}

/// Whether an answer names a container by its id and its name.
pub open spec fn names_container(answer: JsonView, container: Container<Seq<char>>) -> bool {
    &&& has_names(answer, set!["id"@, "name"@])
    &&& answer.text_field("id"@) == Some(container.id)
    &&& answer.text_field("name"@) == Some(container.name)
}

/// Whether an answer tells the state and the status of a container.
pub open spec fn tells_state(answer: JsonView, container: Container<Seq<char>>) -> bool {
    &&& has_names(answer, set!["state"@, "status"@])
    &&& answer.text_field("state"@) == Some(container.state)
    &&& answer.text_field("status"@) == Some(container.status)
}

/// Whether the containers are listed first, and the first one with a text as its id or its name
/// has an id.
pub open spec fn lists_called(events: Seq<EventView>, requested: Seq<char>, id: Seq<char>) -> bool {
    &&& events.len() > 0
    &&& match events[0] {
        EventView::Containers(containers) => exists|index: int| #[trigger]
            is_first_called(containers, requested, index) && containers[index].id == id,
        _ => false,
    }
}

/// Whether the sites are listed first, and the first one with a domain is enabled or not and has
/// its configuration at a path.
pub open spec fn lists_site(
    events: Seq<EventView>,
    domain: Seq<char>,
    enabled: bool,
    config_path: Seq<char>,
) -> bool {
    &&& events.len() > 0
    &&& match events[0] {
        EventView::Sites(sites) => exists|index: int| #[trigger]
            is_first_site(sites, domain, index) && sites[index].enabled == enabled
                && sites[index].config_path == config_path,
        _ => false,
    }
}

/// What a call does on its server is what it was made for, and it carries what the call carries:
/// a file is written only by a call that writes, with its path and its content; a file is read
/// only by a call that reads, with its path; a command runs only for a call that runs one; a
/// container is acted on, or its log read, only for a call that asks for it, and then it is the
/// first listed one with the requested id or name; a site is changed only for a call that asks
/// for it, and then it is the first listed one with the requested domain, which is not yet as
/// requested.
pub proof fn law_actions_are_those_called(call: CallView, events: Seq<EventView>, place: int)
    requires
        0 <= place < actions_of(call, events).len(),
    ensures
        match actions_of(call, events)[place] {
            ServerAction::WriteFile { path, content } => call matches CallView::WriteFile {
                path: called_path,
                content: called_content,
                ..
            } && path == called_path && content == called_content && place == 0,
            ServerAction::ReadFile { path } => call matches CallView::ReadFile {
                path: called_path,
                ..
            } && path == called_path && place == 0,
            ServerAction::Execute { command, timeout_secs } => place == 0 && match call {
                CallView::RunCommand { command: called, timeout_secs: secs, .. } => command
                    == called && timeout_secs == secs as u64,
                CallView::RunPrivileged { command: called, timeout_secs: secs, .. } => command
                    == elevated_line(called) && timeout_secs == secs as u64,
                _ => false,
            },
            ServerAction::ContainerAction { id, action } => {
                &&& place == 1
                &&& call matches CallView::ContainerAction { container, action: called, .. }
                    && action == called && lists_called(events, container, id)
            },
            ServerAction::ContainerLogs { id, lines } => {
                &&& place == 1
                &&& call matches CallView::ContainerLogs { container, lines: called, .. } && lines
                    == called as usize && lists_called(events, container, id)
            },
            ServerAction::ToggleSite { config_path, domain, enabled } => {
                &&& place == 1
                &&& call matches CallView::SetSiteEnabled { domain: called, enabled: wanted, .. }
                    && domain == called && enabled == wanted && lists_site(
                    events,
                    called,
                    !wanted,
                    config_path,
                )
            },
            ServerAction::FindContainers => call is ContainerAction || call is ContainerLogs,
            ServerAction::FindSites => call is SetSiteEnabled,
            ServerAction::ServiceInfo { service } => service == "nginx"@ && place == 0
                && call matches CallView::Ask { query: Query::NginxStatus, .. },
            ServerAction::TestNginxConfig => place == 1 && call matches CallView::Ask {
                query: Query::NginxStatus,
                ..
            },
            ServerAction::ListVhosts => place == 2 && call matches CallView::Ask {
                query: Query::NginxStatus,
                ..
            },
            ServerAction::SystemInfo => place == 0 && call matches CallView::Ask {
                query: Query::ServerStatus,
                ..
            },
            ServerAction::ServiceStatuses => call matches CallView::Ask { query, .. } && (query
                == Query::Services && place == 0 || query == Query::ServerStatus && place == 1),
            ServerAction::ContainerRuntime => call matches CallView::Ask {
                query: Query::ContainerRuntime,
                ..
            },
            ServerAction::ListContainers => call matches CallView::Ask {
                query: Query::Containers,
                ..
            },
            ServerAction::ListImages => call matches CallView::Ask { query: Query::Images, .. },
            ServerAction::ListSites => call matches CallView::Ask { query: Query::Sites, .. },
        },
{
    reveal_with_fuel(actions_from, 5);
    if events.len() > 0 {
        if let EventView::Containers(containers) = events[0] {
            match call {
                CallView::ContainerAction { container, .. } => {
                    lemma_first_called(containers, container);
                },
                CallView::ContainerLogs { container, .. } => {
                    lemma_first_called(containers, container);
                },
                _ => {},
            }
        }
        if let EventView::Sites(sites) = events[0] {
            if let CallView::SetSiteEnabled { domain, .. } = call {
                lemma_first_site(sites, domain);
            }
        }
    }
}

/// A call that acts on a container finds it in the list, acts on it by its id, lists the
/// containers again, and answers with that container, the action, what the action reported, and
/// the state of the container before and after: none after where it is gone.
pub proof fn law_called_container_is_acted_on(
    profile_id: Seq<char>,
    requested: Seq<char>,
    action: Seq<char>,
    containers: Seq<Container<Seq<char>>>,
    index: int,
    message: Seq<char>,
    later: Seq<Container<Seq<char>>>,
)
    requires
        is_first_called(containers, requested, index),
    ensures
        ({
            let call = CallView::ContainerAction { profile_id, container: requested, action };
            let events = seq![
                EventView::Containers(containers),
                EventView::Text(message),
                EventView::Containers(later),
            ];
            &&& actions_of(call, events) == seq![
                ServerAction::FindContainers,
                ServerAction::ContainerAction { id: containers[index].id, action },
                ServerAction::FindContainers,
            ]
            &&& outcome_of(call, events) matches Some(Ok(answer)) && {
                &&& has_names(
                    answer,
                    set!["container"@, "action"@, "message"@, "before"@, "after"@],
                )
                &&& answer.field("container"@) matches Some(named) && names_container(
                    named,
                    containers[index],
                )
                &&& answer.text_field("action"@) == Some(action)
                &&& answer.text_field("message"@) == Some(message)
                &&& answer.field("before"@) matches Some(before) && tells_state(
                    before,
                    containers[index],
                )
                &&& forall|k: int| #[trigger]
                    is_first_with_id(later, containers[index].id, k) ==> (answer.field(
                        "after"@,
                    ) matches Some(after) && tells_state(after, later[k]))
                &&& (forall|k: int|
                    0 <= k < later.len() ==> (#[trigger] later[k]).id != containers[index].id)
                    ==> answer.field("after"@) == Some(JsonView::Null)
            }
        }),
{
    reveal_with_fuel(actions_from, 5);
    reveal_with_fuel(outcome_from, 5);
    lemma_answer_names();
    lemma_first_called(containers, requested);
    lemma_only_one_is_first(containers, requested, index);
    lemma_first_with_id(later, containers[index].id);
    let call = CallView::ContainerAction { profile_id, container: requested, action };
    let events = seq![
        EventView::Containers(containers),
        EventView::Text(message),
        EventView::Containers(later),
    ];
    assert(events.drop_first()[0] == events[1]);
    assert(events.drop_first().drop_first()[0] == events[2]);
    assert(actions_of(call, events) =~= seq![
        ServerAction::FindContainers,
        ServerAction::ContainerAction { id: containers[index].id, action },
        ServerAction::FindContainers,
    ]);
    assert forall|k: int| #[trigger]
        is_first_with_id(later, containers[index].id, k) implies container_with_id(
        later,
        containers[index].id,
    ) == Some(k) by {
        let other = container_with_id(later, containers[index].id)->0;
        assert(later[k].id == containers[index].id);
        if other < k {
            assert(later[other].id == containers[index].id);
        }
    }
}

proof fn lemma_only_one_is_first(
    containers: Seq<Container<Seq<char>>>,
    requested: Seq<char>,
    index: int,
)
    requires
        is_first_called(containers, requested, index),
    ensures
        container_named(containers, requested) == Some(index),
{
    lemma_first_called(containers, requested);
    assert(is_called(containers[index], requested));
    let other = container_named(containers, requested)->0;
    if other < index {
        assert(is_called(containers[other], requested));
    }
}

proof fn lemma_only_one_site_is_first(sites: Seq<Site<Seq<char>>>, domain: Seq<char>, index: int)
    requires
        is_first_site(sites, domain, index),
    ensures
        site_with_domain(sites, domain) == Some(index),
{
    lemma_first_site(sites, domain);
    assert(sites[index].domain == domain);
    let other = site_with_domain(sites, domain)->0;
    if other < index {
        assert(sites[other].domain == domain);
    }
}

/// A call for the log of a container finds it in the list, reads as many lines as were asked
/// for by its id, and answers with that container, the number and the log.
pub proof fn law_log_of_the_called_container_is_read(
    profile_id: Seq<char>,
    requested: Seq<char>,
    lines: usize,
    containers: Seq<Container<Seq<char>>>,
    index: int,
    log: Seq<char>,
)
    requires
        is_first_called(containers, requested, index),
    ensures
        ({
            let call = CallView::ContainerLogs {
                profile_id,
                container: requested,
                lines: lines as nat,
            };
            let events = seq![EventView::Containers(containers), EventView::Text(log)];
            &&& actions_of(call, events) == seq![
                ServerAction::FindContainers,
                ServerAction::ContainerLogs { id: containers[index].id, lines },
            ]
            &&& outcome_of(call, events) matches Some(Ok(answer)) && {
                &&& has_names(answer, set!["container"@, "lines"@, "logs"@])
                &&& answer.field("container"@) matches Some(named) && names_container(
                    named,
                    containers[index],
                )
                &&& answer.field("lines"@) == Some(JsonView::Int(lines as int))
                &&& answer.text_field("logs"@) == Some(log)
            }
        }),
{
    reveal_with_fuel(actions_from, 5);
    reveal_with_fuel(outcome_from, 5);
    lemma_answer_names();
    lemma_only_one_is_first(containers, requested, index);
    let call = CallView::ContainerLogs { profile_id, container: requested, lines: lines as nat };
    let events = seq![EventView::Containers(containers), EventView::Text(log)];
    assert(events.drop_first()[0] == events[1]);
    assert(actions_of(call, events) =~= seq![
        ServerAction::FindContainers,
        ServerAction::ContainerLogs { id: containers[index].id, lines },
    ]);
}

/// Where no listed container has the requested id or name, nothing is done but to list them,
/// and the answer says that it was not found.
pub proof fn law_missing_container_is_refused(
    call: CallView,
    requested: Seq<char>,
    containers: Seq<Container<Seq<char>>>,
    later: Seq<EventView>,
)
    requires
        match call {
            CallView::ContainerAction { container, .. } => container == requested,
            CallView::ContainerLogs { container, .. } => container == requested,
            _ => false,
        },
        forall|j: int|
            0 <= j < containers.len() ==> !is_called(#[trigger] containers[j], requested),
    ensures
        actions_of(call, seq![EventView::Containers(containers)] + later) == seq![
            ServerAction::<Seq<char>>::FindContainers,
        ],
        outcome_of(call, seq![EventView::Containers(containers)] + later) == Some(
            Err::<JsonView, Seq<char>>("Container not found in LeePanel: "@ + requested),
        ),
{
    lemma_first_called(containers, requested);
    let events = seq![EventView::Containers(containers)] + later;
    assert(events[0] == EventView::Containers(containers));
}

/// A call that enables or disables a site finds it in the list. Where it is not yet as requested
/// it is changed, at its configuration, to what was requested, and the answer tells what the
/// change reported; where it is, nothing is changed. Either way the answer names the domain and
/// the requested state.
pub proof fn law_called_site_is_switched(
    profile_id: Seq<char>,
    domain: Seq<char>,
    enabled: bool,
    sites: Seq<Site<Seq<char>>>,
    index: int,
    message: Seq<char>,
)
    requires
        is_first_site(sites, domain, index),
    ensures
        ({
            let call = CallView::SetSiteEnabled { profile_id, domain, enabled };
            let events = seq![EventView::Sites(sites), EventView::Text(message)];
            &&& actions_of(call, events) == if sites[index].enabled != enabled {
                seq![
                    ServerAction::FindSites,
                    ServerAction::ToggleSite {
                        config_path: sites[index].config_path,
                        domain,
                        enabled,
                    },
                ]
            } else {
                seq![ServerAction::FindSites]
            }
            &&& outcome_of(call, events) matches Some(Ok(answer)) && {
                &&& has_names(answer, set!["message"@, "domain"@, "enabled"@])
                &&& answer.text_field("domain"@) == Some(domain)
                &&& answer.field("enabled"@) == Some(JsonView::Bool(enabled))
                &&& answer.text_field("message"@) == Some(
                    if sites[index].enabled != enabled {
                        message
                    } else if enabled {
                        "Site "@ + domain + " is already "@ + "enabled"@
                    } else {
                        "Site "@ + domain + " is already "@ + "disabled"@
                    },
                )
            }
        }),
{
    reveal_with_fuel(actions_from, 5);
    reveal_with_fuel(outcome_from, 5);
    lemma_answer_names();
    lemma_only_one_site_is_first(sites, domain, index);
    let call = CallView::SetSiteEnabled { profile_id, domain, enabled };
    let events = seq![EventView::Sites(sites), EventView::Text(message)];
    assert(events.drop_first()[0] == events[1]);
    if sites[index].enabled != enabled {
        assert(actions_of(call, events) =~= seq![
            ServerAction::FindSites,
            ServerAction::ToggleSite { config_path: sites[index].config_path, domain, enabled },
        ]);
    }
}

/// Where no listed site has the requested domain, nothing is changed, and the answer says that
/// it was not found.
pub proof fn law_missing_site_is_refused(
    profile_id: Seq<char>,
    domain: Seq<char>,
    enabled: bool,
    sites: Seq<Site<Seq<char>>>,
    later: Seq<EventView>,
)
    requires
        forall|j: int| 0 <= j < sites.len() ==> (#[trigger] sites[j]).domain != domain,
    ensures
        ({
            let call = CallView::SetSiteEnabled { profile_id, domain, enabled };
            let events = seq![EventView::Sites(sites)] + later;
            &&& actions_of(call, events) == seq![ServerAction::<Seq<char>>::FindSites]
            &&& outcome_of(call, events) == Some(
                Err::<JsonView, Seq<char>>("Site not found in LeePanel: "@ + domain),
            )
        }),
{
    lemma_first_site(sites, domain);
    let events = seq![EventView::Sites(sites)] + later;
    assert(events[0] == EventView::Sites(sites));
}

/// A call that reads a file reads the file at its path, and answers with the longest beginning of
/// it that takes no more bytes than were asked for, and with whether anything is missing.
pub proof fn law_called_file_is_read(
    profile_id: Seq<char>,
    path: Seq<char>,
    max_bytes: usize,
    text: Seq<char>,
)
    ensures
        ({
            let call = CallView::ReadFile { profile_id, path, max_bytes: max_bytes as nat };
            let events = seq![EventView::Text(text)];
            &&& actions_of(call, events) == seq![ServerAction::ReadFile { path }]
            &&& outcome_of(call, events) matches Some(Ok(answer)) && {
                &&& has_names(answer, set!["path"@, "content"@, "truncated"@])
                &&& answer.text_field("path"@) == Some(path)
                &&& answer.text_field("content"@) matches Some(content) && longest_fitting(
                    text,
                    content,
                    max_bytes as nat,
                )
                &&& answer.field("truncated"@) == Some(
                    JsonView::Bool(byte_len(text) > max_bytes),
                )
            }
        }),
{
    lemma_answer_names();
    law_cut_text_fits(text, max_bytes as nat);
}

/// A call that writes a file writes its content at its path, and answers with the path and the
/// number of bytes.
pub proof fn law_called_file_is_written(
    profile_id: Seq<char>,
    path: Seq<char>,
    content: Seq<char>,
)
    requires
        byte_len(content) <= usize::MAX,
    ensures
        ({
            let call = CallView::WriteFile { profile_id, path, content };
            let events = seq![EventView::Written];
            &&& actions_of(call, events) == seq![ServerAction::WriteFile { path, content }]
            &&& outcome_of(call, events) matches Some(Ok(answer)) && {
                &&& has_names(answer, set!["path"@, "bytes_written"@])
                &&& answer.text_field("path"@) == Some(path)
                &&& answer.field("bytes_written"@) == Some(JsonView::Int(byte_len(content) as int))
            }
        }),
{
    lemma_answer_names();
}

/// Whether an answer tells what a command printed, each output cut at 65536 bytes, how it ended,
/// and whether anything is missing.
pub open spec fn tells_command(
    answer: JsonView,
    stdout: Seq<char>,
    stderr: Seq<char>,
    exit_code: int,
) -> bool {
    &&& has_names(answer, set!["stdout"@, "stderr"@, "exit_code"@, "truncated"@])
    &&& answer.text_field("stdout"@) matches Some(text) && longest_fitting(stdout, text, 65536)
    &&& answer.text_field("stderr"@) matches Some(text) && longest_fitting(stderr, text, 65536)
    &&& answer.field("exit_code"@) == Some(JsonView::Int(exit_code))
    &&& answer.field("truncated"@) == Some(
        JsonView::Bool(byte_len(stdout) > 65536 || byte_len(stderr) > 65536),
    )
}

/// A call that runs a command runs that command, as it stands or as root, for as long as it may
/// take, and answers with what it printed and how it ended.
pub proof fn law_called_command_is_run(
    profile_id: Seq<char>,
    command: Seq<char>,
    timeout_secs: u64,
    as_root: bool,
    stdout: Seq<char>,
    stderr: Seq<char>,
    exit_code: int,
)
    ensures
        ({
            let call = if as_root {
                CallView::RunPrivileged { profile_id, command, timeout_secs: timeout_secs as nat }
            } else {
                CallView::RunCommand { profile_id, command, timeout_secs: timeout_secs as nat }
            };
            let events = seq![EventView::Finished { stdout, stderr, exit_code }];
            &&& actions_of(call, events) == seq![
                ServerAction::Execute {
                    command: if as_root {
                        elevated_line(command)
                    } else {
                        command
                    },
                    timeout_secs,
                },
            ]
            &&& outcome_of(call, events) matches Some(Ok(answer)) && tells_command(
                answer,
                stdout,
                stderr,
                exit_code,
            )
        }),
{
    lemma_answer_names();
    law_cut_text_fits(stdout, 65536);
    law_cut_text_fits(stderr, 65536);
}

/// A call for the status of a server answers with the system information and the states of the
/// services that were read.
pub proof fn law_server_status_is_what_was_read(
    profile_id: Seq<char>,
    system: JsonView,
    services: JsonView,
)
    ensures
        ({
            let call = CallView::Ask { profile_id, query: Query::ServerStatus };
            let events = seq![EventView::Answer(system), EventView::Answer(services)];
            &&& actions_of(call, events) == seq![
                ServerAction::<Seq<char>>::SystemInfo,
                ServerAction::ServiceStatuses,
            ]
            &&& outcome_of(call, events) matches Some(Ok(answer)) && {
                &&& has_names(answer, set!["system"@, "services"@])
                &&& answer.field("system"@) == Some(system)
                &&& answer.field("services"@) == Some(services)
            }
        }),
{
    reveal_with_fuel(actions_from, 5);
    reveal_with_fuel(outcome_from, 5);
    lemma_answer_names();
    let call = CallView::Ask { profile_id, query: Query::ServerStatus };
    let events = seq![EventView::Answer(system), EventView::Answer(services)];
    assert(events.drop_first()[0] == events[1]);
    assert(actions_of(call, events) =~= seq![
        ServerAction::<Seq<char>>::SystemInfo,
        ServerAction::ServiceStatuses,
    ]);
}

/// A call for the status of the web server answers with its service, whether its configuration
/// is valid, the output of the test, and its virtual hosts, as they were read.
pub proof fn law_nginx_status_is_what_was_read(
    profile_id: Seq<char>,
    service: JsonView,
    valid: bool,
    output: Seq<char>,
    vhosts: JsonView,
)
    ensures
        ({
            let call = CallView::Ask { profile_id, query: Query::NginxStatus };
            let events = seq![
                EventView::Answer(service),
                EventView::Tested { valid, output },
                EventView::Answer(vhosts),
            ];
            &&& actions_of(call, events) == seq![
                ServerAction::ServiceInfo { service: "nginx"@ },
                ServerAction::TestNginxConfig,
                ServerAction::ListVhosts,
            ]
            &&& outcome_of(call, events) matches Some(Ok(answer)) && {
                &&& has_names(
                    answer,
                    set!["service"@, "config_valid"@, "config_test_output"@, "vhosts"@],
                )
                &&& answer.field("service"@) == Some(service)
                &&& answer.field("config_valid"@) == Some(JsonView::Bool(valid))
                &&& answer.text_field("config_test_output"@) == Some(output)
                &&& answer.field("vhosts"@) == Some(vhosts)
            }
        }),
{
    reveal_with_fuel(actions_from, 5);
    reveal_with_fuel(outcome_from, 5);
    lemma_answer_names();
    let call = CallView::Ask { profile_id, query: Query::NginxStatus };
    let events = seq![
        EventView::Answer(service),
        EventView::Tested { valid, output },
        EventView::Answer(vhosts),
    ];
    assert(events.drop_first()[0] == events[1]);
    assert(events.drop_first().drop_first()[0] == events[2]);
    assert(actions_of(call, events) =~= seq![
        ServerAction::ServiceInfo { service: "nginx"@ },
        ServerAction::TestNginxConfig,
        ServerAction::ListVhosts,
    ]);
}

/// The other questions take one action each, and the answer is what was read.
pub proof fn law_plain_answers_are_passed_on(
    profile_id: Seq<char>,
    query: Query,
    value: JsonView,
)
    requires
        query != Query::ServerStatus,
        query != Query::NginxStatus,
    ensures
        ({
            let call = CallView::Ask { profile_id, query };
            let events = seq![EventView::Answer(value)];
            &&& actions_of(call, events) == seq![
                match query {
                    Query::Services => ServerAction::<Seq<char>>::ServiceStatuses,
                    Query::ContainerRuntime => ServerAction::ContainerRuntime,
                    Query::Containers => ServerAction::ListContainers,
                    Query::Images => ServerAction::ListImages,
                    _ => ServerAction::ListSites,
                },
            ]
            &&& outcome_of(call, events) == Some(Ok::<JsonView, Seq<char>>(value))
        }),
{
}

/// Once a call has its outcome, later events change neither the outcome nor the actions.
pub proof fn law_outcome_is_final(call: CallView, events: Seq<EventView>, later: Seq<EventView>)
    requires
        outcome_of(call, events) is Some,
    ensures
        outcome_of(call, events + later) == outcome_of(call, events),
        actions_of(call, events + later) == actions_of(call, events),
{
    let (progress, action) = first_step(call)->0;
    lemma_outcome_is_final(progress, action, events, later);
}

proof fn lemma_outcome_is_final(
    progress: Progress<Seq<char>, JsonView>,
    action: ServerAction<Seq<char>>,
    events: Seq<EventView>,
    later: Seq<EventView>,
)
    requires
        outcome_from(progress, events) is Some,
    ensures
        outcome_from(progress, events + later) == outcome_from(progress, events),
        actions_from(progress, action, events + later) == actions_from(progress, action, events),
    decreases events.len(),
{
    assert((events + later)[0] == events[0]);
    assert((events + later).drop_first() =~= events.drop_first() + later);
    if let StepView::Act { progress: next, action: next_action } = next_step(progress, events[0]) {
        lemma_outcome_is_final(next, next_action, events.drop_first(), later);
    }
}

/// An action that fails ends the call with its message, whatever call it is and however far it
/// has come: no further action is taken.
pub proof fn law_failed_action_ends_the_call(
    call: CallView,
    before: Seq<EventView>,
    message: Seq<char>,
    later: Seq<EventView>,
)
    requires
        actions_of(call, before).len() == before.len() + 1,
    ensures
        outcome_of(call, before + seq![EventView::Failed(message)] + later) == Some(
            Err::<JsonView, Seq<char>>(message),
        ),
        actions_of(call, before + seq![EventView::Failed(message)] + later) == actions_of(
            call,
            before,
        ),
{
    let (progress, action) = first_step(call)->0;
    lemma_failed_action_ends(progress, action, before, message, later);
}

proof fn lemma_failed_action_ends(
    progress: Progress<Seq<char>, JsonView>,
    action: ServerAction<Seq<char>>,
    before: Seq<EventView>,
    message: Seq<char>,
    later: Seq<EventView>,
)
    requires
        actions_from(progress, action, before).len() == before.len() + 1,
    ensures
        outcome_from(progress, before + seq![EventView::Failed(message)] + later) == Some(
            Err::<JsonView, Seq<char>>(message),
        ),
        actions_from(progress, action, before + seq![EventView::Failed(message)] + later)
            == actions_from(progress, action, before),
    decreases before.len(),
{
    let events = before + seq![EventView::Failed(message)] + later;
    if before.len() == 0 {
        assert(events[0] == EventView::Failed(message));
    } else {
        assert(events[0] == before[0]);
        assert(events.drop_first() =~= before.drop_first() + seq![EventView::Failed(message)]
            + later);
        if let StepView::Act { progress: next, action: next_action } = next_step(
            progress,
            before[0],
        ) {
            lemma_failed_action_ends(next, next_action, before.drop_first(), message, later);
        }
    }
}

/// Whether an event can come of an action. Every action can fail.
pub open spec fn comes_of(action: ServerAction<Seq<char>>, event: EventView) -> bool {
    match event {
        EventView::Failed(_) => true,
        EventView::Answer(_) => match action {
            ServerAction::SystemInfo => true,
            ServerAction::ServiceStatuses => true,
            ServerAction::ServiceInfo { .. } => true,
            ServerAction::ListVhosts => true,
            ServerAction::ContainerRuntime => true,
            ServerAction::ListContainers => true,
            ServerAction::ListImages => true,
            ServerAction::ListSites => true,
            _ => false,
        },
        EventView::Tested { .. } => action is TestNginxConfig,
        EventView::Containers(_) => action is FindContainers,
        EventView::Sites(_) => action is FindSites,
        EventView::Text(_) => action is ContainerLogs || action is ContainerAction
            || action is ReadFile || action is ToggleSite,
        EventView::Written => action is WriteFile,
        EventView::Finished { .. } => action is Execute,
    }
}

/// A call goes on after an event exactly where the event can come of the action under way.
pub proof fn law_calls_go_on_after_fitting_events(
    call: CallView,
    before: Seq<EventView>,
    event: EventView,
)
    requires
        actions_of(call, before).len() == before.len() + 1,
    ensures
        ({
            let goes_on = outcome_of(call, before.push(event)) is Some || actions_of(
                call,
                before.push(event),
            ).len() == before.len() + 2;
            goes_on <==> comes_of(actions_of(call, before)[before.len() as int], event)
        }),
{
    reveal_with_fuel(actions_from, 6);
    reveal_with_fuel(outcome_from, 6);
    crate::dispatch::law_calls_end(call, before);
    let events = before.push(event);
    if before.len() == 0 {
        assert(events[0] == event);
    } else if before.len() == 1 {
        assert(events[0] == before[0]);
        assert(events.drop_first()[0] == event);
        assert(events.drop_first().len() == 1);
    } else {
        assert(before.len() == 2);
        assert(events[0] == before[0]);
        assert(events.drop_first()[0] == before[1]);
        assert(before.drop_first()[0] == before[1]);
        assert(events.drop_first().drop_first()[0] == event);
    }
}

} // verus!
