//! The calls that a tool can make, read from the method and the parameters of its request.

use crate::access::PermissionLevel;
use crate::escalation::{escalates, escalation_message, reject_privilege_escalation};
use crate::json::{text_view, Json, JsonView};
use crate::limits::byte_len;
use crate::params::{
    action_param, command_param, content_param, is_container_action, is_remote_path, number_param,
    optional_usize, path_param, required_command, required_container_action, required_content,
    required_remote_path, required_string, required_switch, switch_param, text_param,
};
use crate::text::{cat2, text_eq};
use vstd::prelude::*;

verus! {

/// A question about a server that needs nothing but its profile.
#[derive(Clone, Copy, Debug, PartialEq, Eq, Structural)]
pub enum Query {
    ServerStatus,
    Services,
    NginxStatus,
    ContainerRuntime,
    Containers,
    Images,
    Sites,
}

/// A call, with parameters that were checked.
#[derive(Debug, PartialEq, Eq)]
pub enum BrokerCall {
    ListServers,
    Ask { profile_id: String, query: Query },
    ContainerLogs { profile_id: String, container: String, lines: usize },
    ReadFile { profile_id: String, path: String, max_bytes: usize },
    WriteFile { profile_id: String, path: String, content: String },
    RunCommand { profile_id: String, command: String, timeout_secs: u64 },
    RunPrivileged { profile_id: String, command: String, timeout_secs: u64 },
    ContainerAction { profile_id: String, container: String, action: String },
    SetSiteEnabled { profile_id: String, domain: String, enabled: bool },
}

/// What a call says.
pub enum CallView {
    ListServers,
    Ask { profile_id: Seq<char>, query: Query },
    ContainerLogs { profile_id: Seq<char>, container: Seq<char>, lines: nat },
    ReadFile { profile_id: Seq<char>, path: Seq<char>, max_bytes: nat },
    WriteFile { profile_id: Seq<char>, path: Seq<char>, content: Seq<char> },
    RunCommand { profile_id: Seq<char>, command: Seq<char>, timeout_secs: nat },
    RunPrivileged { profile_id: Seq<char>, command: Seq<char>, timeout_secs: nat },
    ContainerAction { profile_id: Seq<char>, container: Seq<char>, action: Seq<char> },
    SetSiteEnabled { profile_id: Seq<char>, domain: Seq<char>, enabled: bool },
}

impl View for BrokerCall {
    type V = CallView;

    open spec fn view(&self) -> CallView {
        match *self {
            BrokerCall::ListServers => CallView::ListServers,
            BrokerCall::Ask { profile_id, query } => CallView::Ask {
                profile_id: profile_id@,
                query,
            },
            BrokerCall::ContainerLogs { profile_id, container, lines } => CallView::ContainerLogs {
                profile_id: profile_id@,
                container: container@,
                lines: lines as nat,
            },
            BrokerCall::ReadFile { profile_id, path, max_bytes } => CallView::ReadFile {
                profile_id: profile_id@,
                path: path@,
                max_bytes: max_bytes as nat,
            },
            BrokerCall::WriteFile { profile_id, path, content } => CallView::WriteFile {
                profile_id: profile_id@,
                path: path@,
                content: content@,
            },
            BrokerCall::RunCommand { profile_id, command, timeout_secs } => CallView::RunCommand {
                profile_id: profile_id@,
                command: command@,
                timeout_secs: timeout_secs as nat,
            },
            BrokerCall::RunPrivileged { profile_id, command, timeout_secs } =>
                CallView::RunPrivileged {
                profile_id: profile_id@,
                command: command@,
                timeout_secs: timeout_secs as nat,
            },
            BrokerCall::ContainerAction { profile_id, container, action } =>
                CallView::ContainerAction {
                profile_id: profile_id@,
                container: container@,
                action: action@,
            },
            BrokerCall::SetSiteEnabled { profile_id, domain, enabled } =>
                CallView::SetSiteEnabled {
                profile_id: profile_id@,
                domain: domain@,
                enabled,
            },
        }
    }
}

impl CallView {
    /// The profile on whose server the call acts; none for the list of servers.
    pub open spec fn profile(self) -> Option<Seq<char>> {
        match self {
            CallView::ListServers => None,
            CallView::Ask { profile_id, .. } => Some(profile_id),
            CallView::ContainerLogs { profile_id, .. } => Some(profile_id),
            CallView::ReadFile { profile_id, .. } => Some(profile_id),
            CallView::WriteFile { profile_id, .. } => Some(profile_id),
            CallView::RunCommand { profile_id, .. } => Some(profile_id),
            CallView::RunPrivileged { profile_id, .. } => Some(profile_id),
            CallView::ContainerAction { profile_id, .. } => Some(profile_id),
            CallView::SetSiteEnabled { profile_id, .. } => Some(profile_id),
        }
    }

    /// The level that the call needs: reading for questions, management for changes, and
    /// system access for commands that run as root.
    pub open spec fn level(self) -> PermissionLevel {
        match self {
            CallView::ListServers => PermissionLevel::Read,
            CallView::Ask { .. } => PermissionLevel::Read,
            CallView::ContainerLogs { .. } => PermissionLevel::Read,
            CallView::ReadFile { .. } => PermissionLevel::Read,
            CallView::WriteFile { .. } => PermissionLevel::Manage,
            CallView::RunCommand { .. } => PermissionLevel::Manage,
            CallView::RunPrivileged { .. } => PermissionLevel::System,
            CallView::ContainerAction { .. } => PermissionLevel::Manage,
            CallView::SetSiteEnabled { .. } => PermissionLevel::Manage,
        }
    }
}

impl BrokerCall {
    /// The profile on whose server the call acts; none for the list of servers.
    pub fn profile_id(&self) -> (profile: Option<&str>)
        ensures
            text_view(profile) == self@.profile(),
    {
        match self {
            BrokerCall::ListServers => None,
            BrokerCall::Ask { profile_id, .. } => Some(profile_id.as_str()),
            BrokerCall::ContainerLogs { profile_id, .. } => Some(profile_id.as_str()),
            BrokerCall::ReadFile { profile_id, .. } => Some(profile_id.as_str()),
            BrokerCall::WriteFile { profile_id, .. } => Some(profile_id.as_str()),
            BrokerCall::RunCommand { profile_id, .. } => Some(profile_id.as_str()),
            BrokerCall::RunPrivileged { profile_id, .. } => Some(profile_id.as_str()),
            BrokerCall::ContainerAction { profile_id, .. } => Some(profile_id.as_str()),
            BrokerCall::SetSiteEnabled { profile_id, .. } => Some(profile_id.as_str()),
        }
    }

    /// The level that the call needs.
    pub fn required(&self) -> (level: PermissionLevel)
        ensures
            level == self@.level(),
    {
        match self {
            BrokerCall::ListServers => PermissionLevel::Read,
            BrokerCall::Ask { .. } => PermissionLevel::Read,
            BrokerCall::ContainerLogs { .. } => PermissionLevel::Read,
            BrokerCall::ReadFile { .. } => PermissionLevel::Read,
            BrokerCall::WriteFile { .. } => PermissionLevel::Manage,
            BrokerCall::RunCommand { .. } => PermissionLevel::Manage,
            BrokerCall::RunPrivileged { .. } => PermissionLevel::System,
            BrokerCall::ContainerAction { .. } => PermissionLevel::Manage,
            BrokerCall::SetSiteEnabled { .. } => PermissionLevel::Manage,
        }
    }
}

/// The question that a method asks, if it is one that needs nothing but a profile.
pub open spec fn query_named(method: Seq<char>) -> Option<Query> {
    if method == "get_server_status"@ {
        Some(Query::ServerStatus)
    } else if method == "get_services"@ {
        Some(Query::Services)
    } else if method == "get_nginx_status"@ {
        Some(Query::NginxStatus)
    } else if method == "get_container_runtime"@ {
        Some(Query::ContainerRuntime)
    } else if method == "list_containers"@ {
        Some(Query::Containers)
    } else if method == "list_images"@ {
        Some(Query::Images)
    } else if method == "list_sites"@ {
        Some(Query::Sites)
    } else {
        None
    }
}

fn query_of(method: &str) -> (query: Option<Query>)
    ensures
        query == query_named(method@),
{
    if text_eq(method, "get_server_status") {
        Some(Query::ServerStatus)
    } else if text_eq(method, "get_services") {
        Some(Query::Services)
    } else if text_eq(method, "get_nginx_status") {
        Some(Query::NginxStatus)
    } else if text_eq(method, "get_container_runtime") {
        Some(Query::ContainerRuntime)
    } else if text_eq(method, "list_containers") {
        Some(Query::Containers)
    } else if text_eq(method, "list_images") {
        Some(Query::Images)
    } else if text_eq(method, "list_sites") {
        Some(Query::Sites)
    } else {
        None
    }
}

/// A command with the seconds that it may take: by default 60, at most 300.
pub open spec fn timed_command(params: JsonView, rejects_escalation: bool) -> Result<
    (Seq<char>, nat),
    Seq<char>,
> {
    match command_param(params) {
        Err(message) => Err(message),
        Ok(command) => if rejects_escalation && escalates(command) {
            Err(escalation_message())
        } else {
            match number_param(params, "timeout_seconds"@, 60, 300) {
                Err(message) => Err(message),
                Ok(timeout_secs) => Ok((command, timeout_secs)),
            }
        },
    }
}

fn required_timed_command(params: &Json, rejects_escalation: bool) -> (outcome: Result<
    (String, u64),
    String,
>)
    ensures
        match outcome {
            Ok(timed) => timed_command(params@, rejects_escalation) == Ok::<
                (Seq<char>, nat),
                Seq<char>,
            >((timed.0@, timed.1 as nat)),
            Err(message) => timed_command(params@, rejects_escalation) == Err::<
                (Seq<char>, nat),
                Seq<char>,
            >(message@),
        },
{
    let command = match required_command(params) {
        Ok(command) => command,
        Err(message) => return Err(message),
    };
    if rejects_escalation {
        match reject_privilege_escalation(command) {
            Ok(_) => {},
            Err(message) => return Err(message),
        }
    }
    match optional_usize(params, "timeout_seconds", 60, 300) {
        Ok(timeout_secs) => Ok((command.to_owned(), timeout_secs as u64)),
        Err(message) => Err(message),
    }
}

/// The call that a method makes on a profile, with its other parameters: what they must be is
/// checked in the order in which the answers name them.
pub open spec fn profile_call(
    method: Seq<char>,
    params: JsonView,
    profile_id: Seq<char>,
) -> Result<CallView, Seq<char>> {
    if query_named(method) is Some {
        Ok(CallView::Ask { profile_id, query: query_named(method)->0 })
    } else if method == "get_container_logs"@ {
        match text_param(params, "container"@) {
            Err(message) => Err(message),
            Ok(container) => match number_param(params, "lines"@, 200, 1000) {
                Err(message) => Err(message),
                Ok(lines) => Ok(CallView::ContainerLogs { profile_id, container, lines }),
            },
        }
    } else if method == "read_file"@ {
        match path_param(params) {
            Err(message) => Err(message),
            Ok(path) => match number_param(params, "max_bytes"@, 65536, 131072) {
                Err(message) => Err(message),
                Ok(max_bytes) => Ok(CallView::ReadFile { profile_id, path, max_bytes }),
            },
        }
    } else if method == "write_file"@ {
        match path_param(params) {
            Err(message) => Err(message),
            Ok(path) => match content_param(params) {
                Err(message) => Err(message),
                Ok(content) => Ok(CallView::WriteFile { profile_id, path, content }),
            },
        }
    } else if method == "run_command"@ {
        match timed_command(params, true) {
            Err(message) => Err(message),
            Ok((command, timeout_secs)) => Ok(
                CallView::RunCommand { profile_id, command, timeout_secs },
            ),
        }
    } else if method == "run_privileged_command"@ {
        match timed_command(params, false) {
            Err(message) => Err(message),
            Ok((command, timeout_secs)) => Ok(
                CallView::RunPrivileged { profile_id, command, timeout_secs },
            ),
        }
    } else if method == "run_container_action"@ {
        match text_param(params, "container"@) {
            Err(message) => Err(message),
            Ok(container) => match action_param(params) {
                Err(message) => Err(message),
                Ok(action) => Ok(CallView::ContainerAction { profile_id, container, action }),
            },
        }
    } else {
        match text_param(params, "domain"@) {
            Err(message) => Err(message),
            Ok(domain) => match switch_param(params) {
                Err(message) => Err(message),
                Ok(enabled) => Ok(CallView::SetSiteEnabled { profile_id, domain, enabled }),
            },
        }
    }
}

/// Whether a method acts on the server of a profile.
pub open spec fn is_profile_method(method: Seq<char>) -> bool {
    ||| query_named(method) is Some
    ||| method == "get_container_logs"@
    ||| method == "read_file"@
    ||| method == "write_file"@
    ||| method == "run_command"@
    ||| method == "run_privileged_command"@
    ||| method == "run_container_action"@
    ||| method == "set_site_enabled"@
}

/// The call that a request makes, or the answer that refuses it.
pub open spec fn planned(method: Seq<char>, params: JsonView) -> Result<CallView, Seq<char>> {
    if method == "list_servers"@ {
        Ok(CallView::ListServers)
    } else if is_profile_method(method) {
        match text_param(params, "profile_id"@) {
            Err(message) => Err(message),
            Ok(profile_id) => profile_call(method, params, profile_id),
        }
    } else {
        Err("Unsupported LeePanel broker method: "@ + method)
    }
}

/// A planned call as what it says.
pub open spec fn plan_view(plan: Result<BrokerCall, String>) -> Result<CallView, Seq<char>> {
    match plan {
        Ok(call) => Ok(call@),
        Err(message) => Err(message@),
    }
}

fn plan_profile_call(method: &str, params: &Json, profile_id: String) -> (plan: Result<
    BrokerCall,
    String,
>)
    requires
        is_profile_method(method@),
    ensures
        plan_view(plan) == profile_call(method@, params@, profile_id@),
{
    match query_of(method) {
        Some(query) => return Ok(BrokerCall::Ask { profile_id, query }),
        None => {},
    }
    if text_eq(method, "get_container_logs") {
        let container = match required_string(params, "container") {
            Ok(container) => container.to_owned(),
            Err(message) => return Err(message),
        };
        match optional_usize(params, "lines", 200, 1000) {
            Ok(lines) => Ok(BrokerCall::ContainerLogs { profile_id, container, lines }),
            Err(message) => Err(message),
        }
    } else if text_eq(method, "read_file") {
        let path = match required_remote_path(params) {
            Ok(path) => path.to_owned(),
            Err(message) => return Err(message),
        };
        match optional_usize(params, "max_bytes", 65536, 131072) {
            Ok(max_bytes) => Ok(BrokerCall::ReadFile { profile_id, path, max_bytes }),
            Err(message) => Err(message),
        }
    } else if text_eq(method, "write_file") {
        let path = match required_remote_path(params) {
            Ok(path) => path.to_owned(),
            Err(message) => return Err(message),
        };
        match required_content(params) {
            Ok(content) => Ok(
                BrokerCall::WriteFile { profile_id, path, content: content.to_owned() },
            ),
            Err(message) => Err(message),
        }
    } else if text_eq(method, "run_command") {
        match required_timed_command(params, true) {
            Ok((command, timeout_secs)) => Ok(
                BrokerCall::RunCommand { profile_id, command, timeout_secs },
            ),
            Err(message) => Err(message),
        }
    } else if text_eq(method, "run_privileged_command") {
        match required_timed_command(params, false) {
            Ok((command, timeout_secs)) => Ok(
                BrokerCall::RunPrivileged { profile_id, command, timeout_secs },
            ),
            Err(message) => Err(message),
        }
    } else if text_eq(method, "run_container_action") {
        let container = match required_string(params, "container") {
            Ok(container) => container.to_owned(),
            Err(message) => return Err(message),
        };
        match required_container_action(params) {
            Ok(action) => Ok(
                BrokerCall::ContainerAction { profile_id, container, action: action.to_owned() },
            ),
            Err(message) => Err(message),
        }
    } else {
        let domain = match required_string(params, "domain") {
            Ok(domain) => domain.to_owned(),
            Err(message) => return Err(message),
        };
        match required_switch(params) {
            Ok(enabled) => Ok(BrokerCall::SetSiteEnabled { profile_id, domain, enabled }),
            Err(message) => Err(message),
        }
    }
}

fn acts_on_profile(method: &str) -> (found: bool)
    ensures
        found == is_profile_method(method@),
{
    query_of(method).is_some() || text_eq(method, "get_container_logs") || text_eq(
        method,
        "read_file",
    ) || text_eq(method, "write_file") || text_eq(method, "run_command") || text_eq(
        method,
        "run_privileged_command",
    ) || text_eq(method, "run_container_action") || text_eq(method, "set_site_enabled")
}

/// Reads the call that a request makes, and checks its parameters.
pub fn plan_broker_request(method: &str, params: &Json) -> (plan: Result<BrokerCall, String>)
    ensures
        plan_view(plan) == planned(method@, params@),
{
    if text_eq(method, "list_servers") {
        Ok(BrokerCall::ListServers)
    } else if acts_on_profile(method) {
        match required_string(params, "profile_id") {
            Ok(profile_id) => plan_profile_call(method, params, profile_id.to_owned()),
            Err(message) => Err(message),
        }
    } else {
        Err(cat2("Unsupported LeePanel broker method: ", method))
    }
}

/// Whether the parameters of a call are within the limits that its tool advertises.
pub open spec fn within_limits(call: CallView) -> bool {
    match call {
        CallView::ListServers => true,
        CallView::Ask { profile_id, .. } => profile_id.len() > 0,
        CallView::ContainerLogs { profile_id, container, lines } => profile_id.len() > 0
            && container.len() > 0 && 1 <= lines <= 1000,
        CallView::ReadFile { profile_id, path, max_bytes } => profile_id.len() > 0
            && is_remote_path(path) && 1 <= max_bytes <= 131072,
        CallView::WriteFile { profile_id, path, content } => profile_id.len() > 0
            && is_remote_path(path) && byte_len(content) <= 131072,
        CallView::RunCommand { profile_id, command, timeout_secs } => profile_id.len() > 0
            && command.len() > 0 && byte_len(command) <= 65536 && 1 <= timeout_secs <= 300,
        CallView::RunPrivileged { profile_id, command, timeout_secs } => profile_id.len() > 0
            && command.len() > 0 && byte_len(command) <= 65536 && 1 <= timeout_secs <= 300,
        CallView::ContainerAction { profile_id, container, action } => profile_id.len() > 0
            && container.len() > 0 && is_container_action(action),
        CallView::SetSiteEnabled { profile_id, domain, .. } => profile_id.len() > 0
            && domain.len() > 0,
    }
}

/// Every call that is made is within its limits.
pub proof fn law_calls_are_within_their_limits(method: Seq<char>, params: JsonView)
    ensures
        planned(method, params) matches Ok(call) ==> within_limits(call),
{
}

/// A call says what it holds, each thing in its own place.
pub proof fn law_calls_say_what_they_hold(call: BrokerCall, plan: Result<BrokerCall, String>)
    ensures
        call is ListServers <==> call@ is ListServers,
        call matches BrokerCall::Ask { profile_id, query } ==> call@ == (CallView::Ask {
            profile_id: profile_id@,
            query,
        }),
        call matches BrokerCall::ContainerLogs { profile_id, container, lines } ==> call@ == (
        CallView::ContainerLogs {
            profile_id: profile_id@,
            container: container@,
            lines: lines as nat,
        }),
        call matches BrokerCall::ReadFile { profile_id, path, max_bytes } ==> call@ == (
        CallView::ReadFile {
            profile_id: profile_id@,
            path: path@,
            max_bytes: max_bytes as nat,
        }),
        call matches BrokerCall::WriteFile { profile_id, path, content } ==> call@ == (
        CallView::WriteFile { profile_id: profile_id@, path: path@, content: content@ }),
        call matches BrokerCall::RunCommand { profile_id, command, timeout_secs } ==> call@ == (
        CallView::RunCommand {
            profile_id: profile_id@,
            command: command@,
            timeout_secs: timeout_secs as nat,
        }),
        call matches BrokerCall::RunPrivileged { profile_id, command, timeout_secs } ==> call@ == (
        CallView::RunPrivileged {
            profile_id: profile_id@,
            command: command@,
            timeout_secs: timeout_secs as nat,
        }),
        call matches BrokerCall::ContainerAction { profile_id, container, action } ==> call@ == (
        CallView::ContainerAction {
            profile_id: profile_id@,
            container: container@,
            action: action@,
        }),
        call matches BrokerCall::SetSiteEnabled { profile_id, domain, enabled } ==> call@ == (
        CallView::SetSiteEnabled { profile_id: profile_id@, domain: domain@, enabled }),
        plan matches Ok(made) ==> plan_view(plan) == Ok::<CallView, Seq<char>>(made@),
        plan matches Err(message) ==> plan_view(plan) == Err::<CallView, Seq<char>>(message@),
{
}

} // verus!
