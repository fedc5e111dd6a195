//! What a request asks for: which parameters make which call, told from the parameters alone, and
//! which access it takes to be let through to a server.

use crate::access::{
    access_outcome, is_first_profile, law_access_goes_by_what_is_stored, may_be_managed,
    may_be_read, may_be_root, AccessSnapshot, PermissionLevel,
};
use crate::broker::{first_step, EventView};
use crate::calls::{planned, CallView, Query};
use crate::dispatch::{
    actions_of, changes, dispatched, is_reached, law_read_access_changes_nothing, servers_answer,
    DispatchView,
};
use crate::escalation::escalates;
use crate::json::JsonView;
use crate::limits::byte_len;
use crate::sessions::SshSession;
use crate::text::decimal;
use crate::tools::{lemma_methods_differ, methods};
use vstd::prelude::*;

verus! {

/// Whether a request gives a text that is not empty under a name.
pub open spec fn gives_text(params: JsonView, name: Seq<char>, text: Seq<char>) -> bool {
    params.field(name) == Some(JsonView::Text(text)) && text.len() > 0
}

/// Whether a request gives no text under a name, or an empty one.
pub open spec fn lacks_text(params: JsonView, name: Seq<char>) -> bool {
    forall|text: Seq<char>| !#[trigger] gives_text(params, name, text)
}

/// Whether a request comes to a number under a name: a default where it says nothing, and
/// otherwise the integer that it gives, which is at least one and at most a maximum.
pub open spec fn comes_to_number(
    params: JsonView,
    name: Seq<char>,
    default: nat,
    max: nat,
    n: nat,
) -> bool {
    match params.field(name) {
        None => n == default,
        Some(JsonView::Int(given)) => given == n && 1 <= n <= max,
        _ => false,
    }
}

/// Whether a text is an absolute path of at most 4096 bytes without the zero character.
pub open spec fn is_path(path: Seq<char>) -> bool {
    &&& path.len() > 0 && path[0] == '/'
    &&& forall|i: int| 0 <= i < path.len() ==> #[trigger] path[i] != '\0'
    &&& byte_len(path) <= 4096
}

/// Whether a text is a command of at most 65536 bytes without the zero character.
pub open spec fn is_command(command: Seq<char>) -> bool {
    &&& forall|i: int| 0 <= i < command.len() ==> #[trigger] command[i] != '\0'
    &&& byte_len(command) <= 65536
}

proof fn lemma_lacks_text(params: JsonView, name: Seq<char>)
    ensures
        lacks_text(params, name) <==> !(params.text_field(name) matches Some(text) && text.len()
            > 0),
{
    if let Some(text) = params.text_field(name) {
        if text.len() > 0 {
            assert(gives_text(params, name, text));
        }
    }
}

proof fn lemma_is_path(path: Seq<char>)
    ensures
        is_path(path) == crate::params::is_remote_path(path),
{
    if path.contains('\0') {
        let i = choose|i: int| 0 <= i < path.len() && path[i] == '\0';
        assert(path[i] == '\0');
    }
    if !path.contains('\0') {
        assert forall|i: int| 0 <= i < path.len() implies #[trigger] path[i] != '\0' by {
            assert(path.contains(path[i]));
        }
    }
}

proof fn lemma_is_command(command: Seq<char>)
    ensures
        is_command(command) == !(command.contains('\0') || byte_len(command) > 65536),
{
    if command.contains('\0') {
        let i = choose|i: int| 0 <= i < command.len() && command[i] == '\0';
        assert(command[i] == '\0');
    }
    if !command.contains('\0') {
        assert forall|i: int| 0 <= i < command.len() implies #[trigger] command[i] != '\0' by {
            assert(command.contains(command[i]));
        }
    }
}

proof fn lemma_methods()
    ensures
        methods().len() == 15,
        methods()[0] == "list_servers"@,
        methods()[1] == "get_server_status"@,
        methods()[2] == "get_services"@,
        methods()[3] == "get_nginx_status"@,
        methods()[4] == "get_container_runtime"@,
        methods()[5] == "list_containers"@,
        methods()[6] == "get_container_logs"@,
        methods()[7] == "read_file"@,
        methods()[8] == "write_file"@,
        methods()[9] == "run_command"@,
        methods()[10] == "run_privileged_command"@,
        methods()[11] == "run_container_action"@,
        methods()[12] == "list_images"@,
        methods()[13] == "list_sites"@,
        methods()[14] == "set_site_enabled"@,
        forall|i: int, j: int|
            0 <= i < j < methods().len() ==> #[trigger] methods()[i] != #[trigger] methods()[j],
{
    lemma_methods_differ();
}

/// A request asks a question about a server exactly where its method is that question and it
/// names a profile, and it is then about that profile.
pub proof fn law_questions_are_asked_of_the_profile(params: JsonView, profile_id: Seq<char>)
    ensures
        planned("list_servers"@, params) == Ok::<CallView, Seq<char>>(CallView::ListServers),
        gives_text(params, "profile_id"@, profile_id) ==> {
            &&& planned("get_server_status"@, params) == Ok::<CallView, Seq<char>>(
                CallView::Ask { profile_id, query: Query::ServerStatus },
            )
            &&& planned("get_services"@, params) == Ok::<CallView, Seq<char>>(
                CallView::Ask { profile_id, query: Query::Services },
            )
            &&& planned("get_nginx_status"@, params) == Ok::<CallView, Seq<char>>(
                CallView::Ask { profile_id, query: Query::NginxStatus },
            )
            &&& planned("get_container_runtime"@, params) == Ok::<CallView, Seq<char>>(
                CallView::Ask { profile_id, query: Query::ContainerRuntime },
            )
            &&& planned("list_containers"@, params) == Ok::<CallView, Seq<char>>(
                CallView::Ask { profile_id, query: Query::Containers },
            )
            &&& planned("list_images"@, params) == Ok::<CallView, Seq<char>>(
                CallView::Ask { profile_id, query: Query::Images },
            )
            &&& planned("list_sites"@, params) == Ok::<CallView, Seq<char>>(
                CallView::Ask { profile_id, query: Query::Sites },
            )
        },
{
    lemma_methods();
}

/// A request with a method that acts on a server is refused where it names no profile, and one
/// with any other method but the list of servers is refused by its method.
pub proof fn law_other_requests_are_refused(method: Seq<char>, params: JsonView)
    requires
        method != "list_servers"@,
    ensures
        methods().contains(method) && lacks_text(params, "profile_id"@) ==> planned(method, params)
            == Err::<CallView, Seq<char>>("Missing string parameter: "@ + "profile_id"@),
        !methods().contains(method) ==> planned(method, params) == Err::<CallView, Seq<char>>(
            "Unsupported LeePanel broker method: "@ + method,
        ),
{
    lemma_methods();
    lemma_lacks_text(params, "profile_id"@);
    if methods().contains(method) {
        let i = choose|i: int| 0 <= i < methods().len() && methods()[i] == method;
        assert(i > 0);
    } else {
        assert forall|i: int| 0 <= i < 15 implies #[trigger] methods()[i] != method by {
            assert(methods().contains(methods()[i]));
        }
    }
}

/// A request for the log of a container names the container, and the lines that it wants or
/// leaves to be 200, at most 1000.
pub proof fn law_log_requests_say_what_they_want(
    params: JsonView,
    profile_id: Seq<char>,
    container: Seq<char>,
    lines: nat,
)
    ensures
        planned("get_container_logs"@, params) == Ok::<CallView, Seq<char>>(
            CallView::ContainerLogs { profile_id, container, lines },
        ) <==> gives_text(params, "profile_id"@, profile_id) && gives_text(
            params,
            "container"@,
            container,
        ) && comes_to_number(params, "lines"@, 200, 1000, lines),
        planned("get_container_logs"@, params) matches Ok(call) ==> call is ContainerLogs,
{
    lemma_methods();
}

/// A request to read a file names an absolute path, and the bytes that it wants or leaves to be
/// 65536, at most 131072.
pub proof fn law_read_requests_say_what_they_want(
    params: JsonView,
    profile_id: Seq<char>,
    path: Seq<char>,
    max_bytes: nat,
)
    ensures
        planned("read_file"@, params) == Ok::<CallView, Seq<char>>(
            CallView::ReadFile { profile_id, path, max_bytes },
        ) <==> gives_text(params, "profile_id"@, profile_id) && gives_text(params, "path"@, path)
            && is_path(path) && comes_to_number(params, "max_bytes"@, 65536, 131072, max_bytes),
        planned("read_file"@, params) matches Ok(call) ==> call is ReadFile,
{
    lemma_methods();
    lemma_is_path(path);
}

/// A request to write a file names an absolute path and gives the content, which may be empty and
/// takes at most 131072 bytes.
pub proof fn law_write_requests_say_what_they_want(
    params: JsonView,
    profile_id: Seq<char>,
    path: Seq<char>,
    content: Seq<char>,
)
    ensures
        planned("write_file"@, params) == Ok::<CallView, Seq<char>>(
            CallView::WriteFile { profile_id, path, content },
        ) <==> gives_text(params, "profile_id"@, profile_id) && gives_text(params, "path"@, path)
            && is_path(path) && params.field("content"@) == Some(JsonView::Text(content))
            && byte_len(content) <= 131072,
        planned("write_file"@, params) matches Ok(call) ==> call is WriteFile,
{
    lemma_methods();
    lemma_is_path(path);
}

/// A request to run a command gives the command, which raises no privileges, and the seconds that
/// it may take or leaves them to be 60, at most 300.
pub proof fn law_command_requests_say_what_they_want(
    params: JsonView,
    profile_id: Seq<char>,
    command: Seq<char>,
    timeout_secs: nat,
)
    ensures
        planned("run_command"@, params) == Ok::<CallView, Seq<char>>(
            CallView::RunCommand { profile_id, command, timeout_secs },
        ) <==> gives_text(params, "profile_id"@, profile_id) && gives_text(
            params,
            "command"@,
            command,
        ) && is_command(command) && !escalates(command) && comes_to_number(
            params,
            "timeout_seconds"@,
            60,
            300,
            timeout_secs,
        ),
        planned("run_command"@, params) matches Ok(call) ==> call is RunCommand,
{
    lemma_methods();
    lemma_is_command(command);
}

/// A request to run a command as root gives the command, and the seconds that it may take or
/// leaves them to be 60, at most 300.
pub proof fn law_privileged_requests_say_what_they_want(
    params: JsonView,
    profile_id: Seq<char>,
    command: Seq<char>,
    timeout_secs: nat,
)
    ensures
        planned("run_privileged_command"@, params) == Ok::<CallView, Seq<char>>(
            CallView::RunPrivileged { profile_id, command, timeout_secs },
        ) <==> gives_text(params, "profile_id"@, profile_id) && gives_text(
            params,
            "command"@,
            command,
        ) && is_command(command) && comes_to_number(
            params,
            "timeout_seconds"@,
            60,
            300,
            timeout_secs,
        ),
        planned("run_privileged_command"@, params) matches Ok(call) ==> call is RunPrivileged,
{
    lemma_methods();
    lemma_is_command(command);
}

/// A request to act on a container names the container, and one of the three actions.
pub proof fn law_container_requests_say_what_they_want(
    params: JsonView,
    profile_id: Seq<char>,
    container: Seq<char>,
    action: Seq<char>,
)
    ensures
        planned("run_container_action"@, params) == Ok::<CallView, Seq<char>>(
            CallView::ContainerAction { profile_id, container, action },
        ) <==> gives_text(params, "profile_id"@, profile_id) && gives_text(
            params,
            "container"@,
            container,
        ) && gives_text(params, "action"@, action) && (action == "start"@ || action == "stop"@
            || action == "restart"@),
        planned("run_container_action"@, params) matches Ok(call) ==> call is ContainerAction,
{
    lemma_methods();
}

/// A request to enable or disable a site names its domain and says which.
pub proof fn law_site_requests_say_what_they_want(
    params: JsonView,
    profile_id: Seq<char>,
    domain: Seq<char>,
    enabled: bool,
)
    ensures
        planned("set_site_enabled"@, params) == Ok::<CallView, Seq<char>>(
            CallView::SetSiteEnabled { profile_id, domain, enabled },
        ) <==> gives_text(params, "profile_id"@, profile_id) && gives_text(
            params,
            "domain"@,
            domain,
        ) && params.field("enabled"@) == Some(JsonView::Bool(enabled)),
        planned("set_site_enabled"@, params) matches Ok(call) ==> call is SetSiteEnabled,
{
    lemma_methods();
}

/// Every number that is printed is the one that is meant.
proof fn lemma_limits_printed()
    ensures
        decimal(300) == "300"@,
        decimal(1000) == "1000"@,
        decimal(131072) == "131072"@,
{
    reveal_with_fuel(decimal, 8);
    reveal_strlit("300");
    reveal_strlit("1000");
    reveal_strlit("131072");
    assert(decimal(3) =~= seq!['3']);
    assert(decimal(30) =~= seq!['3', '0']);
    assert(decimal(300) =~= "300"@);
    assert(decimal(1) =~= seq!['1']);
    assert(decimal(10) =~= seq!['1', '0']);
    assert(decimal(100) =~= seq!['1', '0', '0']);
    assert(decimal(1000) =~= "1000"@);
    assert(decimal(13) =~= seq!['1', '3']);
    assert(decimal(131) =~= seq!['1', '3', '1']);
    assert(decimal(1310) =~= seq!['1', '3', '1', '0']);
    assert(decimal(13107) =~= seq!['1', '3', '1', '0', '7']);
    assert(decimal(131072) =~= "131072"@);
}

/// Whether no number can come of a request under a name.
pub open spec fn comes_to_no_number(
    params: JsonView,
    name: Seq<char>,
    default: nat,
    max: nat,
) -> bool {
    forall|n: nat| !#[trigger] comes_to_number(params, name, default, max, n)
}

proof fn lemma_comes_to_no_number(params: JsonView, name: Seq<char>, default: nat, max: nat)
    requires
        comes_to_no_number(params, name, default, max),
        max <= u64::MAX,
    ensures
        crate::params::number_param(params, name, default, max) is Err,
{
    assert(!comes_to_number(params, name, default, max, default));
    if let Some(JsonView::Int(given)) = params.field(name) {
        if 1 <= given <= max {
            assert(comes_to_number(params, name, default, max, given as nat));
        }
    }
}

/// A request that names its profile but says something else wrong is told what: the first
/// parameter that is missing or out of its limits.
pub proof fn law_wrong_parameters_are_named(
    params: JsonView,
    profile_id: Seq<char>,
    text: Seq<char>,
)
    requires
        gives_text(params, "profile_id"@, profile_id),
    ensures
        lacks_text(params, "container"@) ==> {
            let message = Err::<CallView, Seq<char>>("Missing string parameter: "@ + "container"@);
            planned("get_container_logs"@, params) == message && planned(
                "run_container_action"@,
                params,
            ) == message
        },
        lacks_text(params, "path"@) ==> {
            let message = Err::<CallView, Seq<char>>("Missing string parameter: "@ + "path"@);
            planned("read_file"@, params) == message && planned("write_file"@, params) == message
        },
        gives_text(params, "path"@, text) && !is_path(text) ==> {
            let message = Err::<CallView, Seq<char>>(
                "Parameter path must be an absolute remote path up to 4096 bytes"@,
            );
            planned("read_file"@, params) == message && planned("write_file"@, params) == message
        },
        lacks_text(params, "command"@) ==> {
            let message = Err::<CallView, Seq<char>>("Missing string parameter: "@ + "command"@);
            planned("run_command"@, params) == message && planned("run_privileged_command"@, params)
                == message
        },
        gives_text(params, "command"@, text) && !is_command(text) ==> {
            let message = Err::<CallView, Seq<char>>(
                "Parameter command exceeds the 65536 byte MCP limit"@,
            );
            planned("run_command"@, params) == message && planned("run_privileged_command"@, params)
                == message
        },
        gives_text(params, "command"@, text) && is_command(text) && escalates(text) ==> planned(
            "run_command"@,
            params,
        ) == Err::<CallView, Seq<char>>(
            "Privilege escalation is not allowed with management access. Use the privileged command tool with system access."@,
        ),
        gives_text(params, "command"@, text) && is_command(text) && comes_to_no_number(
            params,
            "timeout_seconds"@,
            60,
            300,
        ) ==> {
            let message = Err::<CallView, Seq<char>>(
                "Parameter "@ + "timeout_seconds"@ + " must be an integer between 1 and "@
                    + "300"@,
            );
            planned("run_privileged_command"@, params) == message && (!escalates(text)
                ==> planned("run_command"@, params) == message)
        },
        lacks_text(params, "domain"@) ==> planned("set_site_enabled"@, params) == Err::<
            CallView,
            Seq<char>,
        >("Missing string parameter: "@ + "domain"@),
        gives_text(params, "domain"@, text) && !(params.field("enabled"@) matches Some(
            JsonView::Bool(_),
        )) ==> planned("set_site_enabled"@, params) == Err::<CallView, Seq<char>>(
            "Missing boolean parameter: enabled"@,
        ),
        gives_text(params, "path"@, text) && is_path(text) ==> {
            &&& comes_to_no_number(params, "max_bytes"@, 65536, 131072) ==> planned(
                "read_file"@,
                params,
            ) == Err::<CallView, Seq<char>>(
                "Parameter "@ + "max_bytes"@ + " must be an integer between 1 and "@
                    + "131072"@,
            )
            &&& !(params.field("content"@) matches Some(JsonView::Text(_))) ==> planned(
                "write_file"@,
                params,
            ) == Err::<CallView, Seq<char>>("Missing string parameter: content"@)
            &&& params.field("content"@) matches Some(JsonView::Text(content)) ==> (byte_len(
                content,
            ) > 131072 ==> planned("write_file"@, params) == Err::<CallView, Seq<char>>(
                "File content exceeds the 131072 byte MCP limit"@,
            ))
        },
        gives_text(params, "container"@, text) ==> {
            &&& comes_to_no_number(params, "lines"@, 200, 1000) ==> planned(
                "get_container_logs"@,
                params,
            ) == Err::<CallView, Seq<char>>(
                "Parameter "@ + "lines"@ + " must be an integer between 1 and "@ + "1000"@,
            )
            &&& lacks_text(params, "action"@) ==> planned("run_container_action"@, params) == Err::<
                CallView,
                Seq<char>,
            >("Missing string parameter: "@ + "action"@)
            &&& params.field("action"@) matches Some(JsonView::Text(action)) ==> (action.len() > 0
                && action != "start"@ && action != "stop"@ && action != "restart"@ ==> planned(
                "run_container_action"@,
                params,
            ) == Err::<CallView, Seq<char>>(
                "Parameter action must be one of: start, stop, restart"@,
            ))
        },
{
    lemma_methods();
    lemma_limits_printed();
    lemma_lacks_text(params, "container"@);
    lemma_lacks_text(params, "path"@);
    lemma_lacks_text(params, "command"@);
    lemma_lacks_text(params, "domain"@);
    lemma_lacks_text(params, "action"@);
    lemma_is_path(text);
    lemma_is_command(text);
    if comes_to_no_number(params, "timeout_seconds"@, 60, 300) {
        lemma_comes_to_no_number(params, "timeout_seconds"@, 60, 300);
    }
    if comes_to_no_number(params, "max_bytes"@, 65536, 131072) {
        lemma_comes_to_no_number(params, "max_bytes"@, 65536, 131072);
    }
    if comes_to_no_number(params, "lines"@, 200, 1000) {
        lemma_comes_to_no_number(params, "lines"@, 200, 1000);
    }
}

/// A call acts on the profile that its request names; the list of servers names none.
pub proof fn law_calls_act_on_the_named_profile(method: Seq<char>, params: JsonView)
    ensures
        planned(method, params) matches Ok(call) ==> {
            if method == "list_servers"@ {
                call.profile() is None && call == CallView::ListServers
            } else {
                call.profile() matches Some(profile_id) && gives_text(
                    params,
                    "profile_id"@,
                    profile_id,
                )
            }
        },
{
}

/// What a call needs fits what it does: every call needs at least read access; a call that
/// changes something, whatever comes of its actions, needs more; and system access is needed
/// exactly by commands that run as root.
pub proof fn law_access_fits_the_call(call: CallView, events: Seq<EventView>, place: int)
    ensures
        call.level() != PermissionLevel::Denied,
        0 <= place < actions_of(call, events).len() && changes(actions_of(call, events)[place])
            ==> call.level() == PermissionLevel::Manage || call.level() == PermissionLevel::System,
        call.level() == PermissionLevel::System <==> call is RunPrivileged,
        call is ListServers || call is Ask || call is ContainerLogs || call is ReadFile
            ==> call.level() == PermissionLevel::Read,
        call is WriteFile || call is RunCommand || call is ContainerAction || call is SetSiteEnabled
            ==> call.level() == PermissionLevel::Manage,
{
    if 0 <= place < actions_of(call, events).len() && call.level() == PermissionLevel::Read {
        law_read_access_changes_nothing(call, events, place);
    }
}

/// A request begins its call on a server exactly where its parameters make a call, tool access is
/// switched on, its profile is saved, what is stored for that profile goes far enough, and the
/// server of the profile is connected. It begins with the first step of that call.
pub proof fn law_requests_begin_their_calls<H>(
    access: AccessSnapshot,
    sessions: Map<Seq<char>, SshSession<H>>,
    method: Seq<char>,
    params: JsonView,
    call: CallView,
    profile_id: Seq<char>,
    index: int,
)
    requires
        planned(method, params) == Ok::<CallView, Seq<char>>(call),
        call.profile() == Some(profile_id),
        is_first_profile(access.profiles@, profile_id, index),
    ensures
        ({
            let outcome = dispatched(access, sessions, method, params);
            let profile = access.profiles@[index];
            let on = access.enabled is Some && access.enabled->0@ == "true"@;
            let needs_more = !(call is Ask || call is ContainerLogs || call is ReadFile);
            let allowed = {
                &&& may_be_read(access.permissions@, profile_id)
                &&& needs_more ==> may_be_managed(access.permissions@, profile_id)
                &&& needs_more && profile.username@ == "root"@ ==> may_be_root(
                    access.permissions@,
                    profile_id,
                )
                &&& call is RunPrivileged ==> may_be_root(access.permissions@, profile_id)
            };
            &&& outcome is Ok <==> on && allowed && is_reached(sessions, profile)
            &&& outcome matches Ok(begun) ==> (begun matches DispatchView::Act {
                progress,
                action,
            } && first_step(call) == Some((progress, action)))
            &&& on && allowed && !is_reached(sessions, profile) ==> outcome == Err::<
                DispatchView,
                Seq<char>,
            >("Server '"@ + profile.name@ + "' is not connected in LeePanel"@)
            &&& !(on && allowed) ==> outcome is Err && access_outcome(
                access,
                profile_id,
                call.level(),
            ) is Err && outcome->Err_0 == access_outcome(
                access,
                profile_id,
                call.level(),
            )->Err_0
        }),
{
    law_access_goes_by_what_is_stored(access, profile_id, call.level(), index);
    law_access_fits_the_call(call, Seq::empty(), 0);
    let profile = access.profiles@[index];
    crate::dispatch::lemma_reached(sessions, profile);
    crate::access::law_refusal_tells_the_reason(access, profile_id, call.level(), index);
}

/// A request that makes no call is answered with what is wrong with it, and one for a profile
/// that is not saved with that, where tool access is switched on; the list of servers is given
/// wherever tool access is switched on.
pub proof fn law_other_requests_are_answered<H>(
    access: AccessSnapshot,
    sessions: Map<Seq<char>, SshSession<H>>,
    method: Seq<char>,
    params: JsonView,
)
    ensures
        ({
            let outcome = dispatched(access, sessions, method, params);
            let on = access.enabled is Some && access.enabled->0@ == "true"@;
            match planned(method, params) {
                Err(message) => outcome == Err::<DispatchView, Seq<char>>(message),
                Ok(CallView::ListServers) => outcome == if on {
                    Ok::<DispatchView, Seq<char>>(
                        DispatchView::Answer(
                            JsonView::Array(
                                servers_answer(access.profiles@, access.permissions@, sessions),
                            ),
                        ),
                    )
                } else {
                    Err(
                        "LeePanel MCP is disabled. Enable it in MCP / AI Integration settings."@,
                    )
                },
                Ok(call) => on && (forall|index: int|
                    !#[trigger] is_first_profile(access.profiles@, call.profile()->0, index))
                    ==> outcome == Err::<DispatchView, Seq<char>>(
                    "LeePanel server profile not found: "@ + call.profile()->0,
                ),
            }
        }),
{
    if let Ok(call) = planned(method, params) {
        if call.profile() is Some {
            let profile_id = call.profile()->0;
            if crate::access::has_profile(access.profiles@, profile_id) {
                crate::access::lemma_profile_has_first(access.profiles@, profile_id);
            }
        }
    }
}

} // verus!
