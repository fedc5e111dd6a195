//! How the broker takes up a request: the call is read, checked against the stored access, and
//! brought to the open connection of its server.

use crate::access::{
    access_outcome, authorize, authorized, disabled_message, has_access, law_check_lets_through,
    law_level_is_the_stored_one, level_of, may_be_read, mcp_enabled, stored_view, switched_on, AccessSnapshot, PermissionLevel, ServerProfile,
};
use crate::broker::{
    answers, begin, first_step, next_step, EventView, Progress, ServerAction, StepView,
};
use crate::calls::{plan_broker_request, planned, CallView};
use crate::commands::elevated_line;
use crate::escalation::escalates;
use crate::json::{outcome_view, Json, JsonView};
use crate::sessions::{connected, reaches, SshManager, SshSession};
use crate::text::cat3;
use vstd::prelude::*;

verus! {

/// What is told of a saved server: nothing that lets anyone log in.
pub open spec fn server_answer(profile: ServerProfile, is_connected: bool) -> JsonView {
    JsonView::Object(
        map![
            "profile_id"@ => JsonView::Text(profile.id@),
            "name"@ => JsonView::Text(profile.name@),
            "host"@ => JsonView::Text(profile.host@),
            "port"@ => JsonView::Int(profile.port as int),
            "username"@ => JsonView::Text(profile.username@),
            "auth_type"@ => JsonView::Text(profile.auth_type@),
            "connected"@ => JsonView::Bool(is_connected),
        ],
    )
}

fn server_value(profile: &ServerProfile, is_connected: bool) -> (value: Json)
    ensures
        value@ == server_answer(*profile, is_connected),
{
    Json::object().with("profile_id", Json::text(profile.id.as_str())).with(
        "name",
        Json::text(profile.name.as_str()),
    ).with("host", Json::text(profile.host.as_str())).with(
        "port",
        Json::Unsigned(profile.port as u64),
    ).with("username", Json::text(profile.username.as_str())).with(
        "auth_type",
        Json::text(profile.auth_type.as_str()),
    ).with("connected", Json::Bool(is_connected))
}

/// Whether the server of a profile is connected.
pub open spec fn profile_connected<H>(
    sessions: Map<Seq<char>, SshSession<H>>,
    profile: ServerProfile,
) -> bool {
    connected(sessions, profile.host@, profile.port, profile.username@)
}

/// Whether a profile may at least be read.
pub open spec fn readable(permissions: Seq<(String, String)>, profile: ServerProfile) -> bool {
    level_of(permissions, profile.id@).rank() >= PermissionLevel::Read.rank()
}

/// What is told of the saved servers that may be read, in their order.
pub open spec fn servers_answer<H>(
    profiles: Seq<ServerProfile>,
    permissions: Seq<(String, String)>,
    sessions: Map<Seq<char>, SshSession<H>>,
) -> Seq<JsonView>
    decreases profiles.len(),
{
    if profiles.len() == 0 {
        Seq::empty()
    } else {
        let before = servers_answer(profiles.drop_last(), permissions, sessions);
        let profile = profiles.last();
        if readable(permissions, profile) {
            before.push(server_answer(profile, profile_connected(sessions, profile)))
        } else {
            before
        }
    }
}

/// What is told of the saved servers that may be read, in their order.
pub fn list_servers<H>(access: &AccessSnapshot, manager: &SshManager<H>) -> (outcome: Result<
    Json,
    String,
>)
    requires
        manager.well_formed(),
    ensures
        outcome_view(outcome) == if switched_on(stored_view(access.enabled)) {
            Ok::<JsonView, Seq<char>>(
                JsonView::Array(
                    servers_answer(
                        access.profiles@,
                        access.permissions@,
                        manager.sessions@,
                    ),
                ),
            )
        } else {
            Err(disabled_message())
        },
{
    if !mcp_enabled(&access.enabled) {
        return Err(
            "LeePanel MCP is disabled. Enable it in MCP / AI Integration settings.".to_owned(),
        );
    }
    let mut servers = Json::array();
    let mut i: usize = 0;
    while i < access.profiles.len()
        invariant
            i <= access.profiles@.len(),
            manager.well_formed(),
            servers@ == JsonView::Array(
                servers_answer(
                    access.profiles@.take(i as int),
                    access.permissions@,
                    manager.sessions@,
                ),
            ),
        decreases access.profiles@.len() - i,
    {
        let profile = &access.profiles[i];
        assert(access.profiles@.take(i + 1).drop_last() == access.profiles@.take(i as int));
        if has_access(&access.permissions, profile.id.as_str(), PermissionLevel::Read) {
            let session_id = manager.find_session_id(
                profile.host.as_str(),
                profile.port,
                profile.username.as_str(),
            );
            servers = servers.and(server_value(profile, session_id.is_some()));
        }
        i += 1;
    }
    assert(access.profiles@.take(access.profiles@.len() as int) == access.profiles@);
    Ok(servers)
}

/// The answer to a call on a server that is not connected.
pub open spec fn not_connected_message(name: Seq<char>) -> Seq<char> {
    "Server '"@ + name + "' is not connected in LeePanel"@
}

/// Whether a call may act on the server of a profile, or the answer that refuses it.
pub open spec fn entry_outcome<H>(
    access: AccessSnapshot,
    sessions: Map<Seq<char>, SshSession<H>>,
    profile_id: Seq<char>,
    required: PermissionLevel,
) -> Result<int, Seq<char>> {
    match access_outcome(access, profile_id, required) {
        Err(message) => Err(message),
        Ok(index) => if profile_connected(sessions, access.profiles@[index]) {
            Ok(index)
        } else {
            Err(not_connected_message(access.profiles@[index].name@))
        },
    }
}

/// Whether an open connection reaches the server of a profile.
pub open spec fn reaches_profile<H>(session: SshSession<H>, profile: ServerProfile) -> bool {
    reaches(session.connect_info, profile.host@, profile.port, profile.username@)
}

/// Finds the open connection to the server of a profile, for a call that may act there.
pub fn active_session<'a, H>(
    access: &AccessSnapshot,
    manager: &'a SshManager<H>,
    profile_id: &str,
    required: PermissionLevel,
) -> (outcome: Result<(&'a SshSession<H>, String), String>)
    requires
        manager.well_formed(),
    ensures
        match outcome {
            Ok((session, session_id)) => {
                let entry = entry_outcome(*access, manager.sessions@, profile_id@, required);
                &&& entry is Ok
                &&& manager.sessions@.dom().contains(session_id@)
                &&& *session == manager.sessions@[session_id@]
                &&& reaches_profile(*session, access.profiles@[entry->Ok_0])
            },
            Err(message) => entry_outcome(*access, manager.sessions@, profile_id@, required)
                == Err::<int, Seq<char>>(message@),
        },
{
    let index: usize = match authorize(access, profile_id, required) {
        Ok(index) => index,
        Err(message) => return Err(message),
    };
    let profile = &access.profiles[index];
    match manager.find_session_id(profile.host.as_str(), profile.port, profile.username.as_str()) {
        Some(session_id) => match manager.get_session(session_id.as_str()) {
            Ok(session) => Ok((session, session_id)),
            Err(message) => Err(message),
        },
        None => Err(cat3("Server '", profile.name.as_str(), "' is not connected in LeePanel")),
    }
}

/// How a request is taken up: it is answered at once, or it begins with an action on a server.
#[derive(Debug, PartialEq)]
pub enum Dispatch {
    Answer(Json),
    Act { session_id: String, progress: Progress<String, Json>, action: ServerAction<String> },
}

/// How a request is taken up, whichever connection reaches its server.
pub enum DispatchView {
    Answer(JsonView),
    Act { progress: Progress<Seq<char>, JsonView>, action: ServerAction<Seq<char>> },
}

/// A dispatch as what it says.
pub open spec fn dispatch_view(dispatch: Result<Dispatch, String>) -> Result<
    DispatchView,
    Seq<char>,
> {
    match dispatch {
        Ok(Dispatch::Answer(value)) => Ok(DispatchView::Answer(value@)),
        Ok(Dispatch::Act { progress, action, .. }) => Ok(
            DispatchView::Act { progress: progress@, action: action@ },
        ),
        Err(message) => Err(message@),
    }
}

/// How a call is taken up.
pub open spec fn call_dispatched<H>(
    access: AccessSnapshot,
    sessions: Map<Seq<char>, SshSession<H>>,
    call: CallView,
) -> Result<DispatchView, Seq<char>> {
    match call.profile() {
        None => if switched_on(stored_view(access.enabled)) {
            Ok(
                DispatchView::Answer(
                    JsonView::Array(
                        servers_answer(access.profiles@, access.permissions@, sessions),
                    ),
                ),
            )
        } else {
            Err(disabled_message())
        },
        Some(profile_id) => match entry_outcome(access, sessions, profile_id, call.level()) {
            Err(message) => Err(message),
            Ok(_) => {
                let (progress, action) = first_step(call)->0;
                Ok(DispatchView::Act { progress, action })
            },
        },
    }
}

/// How a request is taken up: what is wrong with it is answered before what may not be done.
pub open spec fn dispatched<H>(
    access: AccessSnapshot,
    sessions: Map<Seq<char>, SshSession<H>>,
    method: Seq<char>,
    params: JsonView,
) -> Result<DispatchView, Seq<char>> {
    match planned(method, params) {
        Err(message) => Err(message),
        Ok(call) => call_dispatched(access, sessions, call),
    }
}

/// Takes up a request.
pub fn dispatch_broker_request<H>(
    access: &AccessSnapshot,
    manager: &SshManager<H>,
    method: &str,
    params: &Json,
) -> (dispatch: Result<Dispatch, String>)
    requires
        manager.well_formed(),
    ensures
        dispatch_view(dispatch) == dispatched(*access, manager.sessions@, method@, params@),
        dispatch matches Ok(Dispatch::Act { session_id, .. }) ==> {
            let call = planned(method@, params@)->Ok_0;
            let entry = entry_outcome(
                *access,
                manager.sessions@,
                call.profile()->0,
                call.level(),
            );
            &&& manager.sessions@.dom().contains(session_id@)
            &&& reaches_profile(
                manager.sessions@[session_id@],
                access.profiles@[entry->Ok_0],
            )
        },
{
    let call = match plan_broker_request(method, params) {
        Ok(call) => call,
        Err(message) => return Err(message),
    };
    let required = call.required();
    let session_id = match call.profile_id() {
        None => return match list_servers(access, manager) {
            Ok(servers) => Ok(Dispatch::Answer(servers)),
            Err(message) => Err(message),
        },
        Some(profile_id) => match active_session(access, manager, profile_id, required) {
            Ok((_, session_id)) => session_id,
            Err(message) => return Err(message),
        },
    };
    match begin(call) {
        Some((progress, action)) => Ok(Dispatch::Act { session_id, progress, action }),
        None => Ok(Dispatch::Answer(Json::Null)),
    }
}

/// Whether an action changes something on a server, or can.
pub open spec fn changes(action: ServerAction<Seq<char>>) -> bool {
    ||| action is ContainerAction
    ||| action is WriteFile
    ||| action is Execute
    ||| action is ToggleSite
}

/// Whether a call that has come this far belongs to those that only read.
pub open spec fn reading(progress: Progress<Seq<char>, JsonView>) -> bool {
    match progress {
        Progress::Writing { .. } => false,
        Progress::Command => false,
        Progress::ActionContainers { .. } => false,
        Progress::Acting { .. } => false,
        Progress::Acted { .. } => false,
        Progress::SiteList { .. } => false,
        Progress::Toggling { .. } => false,
        _ => true,
    }
}

/// A request reaches a server only where tool access is switched on, and where the stored
/// permission of its profile grants what the call needs there.
pub proof fn law_nothing_is_done_without_access<H>(
    access: AccessSnapshot,
    sessions: Map<Seq<char>, SshSession<H>>,
    method: Seq<char>,
    params: JsonView,
)
    requires
        dispatched(access, sessions, method, params) matches Ok(DispatchView::Act { .. }),
    ensures
        planned(method, params) is Ok,
        planned(method, params)->Ok_0.profile() is Some,
        exists|index: int| #[trigger]
            authorized(
                access,
                planned(method, params)->Ok_0.profile()->0,
                planned(method, params)->Ok_0.level(),
                index,
            ) && profile_connected(sessions, access.profiles@[index]),
{
    let call = planned(method, params)->Ok_0;
    let index = access_outcome(access, call.profile()->0, call.level())->Ok_0;
    law_check_lets_through(access, call.profile()->0, call.level(), index);
}

/// While tool access is switched off, every request is refused.
pub proof fn law_switched_off_refuses_everything<H>(
    access: AccessSnapshot,
    sessions: Map<Seq<char>, SshSession<H>>,
    method: Seq<char>,
    params: JsonView,
)
    requires
        !switched_on(stored_view(access.enabled)),
    ensures
        dispatched(access, sessions, method, params) is Err,
        planned(method, params) is Ok ==> dispatched(access, sessions, method, params) == Err::<
            DispatchView,
            Seq<char>,
        >(disabled_message()),
{
}

proof fn lemma_reading_begins(call: CallView)
    requires
        call.level() == PermissionLevel::Read,
        call.profile() is Some,
    ensures
        first_step(call) matches Some((progress, action)) && !changes(action) && reading(progress),
{
}

proof fn lemma_reading_goes_on(progress: Progress<Seq<char>, JsonView>, event: EventView)
    requires
        reading(progress),
        answers(progress, event),
    ensures
        next_step(progress, event) matches StepView::Act { progress: next, action } ==> reading(
            next,
        ) && !changes(action),
{
}

/// The actions of a call from an action on, as far as events come of them.
pub open spec fn actions_from(
    progress: Progress<Seq<char>, JsonView>,
    action: ServerAction<Seq<char>>,
    events: Seq<EventView>,
) -> Seq<ServerAction<Seq<char>>>
    decreases events.len(),
{
    if events.len() == 0 || !answers(progress, events[0]) {
        seq![action]
    } else {
        match next_step(progress, events[0]) {
            StepView::Act { progress: next, action: next_action } => seq![action] + actions_from(
                next,
                next_action,
                events.drop_first(),
            ),
            StepView::Done(_) => seq![action],
        }
    }
}

/// The actions of a call, as far as events come of them.
pub open spec fn actions_of(call: CallView, events: Seq<EventView>) -> Seq<
    ServerAction<Seq<char>>,
> {
    match first_step(call) {
        Some((progress, action)) => actions_from(progress, action, events),
        None => Seq::empty(),
    }
}

proof fn lemma_reading_actions(
    progress: Progress<Seq<char>, JsonView>,
    action: ServerAction<Seq<char>>,
    events: Seq<EventView>,
    place: int,
)
    requires
        reading(progress),
        !changes(action),
        0 <= place < actions_from(progress, action, events).len(),
    ensures
        !changes(actions_from(progress, action, events)[place]),
    decreases events.len(),
{
    if events.len() > 0 && answers(progress, events[0]) {
        lemma_reading_goes_on(progress, events[0]);
        if let StepView::Act { progress: next, action: next_action } = next_step(
            progress,
            events[0],
        ) {
            if place > 0 {
                lemma_reading_actions(next, next_action, events.drop_first(), place - 1);
            }
        }
    }
}

/// A call that needs only read access changes nothing on the server, whatever comes of its
/// actions.
pub proof fn law_read_access_changes_nothing(call: CallView, events: Seq<EventView>, place: int)
    requires
        call.level() == PermissionLevel::Read,
        0 <= place < actions_of(call, events).len(),
    ensures
        !changes(actions_of(call, events)[place]),
{
    if call.profile() is Some {
        lemma_reading_begins(call);
        let (progress, action) = first_step(call)->0;
        lemma_reading_actions(progress, action, events, place);
    }
}

proof fn lemma_no_command_follows(
    progress: Progress<Seq<char>, JsonView>,
    action: ServerAction<Seq<char>>,
    events: Seq<EventView>,
    place: int,
)
    requires
        0 < place < actions_from(progress, action, events).len(),
    ensures
        !(actions_from(progress, action, events)[place] is Execute),
    decreases events.len(),
{
    if let StepView::Act { progress: next, action: next_action } = next_step(progress, events[0]) {
        assert(!(next_action is Execute));
        if place > 1 {
            lemma_no_command_follows(next, next_action, events.drop_first(), place - 1);
        } else {
            assert(actions_from(progress, action, events)[1] == actions_from(
                next,
                next_action,
                events.drop_first(),
            )[0]);
        }
    }
}

/// The commands that run on a server are those of the calls that run commands: with management
/// access the command itself, and with system access the command as root.
pub proof fn law_commands_run_as_called(call: CallView, events: Seq<EventView>, place: int)
    requires
        0 <= place < actions_of(call, events).len(),
        actions_of(call, events)[place] is Execute,
    ensures
        match call {
            CallView::RunCommand { command, timeout_secs, .. } => actions_of(call, events)[place]
                == (ServerAction::Execute { command, timeout_secs: timeout_secs as u64 }),
            CallView::RunPrivileged { command, timeout_secs, .. } => actions_of(
                call,
                events,
            )[place] == (ServerAction::Execute {
                command: elevated_line(command),
                timeout_secs: timeout_secs as u64,
            }),
            _ => false,
        },
{
    let (progress, action) = first_step(call)->0;
    if place > 0 {
        lemma_no_command_follows(progress, action, events, place);
    }
    assert(actions_from(progress, action, events)[0] == action);
}

/// How many actions a call that has come this far can still need after the one under way.
pub open spec fn actions_left(progress: Progress<Seq<char>, JsonView>) -> nat {
    match progress {
        Progress::System => 1,
        Progress::Nginx => 2,
        Progress::NginxTest { .. } => 1,
        Progress::LogContainers { .. } => 1,
        Progress::ActionContainers { .. } => 2,
        Progress::Acting { .. } => 1,
        Progress::SiteList { .. } => 1,
        _ => 0,
    }
}

proof fn lemma_actions_left(
    progress: Progress<Seq<char>, JsonView>,
    action: ServerAction<Seq<char>>,
    events: Seq<EventView>,
)
    ensures
        actions_from(progress, action, events).len() <= actions_left(progress) + 1,
    decreases events.len(),
{
    if events.len() > 0 && answers(progress, events[0]) {
        if let StepView::Act { progress: next, action: next_action } = next_step(
            progress,
            events[0],
        ) {
            assert(actions_left(next) < actions_left(progress));
            lemma_actions_left(next, next_action, events.drop_first());
        }
    }
}

/// Every call ends, after three actions at most.
pub proof fn law_calls_end(call: CallView, events: Seq<EventView>)
    ensures
        actions_of(call, events).len() <= 3,
{
    if let Some((progress, action)) = first_step(call) {
        lemma_actions_left(progress, action, events);
    }
}

/// A command that runs with management access names no program that raises privileges.
pub proof fn law_managed_commands_do_not_escalate(method: Seq<char>, params: JsonView)
    ensures
        planned(method, params) matches Ok(CallView::RunCommand { command, .. }) ==> !escalates(
            command,
        ),
{
}

/// What is told of a server are its profile, its address, its account and whether it is
/// connected, and no password or key.
pub proof fn law_no_secret_is_told(profile: ServerProfile, is_connected: bool)
    ensures
        server_answer(profile, is_connected) matches JsonView::Object(entries) && entries.dom()
            =~= set![
            "profile_id"@,
            "name"@,
            "host"@,
            "port"@,
            "username"@,
            "auth_type"@,
            "connected"@,
        ],
{
}

/// The list of servers tells of no profile that may not be read.
pub proof fn law_unreadable_servers_are_not_told<H>(
    profiles: Seq<ServerProfile>,
    permissions: Seq<(String, String)>,
    sessions: Map<Seq<char>, SshSession<H>>,
    entry: int,
)
    requires
        0 <= entry < servers_answer(profiles, permissions, sessions).len(),
    ensures
        exists|index: int|
            0 <= index < profiles.len() && readable(permissions, #[trigger] profiles[index])
                && servers_answer(profiles, permissions, sessions)[entry] == server_answer(
                profiles[index],
                profile_connected(sessions, profiles[index]),
            ),
    decreases profiles.len(),
{
    let last = profiles.last();
    let rest = profiles.drop_last();
    let before = servers_answer(rest, permissions, sessions);
    if entry < before.len() {
        law_unreadable_servers_are_not_told(rest, permissions, sessions, entry);
        let index = choose|index: int|
            0 <= index < rest.len() && readable(permissions, #[trigger] rest[index])
                && before[entry] == server_answer(
                rest[index],
                profile_connected(sessions, rest[index]),
            );
        assert(profiles[index] == rest[index]);
    } else {
        assert(profiles[profiles.len() - 1] == last);
    }
}

/// Whether something is listed in the order of `places`: they are places in a list, each behind
/// the one before it.
pub open spec fn in_order(places: Seq<int>, len: nat) -> bool {
    &&& forall|e: int| 0 <= e < places.len() ==> 0 <= #[trigger] places[e] < len
    &&& forall|e: int, f: int|
        0 <= e < f < places.len() ==> #[trigger] places[e] < #[trigger] places[f]
}

/// The places of the profiles that may be read, in their order.
spec fn readable_places(
    profiles: Seq<ServerProfile>,
    permissions: Seq<(String, String)>,
) -> Seq<int>
    decreases profiles.len(),
{
    if profiles.len() == 0 {
        Seq::empty()
    } else {
        let before = readable_places(profiles.drop_last(), permissions);
        if readable(permissions, profiles.last()) {
            before.push(profiles.len() - 1)
        } else {
            before
        }
    }
}

proof fn lemma_readable_places<H>(
    profiles: Seq<ServerProfile>,
    permissions: Seq<(String, String)>,
    sessions: Map<Seq<char>, SshSession<H>>,
)
    ensures
        ({
            let places = readable_places(profiles, permissions);
            let told = servers_answer(profiles, permissions, sessions);
            &&& places.len() == told.len()
            &&& in_order(places, profiles.len())
            &&& forall|e: int|
                0 <= e < places.len() ==> readable(permissions, profiles[#[trigger] places[e]])
                    && told[e] == server_answer(
                    profiles[places[e]],
                    profile_connected(sessions, profiles[places[e]]),
                )
            &&& forall|i: int|
                0 <= i < profiles.len() && readable(permissions, #[trigger] profiles[i])
                    ==> places.contains(i)
        }),
    decreases profiles.len(),
{
    if profiles.len() > 0 {
        let front = profiles.drop_last();
        let n = profiles.len() - 1;
        lemma_readable_places(front, permissions, sessions);
        let before = readable_places(front, permissions);
        let places = readable_places(profiles, permissions);
        let told = servers_answer(profiles, permissions, sessions);
        let told_before = servers_answer(front, permissions, sessions);
        assert forall|i: int| 0 <= i < n implies front[i] == #[trigger] profiles[i] by {
        }
        assert forall|e: int| 0 <= e < before.len() implies places[e] == #[trigger] before[e]
            && told[e] == told_before[e] by {
        }
        assert forall|e: int| 0 <= e < places.len() implies 0 <= #[trigger] places[e]
            < profiles.len() && readable(permissions, profiles[places[e]]) && told[e]
            == server_answer(
            profiles[places[e]],
            profile_connected(sessions, profiles[places[e]]),
        ) by {
            if e < before.len() {
                assert(0 <= before[e] < front.len());
                assert(front[before[e]] == profiles[before[e]]);
            }
        }
        assert forall|e: int, f: int| 0 <= e < f < places.len() implies #[trigger] places[e]
            < #[trigger] places[f] by {
            assert(0 <= before[e] < front.len());
            if f < before.len() {
                assert(before[e] < before[f]);
            }
        }
        assert forall|i: int|
            0 <= i < profiles.len() && readable(
                permissions,
                #[trigger] profiles[i],
            ) implies places.contains(i) by {
            if i < n {
                assert(front[i] == profiles[i]);
                let e = choose|e: int| 0 <= e < before.len() && before[e] == i;
                assert(places[e] == i);
            } else {
                assert(places[places.len() - 1] == i);
            }
        }
    }
}

/// The list of servers tells of every profile that may be read, once, and in the order of the
/// profiles, and of no other: its entries are those of the profiles at some places, which follow
/// one another, and are the places of all profiles that may be read.
pub proof fn law_readable_servers_are_told_in_order<H>(
    profiles: Seq<ServerProfile>,
    permissions: Seq<(String, String)>,
    sessions: Map<Seq<char>, SshSession<H>>,
)
    ensures
        exists|places: Seq<int>|
            {
                let told = servers_answer(profiles, permissions, sessions);
                &&& places.len() == told.len()
                &&& #[trigger] in_order(places, profiles.len())
                &&& forall|i: int|
                    0 <= i < profiles.len() ==> (may_be_read(permissions, #[trigger] profiles[i].id@)
                        <==> places.contains(i))
                &&& forall|e: int|
                    0 <= e < told.len() ==> tells_server(
                        #[trigger] told[e],
                        profiles[places[e]],
                        is_reached(sessions, profiles[places[e]]),
                    )
            },
{
    lemma_readable_places(profiles, permissions, sessions);
    let places = readable_places(profiles, permissions);
    let told = servers_answer(profiles, permissions, sessions);
    assert forall|i: int| 0 <= i < profiles.len() implies (may_be_read(
        permissions,
        #[trigger] profiles[i].id@,
    ) <==> places.contains(i)) by {
        law_level_is_the_stored_one(permissions, profiles[i].id@);
        if places.contains(i) {
            let e = choose|e: int| 0 <= e < places.len() && places[e] == i;
            assert(readable(permissions, profiles[places[e]]));
        }
    }
    assert forall|e: int| 0 <= e < told.len() implies tells_server(
        #[trigger] told[e],
        profiles[places[e]],
        is_reached(sessions, profiles[places[e]]),
    ) by {
        let profile = profiles[places[e]];
        assert(readable(permissions, profile));
        law_server_is_told_as_saved(profile, profile_connected(sessions, profile));
        lemma_reached(sessions, profile);
    }
    assert(in_order(places, profiles.len()));
}

/// Whether an open connection goes to the host, the port and the account of a profile.
pub open spec fn is_reached<H>(
    sessions: Map<Seq<char>, SshSession<H>>,
    profile: ServerProfile,
) -> bool {
    exists|id: Seq<char>| #[trigger]
        sessions.dom().contains(id) && sessions[id].connect_info.host@ == profile.host@
            && sessions[id].connect_info.port == profile.port
            && sessions[id].connect_info.username@ == profile.username@
}

/// A profile is connected where an open connection goes there.
pub proof fn lemma_reached<H>(sessions: Map<Seq<char>, SshSession<H>>, profile: ServerProfile)
    ensures
        profile_connected(sessions, profile) == is_reached(sessions, profile),
{
}

/// Whether an entry of the list of servers tells of a profile what was saved of it, and whether
/// it is connected.
pub open spec fn tells_server(entry: JsonView, profile: ServerProfile, connected: bool) -> bool {
    &&& entry.text_field("profile_id"@) == Some(profile.id@)
    &&& entry.text_field("name"@) == Some(profile.name@)
    &&& entry.text_field("host"@) == Some(profile.host@)
    &&& entry.field("port"@) == Some(JsonView::Int(profile.port as int))
    &&& entry.text_field("username"@) == Some(profile.username@)
    &&& entry.text_field("auth_type"@) == Some(profile.auth_type@)
    &&& entry.field("connected"@) == Some(JsonView::Bool(connected))
}

/// What is told of a server is what was saved of it, each under its own name.
pub proof fn law_server_is_told_as_saved(profile: ServerProfile, is_connected: bool)
    ensures
        tells_server(server_answer(profile, is_connected), profile, is_connected),
{
    reveal_strlit("profile_id");
    reveal_strlit("name");
    reveal_strlit("host");
    reveal_strlit("port");
    reveal_strlit("username");
    reveal_strlit("auth_type");
    reveal_strlit("connected");
    assert("profile_id"@.len() == 10 && "name"@.len() == 4 && "host"@.len() == 4);
    assert("port"@.len() == 4 && "username"@.len() == 8 && "auth_type"@.len() == 9);
    assert("connected"@.len() == 9);
    assert("name"@[0] == 'n' && "host"@[0] == 'h' && "port"@[0] == 'p');
    assert("auth_type"@[0] == 'a' && "connected"@[0] == 'c');
}

/// A connection reaches the server of a profile exactly where it goes to its host and its port
/// with its account.
pub proof fn law_reaching_a_profile<H>(session: SshSession<H>, profile: ServerProfile)
    ensures
        reaches_profile(session, profile) <==> session.connect_info.host@ == profile.host@
            && session.connect_info.port == profile.port && session.connect_info.username@
            == profile.username@,
{
}

/// How a request is taken up says its answer, its first step or its refusal.
pub proof fn law_dispatch_says_what_it_holds(dispatch: Result<Dispatch, String>)
    ensures
        dispatch matches Ok(Dispatch::Answer(value)) ==> dispatch_view(dispatch) == Ok::<
            DispatchView,
            Seq<char>,
        >(DispatchView::Answer(value@)),
        dispatch matches Ok(Dispatch::Act { progress, action, .. }) ==> dispatch_view(dispatch)
            == Ok::<DispatchView, Seq<char>>(
            DispatchView::Act { progress: progress@, action: action@ },
        ),
        dispatch matches Err(message) ==> dispatch_view(dispatch) == Err::<
            DispatchView,
            Seq<char>,
        >(message@),
{
}

} // verus!
