//! Access control: the permission levels of server profiles, and which of them a request needs.

use crate::text::{cat2, cat4, text_eq};
use vstd::prelude::*;

verus! {

/// How much a tool may do on the server of a profile. Each level allows what the lower ones
/// allow.
#[derive(Clone, Copy, Debug, PartialEq, Eq, PartialOrd, Ord, Structural)]
pub enum PermissionLevel {
    Denied,
    Read,
    Manage,
    System,
}

impl PermissionLevel {
    /// The place of a level in their order.
    pub open spec fn rank(self) -> int {
        match self {
            PermissionLevel::Denied => 0,
            PermissionLevel::Read => 1,
            PermissionLevel::Manage => 2,
            PermissionLevel::System => 3,
        }
    }

    /// The name under which a level is stored.
    pub open spec fn name(self) -> Seq<char> {
        match self {
            PermissionLevel::Denied => "none"@,
            PermissionLevel::Read => "read"@,
            PermissionLevel::Manage => "manage"@,
            PermissionLevel::System => "system"@,
        }
    }

    /// The level with a name, if there is one.
    pub open spec fn named(name: Seq<char>) -> Option<PermissionLevel> {
        if name == "none"@ {
            Some(PermissionLevel::Denied)
        } else if name == "read"@ {
            Some(PermissionLevel::Read)
        } else if name == "manage"@ {
            Some(PermissionLevel::Manage)
        } else if name == "system"@ {
            Some(PermissionLevel::System)
        } else {
            None
        }
    }

    /// The level with a name, if there is one.
    pub fn parse(value: &str) -> (level: Option<Self>)
        ensures
            level == Self::named(value@),
    {
        if text_eq(value, "none") {
            Some(Self::Denied)
        } else if text_eq(value, "read") {
            Some(Self::Read)
        } else if text_eq(value, "manage") {
            Some(Self::Manage)
        } else if text_eq(value, "system") {
            Some(Self::System)
        } else {
            None
        }
    }

    /// The name under which the level is stored.
    pub fn as_str(self) -> (name: &'static str)
        ensures
            name@ == self.name(),
    {
        match self {
            Self::Denied => "none",
            Self::Read => "read",
            Self::Manage => "manage",
            Self::System => "system",
        }
    }

    /// Whether the level allows what another one allows.
    pub fn covers(self, required: Self) -> (allowed: bool)
        ensures
            allowed == (self.rank() >= required.rank()),
    {
        match required {
            Self::Denied => true,
            Self::Read => self != Self::Denied,
            Self::Manage => self == Self::Manage || self == Self::System,
            Self::System => self == Self::System,
        }
    }
}

/// The level that a stored name grants: none where nothing is stored, or nothing that is known.
pub open spec fn granted(stored: Option<Seq<char>>) -> PermissionLevel {
    match stored {
        Some(name) => match PermissionLevel::named(name) {
            Some(level) => level,
            None => PermissionLevel::Denied,
        },
        None => PermissionLevel::Denied,
    }
}

/// An optional text as its characters.
pub open spec fn stored_view(stored: Option<String>) -> Option<Seq<char>> {
    match stored {
        Some(text) => Some(text@),
        None => None,
    }
}

/// The name that is stored for a profile, in a list of profile ids with the names of their
/// levels.
pub open spec fn stored_permission(
    permissions: Seq<(String, String)>,
    profile_id: Seq<char>,
) -> Option<Seq<char>>
    decreases permissions.len(),
{
    if permissions.len() == 0 {
        None
    } else if permissions[0].0@ == profile_id {
        Some(permissions[0].1@)
    } else {
        stored_permission(permissions.drop_first(), profile_id)
    }
}

/// The level that the stored permissions grant for a profile.
pub open spec fn level_of(
    permissions: Seq<(String, String)>,
    profile_id: Seq<char>,
) -> PermissionLevel {
    granted(stored_permission(permissions, profile_id))
}

/// The level that the stored permissions grant for a profile.
pub fn permission_level(permissions: &Vec<(String, String)>, profile_id: &str) -> (level:
    PermissionLevel)
    ensures
        level == level_of(permissions@, profile_id@),
{
    let mut i: usize = 0;
    assert(permissions@.skip(0) == permissions@);
    while i < permissions.len()
        invariant
            i <= permissions@.len(),
            stored_permission(permissions@, profile_id@) == stored_permission(
                permissions@.skip(i as int),
                profile_id@,
            ),
        decreases permissions@.len() - i,
    {
        assert(permissions@.skip(i as int)[0] == permissions@[i as int]);
        assert(permissions@.skip(i as int).drop_first() == permissions@.skip(i + 1));
        if text_eq(permissions[i].0.as_str(), profile_id) {
            return match PermissionLevel::parse(permissions[i].1.as_str()) {
                Some(level) => level,
                None => PermissionLevel::Denied,
            };
        }
        i += 1;
    }
    PermissionLevel::Denied
}

/// Whether the stored permissions grant at least a level for a profile.
pub fn has_access(
    permissions: &Vec<(String, String)>,
    profile_id: &str,
    required: PermissionLevel,
) -> (allowed: bool)
    ensures
        allowed == (level_of(permissions@, profile_id@).rank() >= required.rank()),
{
    permission_level(permissions, profile_id).covers(required)
}

/// The stored text that switches tool access on or off.
pub open spec fn enabled_name(enabled: bool) -> Seq<char> {
    if enabled {
        "true"@
    } else {
        "false"@
    }
}

/// Whether the stored setting switches tool access on: it is off where nothing is stored.
pub open spec fn switched_on(stored: Option<Seq<char>>) -> bool {
    stored == Some("true"@)
}

/// Whether the stored setting switches tool access on.
pub fn mcp_enabled(stored: &Option<String>) -> (enabled: bool)
    ensures
        enabled == switched_on(stored_view(*stored)),
{
    match stored {
        Some(value) => text_eq(value.as_str(), "true"),
        None => false,
    }
}

/// The text to store to switch tool access on or off.
pub fn set_mcp_enabled(enabled: bool) -> (value: &'static str)
    ensures
        value@ == enabled_name(enabled),
{
    if enabled {
        "true"
    } else {
        "false"
    }
}

/// A saved server.
#[derive(Debug, PartialEq, Eq)]
pub struct ServerProfile {
    pub id: String,
    pub name: String,
    pub host: String,
    pub port: u16,
    pub username: String,
    pub auth_type: String,
}

/// The first profile with an id, by its place in the list.
pub open spec fn is_first_profile(
    profiles: Seq<ServerProfile>,
    profile_id: Seq<char>,
    index: int,
) -> bool {
    &&& 0 <= index < profiles.len()
    &&& profiles[index].id@ == profile_id
    &&& forall|j: int| 0 <= j < index ==> (#[trigger] profiles[j]).id@ != profile_id
}

/// Whether a profile with an id is in the list.
pub open spec fn has_profile(profiles: Seq<ServerProfile>, profile_id: Seq<char>) -> bool {
    exists|index: int| 0 <= index < profiles.len() && (#[trigger] profiles[index]).id@ == profile_id
}

/// Finds the first profile with an id.
pub fn find_profile(profiles: &Vec<ServerProfile>, profile_id: &str) -> (index: Option<usize>)
    ensures
        match index {
            Some(i) => is_first_profile(profiles@, profile_id@, i as int),
            None => !has_profile(profiles@, profile_id@),
        },
{
    let mut i: usize = 0;
    while i < profiles.len()
        invariant
            i <= profiles@.len(),
            forall|j: int| 0 <= j < i ==> (#[trigger] profiles@[j]).id@ != profile_id@,
        decreases profiles@.len() - i,
    {
        if text_eq(profiles[i].id.as_str(), profile_id) {
            return Some(i);
        }
        i += 1;
    }
    None
}

/// The level that a request needs on a profile: more than reading as root needs system access.
pub open spec fn effective_level(username: Seq<char>, required: PermissionLevel) -> PermissionLevel {
    if username == "root"@ && required.rank() > PermissionLevel::Read.rank() {
        PermissionLevel::System
    } else {
        required
    }
}

/// The level that a request needs on a profile.
pub fn effective_required(username: &str, required: PermissionLevel) -> (level: PermissionLevel)
    ensures
        level == effective_level(username@, required),
{
    if text_eq(username, "root") && !PermissionLevel::Read.covers(required) {
        PermissionLevel::System
    } else {
        required
    }
}

/// The answer to a request while tool access is switched off.
pub open spec fn disabled_message() -> Seq<char> {
    "LeePanel MCP is disabled. Enable it in MCP / AI Integration settings."@
}

/// The answer to a request for a profile that does not exist.
pub open spec fn profile_missing_message(profile_id: Seq<char>) -> Seq<char> {
    "LeePanel server profile not found: "@ + profile_id
}

/// The answer to a request that needs more access than is granted.
pub open spec fn unauthorized_message(
    level: PermissionLevel,
    profile_id: Seq<char>,
) -> Seq<char> {
    "MCP "@ + level.name() + " access is not authorized for LeePanel server profile: "@
        + profile_id
}

/// What the stored settings say when a request is checked.
pub struct AccessSnapshot {
    /// The stored switch of tool access.
    pub enabled: Option<String>,
    /// The saved servers.
    pub profiles: Vec<ServerProfile>,
    /// The stored permissions: profile ids with the names of their levels.
    pub permissions: Vec<(String, String)>,
}

/// Whether a request for a profile is let through to the server of a profile: tool access is
/// switched on, the profile is the first one with that id, and its stored permission grants
/// the level that the request needs there.
pub open spec fn authorized(
    access: AccessSnapshot,
    profile_id: Seq<char>,
    required: PermissionLevel,
    index: int,
) -> bool {
    &&& switched_on(stored_view(access.enabled))
    &&& is_first_profile(access.profiles@, profile_id, index)
    &&& level_of(access.permissions@, profile_id).rank() >= effective_level(
        access.profiles@[index].username@,
        required,
    ).rank()
}

/// The place of the first profile with an id, where there is one.
pub open spec fn first_profile(profiles: Seq<ServerProfile>, profile_id: Seq<char>) -> int {
    choose|index: int| is_first_profile(profiles, profile_id, index)
}

proof fn lemma_first_profile(profiles: Seq<ServerProfile>, profile_id: Seq<char>, index: int)
    requires
        is_first_profile(profiles, profile_id, index),
    ensures
        has_profile(profiles, profile_id),
        first_profile(profiles, profile_id) == index,
{
    let other = first_profile(profiles, profile_id);
    assert(is_first_profile(profiles, profile_id, other));
    if other < index {
        assert(profiles[other].id@ != profile_id);
    }
    if index < other {
        assert(profiles[index].id@ != profile_id);
    }
}

/// What the check of a request comes to: the place of its profile, or the answer that refuses
/// it.
pub open spec fn access_outcome(
    access: AccessSnapshot,
    profile_id: Seq<char>,
    required: PermissionLevel,
) -> Result<int, Seq<char>> {
    if !switched_on(stored_view(access.enabled)) {
        Err(disabled_message())
    } else if !has_profile(access.profiles@, profile_id) {
        Err(profile_missing_message(profile_id))
    } else {
        let index = first_profile(access.profiles@, profile_id);
        let level = effective_level(access.profiles@[index].username@, required);
        if level_of(access.permissions@, profile_id).rank() >= level.rank() {
            Ok(index)
        } else {
            Err(unauthorized_message(level, profile_id))
        }
    }
}

/// The outcome of a check as what it says.
pub open spec fn check_view(outcome: Result<usize, String>) -> Result<int, Seq<char>> {
    match outcome {
        Ok(index) => Ok(index as int),
        Err(message) => Err(message@),
    }
}

/// Checks a request for a profile and finds that profile.
pub fn authorize(
    access: &AccessSnapshot,
    profile_id: &str,
    required: PermissionLevel,
) -> (outcome: Result<usize, String>)
    ensures
        check_view(outcome) == access_outcome(*access, profile_id@, required),
        outcome is Ok ==> authorized(*access, profile_id@, required, outcome->Ok_0 as int),
{
    if !mcp_enabled(&access.enabled) {
        return Err(
            "LeePanel MCP is disabled. Enable it in MCP / AI Integration settings.".to_owned(),
        );
    }
    match find_profile(&access.profiles, profile_id) {
        None => Err(cat2("LeePanel server profile not found: ", profile_id)),
        Some(index) => {
            proof {
                lemma_first_profile(access.profiles@, profile_id@, index as int);
            }
            let level = effective_required(access.profiles[index].username.as_str(), required);
            if has_access(&access.permissions, profile_id, level) {
                Ok(index)
            } else {
                Err(
                    cat4(
                        "MCP ",
                        level.as_str(),
                        " access is not authorized for LeePanel server profile: ",
                        profile_id,
                    ),
                )
            }
        },
    }
}

/// A check succeeds exactly for the requests that are let through.
pub proof fn law_check_lets_through(
    access: AccessSnapshot,
    profile_id: Seq<char>,
    required: PermissionLevel,
    index: int,
)
    ensures
        authorized(access, profile_id, required, index) <==> access_outcome(
            access,
            profile_id,
            required,
        ) == Ok::<int, Seq<char>>(index),
{
    if is_first_profile(access.profiles@, profile_id, index) {
        lemma_first_profile(access.profiles@, profile_id, index);
    }
    if has_profile(access.profiles@, profile_id) {
        lemma_profile_has_first(access.profiles@, profile_id);
    }
}

/// Where a profile with an id is in the list, one of them is the first.
pub proof fn lemma_profile_has_first(profiles: Seq<ServerProfile>, profile_id: Seq<char>)
    requires
        has_profile(profiles, profile_id),
    ensures
        is_first_profile(profiles, profile_id, first_profile(profiles, profile_id)),
    decreases profiles.len(),
{
    let i = choose|i: int| 0 <= i < profiles.len() && (#[trigger] profiles[i]).id@ == profile_id;
    let before = profiles.take(i);
    if has_profile(before, profile_id) {
        lemma_profile_has_first(before, profile_id);
        let j = first_profile(before, profile_id);
        assert(profiles[j] == before[j]);
        assert forall|k: int| 0 <= k < j implies (#[trigger] profiles[k]).id@ != profile_id by {
            assert(before[k].id@ != profile_id);
        }
        assert(is_first_profile(profiles, profile_id, j));
    } else {
        assert forall|k: int| 0 <= k < i implies (#[trigger] profiles[k]).id@ != profile_id by {
            assert(before[k] == profiles[k]);
        }
        assert(is_first_profile(profiles, profile_id, i));
    }
}

/// A level that is stored under its name is the level that is read back.
pub proof fn law_stored_level_is_read_back(level: PermissionLevel)
    ensures
        PermissionLevel::named(level.name()) == Some(level),
        granted(Some(level.name())) == level,
{
    reveal_strlit("none");
    reveal_strlit("read");
    reveal_strlit("manage");
    reveal_strlit("system");
    assert("none"@[0] == 'n' && "read"@[0] == 'r' && "manage"@[0] == 'm' && "system"@[0] == 's');
}

/// The switch that is stored is the switch that is read back, and where none was stored it is
/// off.
pub proof fn law_stored_switch_is_read_back(enabled: bool)
    ensures
        switched_on(Some(enabled_name(enabled))) == enabled,
        !switched_on(None),
{
    reveal_strlit("true");
    reveal_strlit("false");
    assert("true"@[0] == 't' && "false"@[0] == 'f');
}

/// Where nothing is stored for a profile, no request is let through to it, not even to read.
pub proof fn law_denied_by_default(
    access: AccessSnapshot,
    profile_id: Seq<char>,
    required: PermissionLevel,
    index: int,
)
    requires
        stored_permission(access.permissions@, profile_id) is None || access.enabled is None,
        required != PermissionLevel::Denied,
    ensures
        !authorized(access, profile_id, required, index),
{
}

/// A permission that lets a request through lets every request through that needs less.
pub proof fn law_levels_inherit_lower_access(
    access: AccessSnapshot,
    profile_id: Seq<char>,
    required: PermissionLevel,
    lower: PermissionLevel,
    index: int,
)
    requires
        authorized(access, profile_id, required, index),
        lower.rank() <= required.rank(),
    ensures
        authorized(access, profile_id, lower, index),
{
}

/// On a profile that logs in as root, nothing but reading is let through without system
/// access.
pub proof fn law_root_needs_system_access(
    access: AccessSnapshot,
    profile_id: Seq<char>,
    required: PermissionLevel,
    index: int,
)
    requires
        authorized(access, profile_id, required, index),
        access.profiles@[index].username@ == "root"@,
        required == PermissionLevel::Manage || required == PermissionLevel::System,
    ensures
        level_of(access.permissions@, profile_id) == PermissionLevel::System,
{
}

/// Whether an entry of the stored permissions is the one that counts for a profile: the first one
/// with its id.
pub open spec fn is_stored_at(
    permissions: Seq<(String, String)>,
    profile_id: Seq<char>,
    at: int,
) -> bool {
    &&& 0 <= at < permissions.len()
    &&& permissions[at].0@ == profile_id
    &&& forall|j: int| 0 <= j < at ==> (#[trigger] permissions[j]).0@ != profile_id
}

/// Whether a name is stored for a profile, in the entry that counts.
pub open spec fn has_stored(
    permissions: Seq<(String, String)>,
    profile_id: Seq<char>,
    name: Seq<char>,
) -> bool {
    exists|at: int| #[trigger]
        is_stored_at(permissions, profile_id, at) && permissions[at].1@ == name
}

/// Whether the stored permission of a profile lets it be read.
pub open spec fn may_be_read(permissions: Seq<(String, String)>, profile_id: Seq<char>) -> bool {
    ||| has_stored(permissions, profile_id, "read"@)
    ||| has_stored(permissions, profile_id, "manage"@)
    ||| has_stored(permissions, profile_id, "system"@)
}

/// Whether the stored permission of a profile lets it be managed.
pub open spec fn may_be_managed(permissions: Seq<(String, String)>, profile_id: Seq<char>) -> bool {
    ||| has_stored(permissions, profile_id, "manage"@)
    ||| has_stored(permissions, profile_id, "system"@)
}

/// Whether the stored permission of a profile lets commands run there as root.
pub open spec fn may_be_root(permissions: Seq<(String, String)>, profile_id: Seq<char>) -> bool {
    has_stored(permissions, profile_id, "system"@)
}

proof fn lemma_stored_permission(permissions: Seq<(String, String)>, profile_id: Seq<char>)
    ensures
        match stored_permission(permissions, profile_id) {
            Some(name) => exists|at: int| #[trigger]
                is_stored_at(permissions, profile_id, at) && permissions[at].1@ == name,
            None => forall|j: int|
                0 <= j < permissions.len() ==> (#[trigger] permissions[j]).0@ != profile_id,
        },
    decreases permissions.len(),
{
    if permissions.len() > 0 {
        let rest = permissions.drop_first();
        lemma_stored_permission(rest, profile_id);
        assert forall|j: int| 0 <= j < rest.len() implies rest[j] == permissions[j + 1] by {
        }
        if permissions[0].0@ == profile_id {
            assert(is_stored_at(permissions, profile_id, 0));
        } else {
            match stored_permission(rest, profile_id) {
                Some(name) => {
                    let at = choose|at: int| #[trigger]
                        is_stored_at(rest, profile_id, at) && rest[at].1@ == name;
                    assert forall|j: int| 0 <= j < at + 1 implies (#[trigger] permissions[j]).0@
                        != profile_id by {
                        if j > 0 {
                            assert(rest[j - 1].0@ != profile_id);
                        }
                    }
                    assert(is_stored_at(permissions, profile_id, at + 1));
                },
                None => {
                    assert forall|j: int| 0 <= j < permissions.len() implies (
                    #[trigger] permissions[j]).0@ != profile_id by {
                        if j > 0 {
                            assert(rest[j - 1].0@ != profile_id);
                        }
                    }
                },
            }
        }
    }
}

proof fn lemma_has_stored(
    permissions: Seq<(String, String)>,
    profile_id: Seq<char>,
    name: Seq<char>,
)
    ensures
        has_stored(permissions, profile_id, name) <==> stored_permission(permissions, profile_id)
            == Some(name),
{
    lemma_stored_permission(permissions, profile_id);
    if has_stored(permissions, profile_id, name) {
        let at = choose|at: int| #[trigger]
            is_stored_at(permissions, profile_id, at) && permissions[at].1@ == name;
        assert(permissions[at].0@ == profile_id);
        match stored_permission(permissions, profile_id) {
            Some(other_name) => {
                let other = choose|other: int| #[trigger]
                    is_stored_at(permissions, profile_id, other) && permissions[other].1@
                        == other_name;
                if other < at {
                    assert(permissions[other].0@ != profile_id);
                }
                if at < other {
                    assert(permissions[at].0@ != profile_id);
                }
            },
            None => {},
        }
    }
}

/// What is granted for a profile goes by the name in the first stored entry with its id: each
/// level for its own name, and nothing for any other name or where there is no entry.
pub proof fn law_level_is_the_stored_one(permissions: Seq<(String, String)>, profile_id: Seq<char>)
    ensures
        may_be_read(permissions, profile_id) <==> level_of(permissions, profile_id)
            != PermissionLevel::Denied,
        may_be_read(permissions, profile_id) <==> level_of(permissions, profile_id).rank() >= 1,
        may_be_managed(permissions, profile_id) <==> level_of(permissions, profile_id).rank() >= 2,
        may_be_root(permissions, profile_id) <==> level_of(permissions, profile_id)
            == PermissionLevel::System,
        has_stored(permissions, profile_id, "read"@) <==> level_of(permissions, profile_id)
            == PermissionLevel::Read,
        has_stored(permissions, profile_id, "manage"@) <==> level_of(permissions, profile_id)
            == PermissionLevel::Manage,
{
    reveal_strlit("none");
    reveal_strlit("read");
    reveal_strlit("manage");
    reveal_strlit("system");
    assert("none"@[0] == 'n' && "read"@[0] == 'r' && "manage"@[0] == 'm' && "system"@[0] == 's');
    lemma_has_stored(permissions, profile_id, "read"@);
    lemma_has_stored(permissions, profile_id, "manage"@);
    lemma_has_stored(permissions, profile_id, "system"@);
}

/// A request is let through to a profile exactly where tool access is stored as switched on, the
/// profile is the first one with the requested id, and the stored permission goes far enough:
/// for reading any level will do; what goes beyond needs management access, and system access
/// where the profile logs in as root; and commands as root need system access everywhere.
pub proof fn law_access_goes_by_what_is_stored(
    access: AccessSnapshot,
    profile_id: Seq<char>,
    required: PermissionLevel,
    index: int,
)
    requires
        required != PermissionLevel::Denied,
    ensures
        access_outcome(access, profile_id, required) == Ok::<int, Seq<char>>(index) <==> {
            &&& access.enabled is Some && access.enabled->0@ == "true"@
            &&& is_first_profile(access.profiles@, profile_id, index)
            &&& may_be_read(access.permissions@, profile_id)
            &&& required != PermissionLevel::Read ==> may_be_managed(
                access.permissions@,
                profile_id,
            )
            &&& required != PermissionLevel::Read && access.profiles@[index].username@ == "root"@
                ==> may_be_root(access.permissions@, profile_id)
            &&& required == PermissionLevel::System ==> may_be_root(
                access.permissions@,
                profile_id,
            )
        },
{
    law_check_lets_through(access, profile_id, required, index);
    law_level_is_the_stored_one(access.permissions@, profile_id);
}

/// A request that is refused is told the first reason: that tool access is switched off, that
/// there is no such profile, or which access it would need.
pub proof fn law_refusal_tells_the_reason(
    access: AccessSnapshot,
    profile_id: Seq<char>,
    required: PermissionLevel,
    index: int,
)
    requires
        required != PermissionLevel::Denied,
    ensures
        ({
            let outcome = access_outcome(access, profile_id, required);
            let on = access.enabled is Some && access.enabled->0@ == "true"@;
            &&& !on ==> outcome == Err::<int, Seq<char>>(
                "LeePanel MCP is disabled. Enable it in MCP / AI Integration settings."@,
            )
            &&& on && !has_profile(access.profiles@, profile_id) ==> outcome == Err::<
                int,
                Seq<char>,
            >("LeePanel server profile not found: "@ + profile_id)
            &&& on && is_first_profile(access.profiles@, profile_id, index) ==> match outcome {
                Ok(found) => found == index,
                Err(message) => message == "MCP "@ + (if required == PermissionLevel::Read {
                    "read"@
                } else if required == PermissionLevel::System
                    || access.profiles@[index].username@ == "root"@ {
                    "system"@
                } else {
                    "manage"@
                }) + " access is not authorized for LeePanel server profile: "@ + profile_id,
            }
        }),
{
    if is_first_profile(access.profiles@, profile_id, index) {
        lemma_first_profile(access.profiles@, profile_id, index);
    }
}

/// The levels go by four names, and no other text names one.
pub proof fn law_levels_go_by_their_names(name: Seq<char>, level: PermissionLevel)
    ensures
        PermissionLevel::named(name) == Some(PermissionLevel::Denied) <==> name == "none"@,
        PermissionLevel::named(name) == Some(PermissionLevel::Read) <==> name == "read"@,
        PermissionLevel::named(name) == Some(PermissionLevel::Manage) <==> name == "manage"@,
        PermissionLevel::named(name) == Some(PermissionLevel::System) <==> name == "system"@,
        PermissionLevel::named(name) == Some(level) <==> name == level.name(),
{
    reveal_strlit("none");
    reveal_strlit("read");
    reveal_strlit("manage");
    reveal_strlit("system");
    assert("none"@[0] == 'n' && "read"@[0] == 'r' && "manage"@[0] == 'm' && "system"@[0] == 's');
}

/// The outcome of a check says the place of the profile or the refusal, and a stored text says
/// its characters.
pub proof fn law_checks_say_what_they_hold(outcome: Result<usize, String>, stored: Option<String>)
    ensures
        outcome matches Ok(index) ==> check_view(outcome) == Ok::<int, Seq<char>>(index as int),
        outcome matches Err(message) ==> check_view(outcome) == Err::<int, Seq<char>>(message@),
        stored matches Some(text) ==> stored_view(stored) == Some(text@),
        stored is None ==> stored_view(stored) is None,
{
}

} // verus!
