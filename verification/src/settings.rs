//! The permissions of the saved servers, as they are shown and changed.

use crate::access::{
    find_profile, has_profile, has_stored, law_level_is_the_stored_one,
    law_levels_go_by_their_names, level_of, may_be_read, permission_level,
    profile_missing_message, stored_permission, PermissionLevel, ServerProfile,
};
use crate::text::cat2;
use vstd::prelude::*;

verus! {

/// The permission of a saved server.
#[derive(Debug, PartialEq, Eq)]
pub struct McpServerPermission {
    pub profile_id: String,
    pub name: String,
    pub host: String,
    pub port: u16,
    pub username: String,
    pub permission_level: String,
}

/// Whether an entry shows the permission of a saved server.
pub open spec fn shows_permission(
    entry: McpServerPermission,
    profile: ServerProfile,
    permissions: Seq<(String, String)>,
) -> bool {
    &&& entry.profile_id@ == profile.id@
    &&& entry.name@ == profile.name@
    &&& entry.host@ == profile.host@
    &&& entry.port == profile.port
    &&& entry.username@ == profile.username@
    &&& entry.permission_level@ == level_of(permissions, profile.id@).name()
}

/// Lists the permissions of the saved servers, in their order.
pub fn mcp_list_permissions(
    profiles: Vec<ServerProfile>,
    permissions: &Vec<(String, String)>,
) -> (list: Vec<McpServerPermission>)
    ensures
        list@.len() == profiles@.len(),
        forall|i: int|
            0 <= i < list@.len() ==> shows_permission(
                #[trigger] list@[i],
                profiles@[i],
                permissions@,
            ),
{
    let mut list: Vec<McpServerPermission> = Vec::new();
    for profile in it: profiles
        invariant
            it.seq() == profiles@,
            list@.len() == it.index(),
            forall|i: int|
                0 <= i < list@.len() ==> shows_permission(
                    #[trigger] list@[i],
                    profiles@[i],
                    permissions@,
                ),
    {
        let level = permission_level(permissions, profile.id.as_str());
        let entry = McpServerPermission {
            permission_level: level.as_str().to_owned(),
            profile_id: profile.id,
            name: profile.name,
            host: profile.host,
            port: profile.port,
            username: profile.username,
        };
        list.push(entry);
    }
    list
}

/// What a request to set the permission of a server comes to: the level to store, or the
/// answer that refuses it.
pub open spec fn permission_change(
    profiles: Seq<ServerProfile>,
    profile_id: Seq<char>,
    level_name: Seq<char>,
) -> Result<PermissionLevel, Seq<char>> {
    if !has_profile(profiles, profile_id) {
        Err(profile_missing_message(profile_id))
    } else {
        match PermissionLevel::named(level_name) {
            Some(level) => Ok(level),
            None => Err("Permission level must be one of: none, read, manage, system"@),
        }
    }
}

/// A change as what it says.
pub open spec fn change_view(change: Result<PermissionLevel, String>) -> Result<
    PermissionLevel,
    Seq<char>,
> {
    match change {
        Ok(level) => Ok(level),
        Err(message) => Err(message@),
    }
}

/// Checks a request to set the permission of a server, and gives the level to store.
pub fn mcp_set_server_permission(
    profiles: &Vec<ServerProfile>,
    profile_id: &str,
    level_name: &str,
) -> (change: Result<PermissionLevel, String>)
    ensures
        change_view(change) == permission_change(profiles@, profile_id@, level_name@),
{
    if find_profile(profiles, profile_id).is_none() {
        return Err(cat2("LeePanel server profile not found: ", profile_id));
    }
    match PermissionLevel::parse(level_name) {
        Some(level) => Ok(level),
        None => Err("Permission level must be one of: none, read, manage, system".to_owned()),
    }
}

/// Whether `after` holds the permissions of `before` with one set to a level: the others stay.
pub open spec fn permission_set(
    before: Seq<(String, String)>,
    after: Seq<(String, String)>,
    profile_id: Seq<char>,
    level: PermissionLevel,
) -> bool {
    forall|id: Seq<char>| #[trigger]
        stored_permission(after, id) == if id == profile_id {
            Some(level.name())
        } else {
            stored_permission(before, id)
        }
}

/// A permission that was set is the one that is granted, and the others are granted as before.
pub proof fn law_set_permission_is_granted(
    before: Seq<(String, String)>,
    after: Seq<(String, String)>,
    profile_id: Seq<char>,
    level: PermissionLevel,
    other: Seq<char>,
)
    requires
        permission_set(before, after, profile_id, level),
    ensures
        level_of(after, profile_id) == level,
        other != profile_id ==> level_of(after, other) == level_of(before, other),
{
    crate::access::law_stored_level_is_read_back(level);
    assert(stored_permission(after, profile_id) == Some(level.name()));
    assert(other != profile_id ==> stored_permission(after, other) == stored_permission(
        before,
        other,
    ));
}

/// The permission of a server is shown with what was saved of the server, and under the name of
/// the level that is stored for it: as none where no level is.
pub proof fn law_permission_is_shown_as_stored(
    entry: McpServerPermission,
    profile: ServerProfile,
    permissions: Seq<(String, String)>,
)
    requires
        shows_permission(entry, profile, permissions),
    ensures
        entry.profile_id@ == profile.id@,
        entry.name@ == profile.name@,
        entry.host@ == profile.host@,
        entry.port == profile.port,
        entry.username@ == profile.username@,
        entry.permission_level@ == "read"@ <==> has_stored(permissions, profile.id@, "read"@),
        entry.permission_level@ == "manage"@ <==> has_stored(permissions, profile.id@, "manage"@),
        entry.permission_level@ == "system"@ <==> has_stored(permissions, profile.id@, "system"@),
        !may_be_read(permissions, profile.id@) ==> entry.permission_level@ == "none"@,
{
    law_level_is_the_stored_one(permissions, profile.id@);
    reveal_strlit("none");
    reveal_strlit("read");
    reveal_strlit("manage");
    reveal_strlit("system");
    assert("none"@[0] == 'n' && "read"@[0] == 'r' && "manage"@[0] == 'm' && "system"@[0] == 's');
}

/// A permission is set exactly for a saved server and to one of the four levels, and it is the
/// level that was named.
pub proof fn law_named_level_is_set(
    profiles: Seq<ServerProfile>,
    profile_id: Seq<char>,
    level_name: Seq<char>,
)
    ensures
        ({
            let change = permission_change(profiles, profile_id, level_name);
            let saved = exists|i: int|
                0 <= i < profiles.len() && (#[trigger] profiles[i]).id@ == profile_id;
            let known = level_name == "none"@ || level_name == "read"@ || level_name == "manage"@
                || level_name == "system"@;
            &&& change is Ok <==> saved && known
            &&& change matches Ok(level) ==> {
                &&& level == PermissionLevel::Denied <==> level_name == "none"@
                &&& level == PermissionLevel::Read <==> level_name == "read"@
                &&& level == PermissionLevel::Manage <==> level_name == "manage"@
                &&& level == PermissionLevel::System <==> level_name == "system"@
            }
            &&& !saved ==> change == Err::<PermissionLevel, Seq<char>>(
                "LeePanel server profile not found: "@ + profile_id,
            )
            &&& saved && !known ==> change == Err::<PermissionLevel, Seq<char>>(
                "Permission level must be one of: none, read, manage, system"@,
            )
        }),
{
    law_levels_go_by_their_names(level_name, PermissionLevel::Denied);
}

/// A change of a permission says the level or the refusal.
pub proof fn law_changes_say_what_they_hold(change: Result<PermissionLevel, String>)
    ensures
        change matches Ok(level) ==> change_view(change) == Ok::<PermissionLevel, Seq<char>>(level),
        change matches Err(message) ==> change_view(change) == Err::<PermissionLevel, Seq<char>>(
            message@,
        ),
{
}

} // verus!
