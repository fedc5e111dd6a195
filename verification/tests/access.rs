//! Permissions and who may do what.

use leepanel::access::{
    authorize, effective_required, mcp_enabled, permission_level, set_mcp_enabled, AccessSnapshot,
    PermissionLevel, ServerProfile,
};
use leepanel::settings::{mcp_list_permissions, mcp_set_server_permission};

fn profile(id: &str, username: &str) -> ServerProfile {
    ServerProfile {
        id: id.to_string(),
        name: "n".to_string(),
        host: "h".to_string(),
        port: 22,
        username: username.to_string(),
        auth_type: "key".to_string(),
    }
}

fn stored(permissions: &[(&str, &str)]) -> Vec<(String, String)> {
    permissions.iter().map(|(id, level)| (id.to_string(), level.to_string())).collect()
}

#[test]
fn levels_are_stored_by_their_names() {
    for level in [
        PermissionLevel::Denied,
        PermissionLevel::Read,
        PermissionLevel::Manage,
        PermissionLevel::System,
    ] {
        assert_eq!(PermissionLevel::parse(level.as_str()), Some(level));
        let permissions = stored(&[("p", level.as_str())]);
        assert_eq!(permission_level(&permissions, "p"), level);
    }
    assert_eq!(PermissionLevel::parse("admin"), None);
    assert_eq!(PermissionLevel::Denied.as_str(), "none");
    assert_eq!(permission_level(&stored(&[("p", "admin")]), "p"), PermissionLevel::Denied);
    assert_eq!(permission_level(&stored(&[("q", "read")]), "p"), PermissionLevel::Denied);
}

#[test]
fn the_switch_is_stored_as_text() {
    assert!(mcp_enabled(&Some(set_mcp_enabled(true).to_string())));
    assert!(!mcp_enabled(&Some(set_mcp_enabled(false).to_string())));
    assert!(!mcp_enabled(&Some("True".to_string())));
    assert!(!mcp_enabled(&None));
}

#[test]
fn root_needs_system_access_to_change_anything() {
    assert_eq!(effective_required("root", PermissionLevel::Read), PermissionLevel::Read);
    assert_eq!(effective_required("root", PermissionLevel::Manage), PermissionLevel::System);
    assert_eq!(effective_required("deploy", PermissionLevel::Manage), PermissionLevel::Manage);
}

#[test]
fn the_first_profile_with_an_id_counts() {
    let access = AccessSnapshot {
        enabled: Some("true".to_string()),
        profiles: vec![profile("a", "x"), profile("b", "root"), profile("b", "x")],
        permissions: stored(&[("b", "manage")]),
    };
    assert_eq!(authorize(&access, "b", PermissionLevel::Read), Ok(1));
    assert_eq!(
        authorize(&access, "b", PermissionLevel::Manage),
        Err("MCP system access is not authorized for LeePanel server profile: b".to_string())
    );
    assert_eq!(
        authorize(&access, "a", PermissionLevel::Read),
        Err("MCP read access is not authorized for LeePanel server profile: a".to_string())
    );
}

#[test]
fn permissions_are_listed_for_every_profile() {
    let list =
        mcp_list_permissions(vec![profile("a", "x"), profile("b", "y")], &stored(&[("b", "read")]));
    assert_eq!(list.len(), 2);
    assert_eq!((list[0].profile_id.as_str(), list[0].permission_level.as_str()), ("a", "none"));
    assert_eq!((list[1].username.as_str(), list[1].permission_level.as_str()), ("y", "read"));
}

#[test]
fn permissions_are_set_for_known_profiles_and_levels() {
    let profiles = vec![profile("a", "x")];
    assert_eq!(mcp_set_server_permission(&profiles, "a", "manage"), Ok(PermissionLevel::Manage));
    assert_eq!(
        mcp_set_server_permission(&profiles, "b", "manage"),
        Err("LeePanel server profile not found: b".to_string())
    );
    assert_eq!(
        mcp_set_server_permission(&profiles, "a", "all"),
        Err("Permission level must be one of: none, read, manage, system".to_string())
    );
}
