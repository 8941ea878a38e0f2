//! Workspace rules: identifier uniqueness, deletion protection, renames with
//! case-insensitive name conflicts, and the path builders.

use comet::workspace::{
    add_workspace, default_workspace_state, delete_workspace, derive_workspace_id,
    get_workspace_state_file,
    get_workspace_tabs_dir, has_id, rename_workspace, set_active_workspace, Workspace,
    WorkspaceError, WorkspaceState,
};

fn ws(id: &str, name: &str) -> Workspace {
    Workspace { id: id.to_string(), name: name.to_string(), path: format!("/tmp/{}", id) }
}

fn two_workspace_state() -> WorkspaceState {
    WorkspaceState {
        active_workspace: Some("default".to_string()),
        workspaces: vec![ws("default", "Default"), ws("alpha", "Alpha")],
    }
}

#[test]
fn add_workspace_appends_new_identifier() {
    let mut state = two_workspace_state();
    assert_eq!(add_workspace(&mut state, ws("beta", "Beta")), Ok(()));
    assert_eq!(state.workspaces.len(), 3);
    assert_eq!(state.workspaces[2].id, "beta");
    assert_eq!(state.active_workspace.as_deref(), Some("default"));
}

#[test]
fn add_workspace_refuses_duplicate_identifier() {
    let mut state = two_workspace_state();
    let r = add_workspace(&mut state, ws("alpha", "Alpha Two"));
    assert_eq!(r, Err(WorkspaceError::AlreadyExists("Alpha Two".to_string())));
    assert_eq!(state.workspaces.len(), 2);
}

#[test]
fn delete_workspace_refuses_last_and_active() {
    let mut lone = WorkspaceState {
        active_workspace: None,
        workspaces: vec![ws("only", "Only")],
    };
    assert_eq!(delete_workspace(&mut lone, "only"), Err(WorkspaceError::LastWorkspace));
    assert_eq!(lone.workspaces.len(), 1);

    let mut state = two_workspace_state();
    assert_eq!(delete_workspace(&mut state, "default"), Err(WorkspaceError::ActiveWorkspace));
    assert_eq!(state.workspaces.len(), 2);
}

#[test]
fn delete_workspace_removes_inactive_identifier() {
    let mut state = two_workspace_state();
    assert_eq!(delete_workspace(&mut state, "alpha"), Ok(()));
    assert_eq!(state.workspaces.len(), 1);
    assert_eq!(state.workspaces[0].id, "default");
    assert_eq!(state.active_workspace.as_deref(), Some("default"));
}

#[test]
fn delete_workspace_of_unknown_identifier_changes_nothing() {
    let mut state = two_workspace_state();
    assert_eq!(delete_workspace(&mut state, "ghost"), Ok(()));
    assert_eq!(state.workspaces.len(), 2);
}

#[test]
fn set_active_workspace_requires_known_identifier() {
    let mut state = two_workspace_state();
    assert_eq!(set_active_workspace(&mut state, "alpha"), Ok(()));
    assert_eq!(state.active_workspace.as_deref(), Some("alpha"));
    assert_eq!(
        set_active_workspace(&mut state, "ghost"),
        Err(WorkspaceError::NotFound("ghost".to_string()))
    );
    assert_eq!(state.active_workspace.as_deref(), Some("alpha"));
}

#[test]
fn rename_workspace_changes_the_name() {
    let mut state = two_workspace_state();
    assert_eq!(rename_workspace(&mut state, "alpha", "Fresh".to_string()), Ok(()));
    assert_eq!(state.workspaces[1].name, "Fresh");
    assert_eq!(state.workspaces[1].id, "alpha");
}

#[test]
fn rename_workspace_refuses_case_insensitive_conflict() {
    let mut state = two_workspace_state();
    let r = rename_workspace(&mut state, "alpha", "DEFAULT".to_string());
    assert_eq!(r, Err(WorkspaceError::AlreadyExists("DEFAULT".to_string())));
    assert_eq!(state.workspaces[1].name, "Alpha");
}

#[test]
fn rename_workspace_allows_keeping_own_name_case_changed() {
    let mut state = two_workspace_state();
    assert_eq!(rename_workspace(&mut state, "alpha", "ALPHA".to_string()), Ok(()));
    assert_eq!(state.workspaces[1].name, "ALPHA");
}

#[test]
fn rename_workspace_reports_unknown_identifier() {
    let mut state = two_workspace_state();
    assert_eq!(
        rename_workspace(&mut state, "ghost", "Name".to_string()),
        Err(WorkspaceError::NotFound("ghost".to_string()))
    );
}

#[test]
fn workspace_error_messages_match_display_text() {
    assert_eq!(
        WorkspaceError::AlreadyExists("X".to_string()).message(),
        "Workspace with name 'X' already exists"
    );
    assert_eq!(WorkspaceError::LastWorkspace.message(), "Cannot delete the last workspace");
    assert_eq!(WorkspaceError::ActiveWorkspace.message(), "Cannot delete the active workspace");
    assert_eq!(WorkspaceError::NotFound("y".to_string()).message(), "Workspace 'y' not found");
}

#[test]
fn path_builders_join_under_configuration_directory() {
    assert_eq!(
        get_workspace_state_file("/cfg"),
        "/cfg/com.comet.dev/workspaces/state.json"
    );
    assert_eq!(
        get_workspace_tabs_dir("/cfg", "alpha"),
        "/cfg/com.comet.dev/workspaces/alpha/tabs"
    );
}

#[test]
fn default_state_has_one_active_default_workspace() {
    let state = default_workspace_state("/cfg");
    assert_eq!(state.active_workspace.as_deref(), Some("default"));
    assert_eq!(state.workspaces.len(), 1);
    assert_eq!(state.workspaces[0].id, "default");
    assert_eq!(state.workspaces[0].name, "Default");
    assert_eq!(state.workspaces[0].path, "/cfg/com.comet.dev/workspaces/default/tabs");
    assert!(has_id(&state.workspaces, "default"));
    assert!(!has_id(&state.workspaces, "other"));
}

#[test]
fn workspace_ids_are_lowercased_and_hyphenated() {
    assert_eq!(derive_workspace_id("My Work Space"), "my-work-space");
    assert_eq!(derive_workspace_id("UPPER"), "upper");
    assert_eq!(derive_workspace_id("plain"), "plain");
    assert_eq!(derive_workspace_id(""), "");
    assert_eq!(derive_workspace_id("a  b"), "a--b");
}
