//! Auto-execute file naming rules.

use comet::autoexec::{
    ensure_valid_extension, get_auto_execute_state, get_scripts_dir, get_state_file,
    is_valid_script_file,
};

#[test]
fn script_files_need_an_accepted_extension() {
    assert!(is_valid_script_file("a.lua"));
    assert!(is_valid_script_file("a.luau"));
    assert!(is_valid_script_file("notes.txt"));
    assert!(!is_valid_script_file("a.py"));
    assert!(!is_valid_script_file("lua"));
    assert!(!is_valid_script_file(""));
}

#[test]
fn hidden_files_are_never_scripts() {
    assert!(!is_valid_script_file(".DS_Store"));
    assert!(!is_valid_script_file(".hidden.lua"));
    assert!(!is_valid_script_file("."));
}

#[test]
fn ensure_valid_extension_appends_lua_when_missing() {
    assert_eq!(ensure_valid_extension("script"), "script.lua");
    assert_eq!(ensure_valid_extension("script.lua"), "script.lua");
    assert_eq!(ensure_valid_extension("script.luau"), "script.luau");
    assert_eq!(ensure_valid_extension("script.txt"), "script.txt");
    assert_eq!(ensure_valid_extension("script.py"), "script.py.lua");
    assert_eq!(ensure_valid_extension(""), ".lua");
}

#[test]
fn auto_execute_is_enabled_while_marker_is_absent() {
    assert!(get_auto_execute_state(false));
    assert!(!get_auto_execute_state(true));
}

#[test]
fn auto_execute_paths_live_under_configuration_directory() {
    assert_eq!(get_state_file("/cfg"), "/cfg/com.comet.dev/auto_execute_disabled");
    assert_eq!(get_scripts_dir("/cfg"), "/cfg/com.comet.dev/scripts");
}
