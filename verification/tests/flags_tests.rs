//! Fast-flag validation against the fetched lists, and the profile paths.

use comet::flags::{
    flag_known, get_active_profile_file, get_fast_flags_path, parse_flag_entry, validate_flags,
    FastFlagsProfileManager, FlagCache,
};

fn cache(mac: Option<&[&str]>, client: Option<&[&str]>) -> FlagCache {
    let own = |xs: &[&str]| xs.iter().map(|s| s.to_string()).collect::<Vec<String>>();
    FlagCache { mac: mac.map(own), client: client.map(own) }
}

#[test]
fn validation_refused_while_no_list_is_fetched() {
    let flags = vec!["FFlagA".to_string()];
    let r = validate_flags(&cache(None, None), &flags);
    assert_eq!(r, Err("Could not fetch valid fast flags list".to_string()));
}

#[test]
fn flags_valid_when_either_list_contains_them() {
    let c = cache(Some(&["FFlagA"]), Some(&["FFlagB"]));
    let flags = vec![
        "FFlagA".to_string(),
        "FFlagB".to_string(),
        "FFlagC".to_string(),
    ];
    assert_eq!(validate_flags(&c, &flags), Ok(vec!["FFlagC".to_string()]));
}

#[test]
fn single_fetched_list_is_enough() {
    let c = cache(Some(&["FFlagA"]), None);
    let flags = vec!["FFlagA".to_string(), "FFlagX".to_string()];
    assert_eq!(validate_flags(&c, &flags), Ok(vec!["FFlagX".to_string()]));

    let c = cache(None, Some(&["FFlagY"]));
    let flags = vec!["FFlagY".to_string()];
    assert_eq!(validate_flags(&c, &flags), Ok(Vec::new()));
}

#[test]
fn invalid_flags_keep_their_order() {
    let c = cache(Some(&["Known"]), None);
    let flags = vec![
        "B".to_string(),
        "Known".to_string(),
        "A".to_string(),
        "B".to_string(),
    ];
    assert_eq!(
        validate_flags(&c, &flags),
        Ok(vec!["B".to_string(), "A".to_string(), "B".to_string()])
    );
}

#[test]
fn flag_known_checks_both_lists() {
    let c = cache(Some(&["M"]), Some(&["C"]));
    assert!(flag_known(&c, &"M".to_string()));
    assert!(flag_known(&c, &"C".to_string()));
    assert!(!flag_known(&c, &"X".to_string()));
}

#[test]
fn profile_paths_are_built_from_their_directories() {
    assert_eq!(
        get_fast_flags_path(),
        Ok("/Applications/Roblox.app/Contents/MacOS/ClientSettings/ClientAppSettings.json"
            .to_string())
    );
    assert_eq!(
        get_active_profile_file("/cfg"),
        "/cfg/com.comet.dev/profiles/active_profile.json"
    );
    let manager = FastFlagsProfileManager::new("/cfg/com.comet.dev/profiles".to_string());
    assert_eq!(
        manager.profile_path("abc-123"),
        "/cfg/com.comet.dev/profiles/abc-123.json"
    );
}

#[test]
fn flag_entries_are_extracted_from_marked_lines() {
    assert_eq!(parse_flag_entry("[C++] FFlagFoo whatever"), Some("FFlagFoo".to_string()));
    assert_eq!(parse_flag_entry("[Lua] FLog_Bar"), Some("FLog_Bar".to_string()));
    assert_eq!(parse_flag_entry("prefix [C++]   DFIntBaz!"), Some("DFIntBaz".to_string()));
    assert_eq!(parse_flag_entry("[C++]\tFFlagTabbed"), Some("FFlagTabbed".to_string()));
}

#[test]
fn lines_without_a_full_entry_yield_nothing() {
    assert_eq!(parse_flag_entry("[C++]NoSpace"), None);
    assert_eq!(parse_flag_entry("[c++] Lowercase"), None);
    assert_eq!(parse_flag_entry("no marker here"), None);
    assert_eq!(parse_flag_entry("[Lua]"), None);
    assert_eq!(parse_flag_entry("[C++] "), None);
    assert_eq!(parse_flag_entry(""), None);
}

#[test]
fn the_first_matching_entry_wins() {
    assert_eq!(parse_flag_entry("[Lua] First [C++] Second"), Some("First".to_string()));
    assert_eq!(parse_flag_entry("[Lua] [C++] Second"), Some("Second".to_string()));
}
