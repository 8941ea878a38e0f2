//! Script catalogue transformations: suggestion flattening, search query
//! pairs, and the fallback entries.

use comet::scripts::{
    create_fallback_config, ensure_display_name, flatten_suggestions, format_script_name,
    rscript_query_pairs, script_action, RScriptSearchParams, ScriptConfig, ScriptSource,
    Suggestion, SuggestionResponse,
};

fn s(label: &str) -> Suggestion {
    Suggestion {
        label: label.to_string(),
        detail: format!("{} detail", label),
        documentation: format!("{} docs", label),
    }
}

#[test]
fn flatten_suggestions_tags_and_orders_all_kinds() {
    let resp = SuggestionResponse {
        functions: vec![s("f1"), s("f2")],
        property: vec![s("p1")],
        class: vec![s("c1"), s("c2")],
        method: vec![s("m1")],
    };
    let flat = flatten_suggestions(&resp);
    let got: Vec<(&str, &str)> = flat
        .iter()
        .map(|t| (t.label.as_str(), t.suggestion_type.as_str()))
        .collect();
    assert_eq!(
        got,
        [
            ("f1", "function"),
            ("f2", "function"),
            ("p1", "property"),
            ("c1", "class"),
            ("c2", "class"),
            ("m1", "method"),
        ]
    );
    assert_eq!(flat[0].detail, "f1 detail");
    assert_eq!(flat[0].documentation, "f1 docs");
}

#[test]
fn flatten_suggestions_of_empty_response_is_empty() {
    let resp = SuggestionResponse {
        functions: Vec::new(),
        property: Vec::new(),
        class: Vec::new(),
        method: Vec::new(),
    };
    assert!(flatten_suggestions(&resp).is_empty());
}

#[test]
fn query_pairs_follow_fixed_order_and_skip_absent_parameters() {
    let params = RScriptSearchParams {
        page: Some(3),
        order_by: Some("date".to_string()),
        sort: Some("desc".to_string()),
        q: Some("speed".to_string()),
    };
    let pairs = rscript_query_pairs(&params);
    let got: Vec<(&str, &str)> = pairs.iter().map(|p| (p.0.as_str(), p.1.as_str())).collect();
    assert_eq!(
        got,
        [("page", "3"), ("orderBy", "date"), ("sort", "desc"), ("q", "speed")]
    );

    let sparse = RScriptSearchParams { page: None, order_by: None, sort: Some("asc".to_string()), q: None };
    let pairs = rscript_query_pairs(&sparse);
    let got: Vec<(&str, &str)> = pairs.iter().map(|p| (p.0.as_str(), p.1.as_str())).collect();
    assert_eq!(got, [("sort", "asc")]);

    let none = RScriptSearchParams { page: None, order_by: None, sort: None, q: None };
    assert!(rscript_query_pairs(&none).is_empty());
}

#[test]
fn fallback_configs_cover_the_three_known_keys() {
    let iy = create_fallback_config("infinite_yield").expect("known key");
    assert_eq!(iy.fetch, Some(true));
    assert_eq!(
        iy.url.as_deref(),
        Some("https://raw.githubusercontent.com/EdgeIY/infiniteyield/refs/heads/master/source")
    );
    assert_eq!(iy.execute, None);
    assert_eq!(iy.content, None);
    assert_eq!(iy.display_name.as_deref(), Some("Infinite Yield"));

    let hy = create_fallback_config("hydroxide").expect("known key");
    assert_eq!(hy.fetch, None);
    assert_eq!(hy.url, None);
    assert_eq!(hy.execute, Some(true));
    let content = hy.content.expect("inline content");
    assert!(content.starts_with("local owner = \"Upbolt\"\nlocal branch = \"revision\"\n"));
    assert!(content.contains("webImport(\"init\")"));
    assert!(content.ends_with("webImport(\"ui/main\")"));
    assert_eq!(hy.display_name.as_deref(), Some("Hydroxide"));

    let dex = create_fallback_config("dex_explorer").expect("known key");
    assert_eq!(dex.fetch, Some(true));
    assert_eq!(
        dex.url.as_deref(),
        Some("https://cdn.wearedevs.net/scripts/Dex%20Explorer.txt")
    );
    assert_eq!(dex.display_name.as_deref(), Some("DEX Explorer"));
}

#[test]
fn fallback_config_of_unknown_key_is_none() {
    assert_eq!(create_fallback_config("unknown"), None);
    assert_eq!(create_fallback_config(""), None);
}

#[test]
fn script_names_are_title_cased_per_underscore_word() {
    assert_eq!(format_script_name("infinite_yield"), "Infinite Yield");
    assert_eq!(format_script_name("dex_explorer"), "Dex Explorer");
    assert_eq!(format_script_name("HELLO_world"), "Hello World");
    assert_eq!(format_script_name("a"), "A");
    assert_eq!(format_script_name(""), "");
    assert_eq!(format_script_name("a__b"), "A  B");
    assert_eq!(format_script_name("_x"), " X");
}

#[test]
fn script_action_follows_the_entry_flags() {
    let fetched = ScriptConfig {
        fetch: Some(true),
        url: Some("https://example.invalid/src".to_string()),
        execute: None,
        content: None,
        display_name: None,
    };
    assert_eq!(
        script_action("some_key", &fetched),
        Ok(ScriptSource::Fetch("https://example.invalid/src".to_string()))
    );

    let fetched_without_url = ScriptConfig { url: None, ..fetched.clone() };
    assert_eq!(
        script_action("some_key", &fetched_without_url),
        Err("Some Key URL not found".to_string())
    );

    let inline = ScriptConfig {
        fetch: None,
        url: None,
        execute: Some(true),
        content: Some("print(1)".to_string()),
        display_name: None,
    };
    assert_eq!(
        script_action("some_key", &inline),
        Ok(ScriptSource::Inline("print(1)".to_string()))
    );

    let inline_without_content = ScriptConfig { content: None, ..inline };
    assert_eq!(
        script_action("some_key", &inline_without_content),
        Err("Some Key content not found".to_string())
    );

    let neither = ScriptConfig {
        fetch: Some(false),
        url: None,
        execute: None,
        content: None,
        display_name: None,
    };
    assert_eq!(script_action("some_key", &neither), Err("Invalid Some Key config".to_string()));
}

#[test]
fn display_names_are_filled_in_from_the_key() {
    let mut config = ScriptConfig {
        fetch: None,
        url: None,
        execute: None,
        content: None,
        display_name: None,
    };
    ensure_display_name("infinite_yield", &mut config);
    assert_eq!(config.display_name.as_deref(), Some("Infinite Yield"));

    let mut named = ScriptConfig { display_name: Some("Kept".to_string()), ..config };
    ensure_display_name("other_key", &mut named);
    assert_eq!(named.display_name.as_deref(), Some("Kept"));
}
