use remocom::config::{remote_from_config_text, resolve_host};

#[test]
fn parses_remote_key_from_toml() {
    let r = remote_from_config_text("remote = \"build.example.com\"");
    assert_eq!(r, Some(String::from("build.example.com")));
}

#[test]
fn parses_remote_key_among_other_keys() {
    let r = remote_from_config_text("keep = 3\nremote = \"h1\"\nother = \"x\"\n");
    assert_eq!(r, Some(String::from("h1")));
}

#[test]
fn missing_remote_key_yields_nothing() {
    assert_eq!(remote_from_config_text("other = \"x\""), None);
}

#[test]
fn non_string_remote_key_yields_nothing() {
    assert_eq!(remote_from_config_text("remote = 5"), None);
}

#[test]
fn malformed_document_yields_nothing() {
    assert_eq!(remote_from_config_text("not [valid toml"), None);
}

#[test]
fn cli_override_beats_both_files() {
    let r = resolve_host(
        &Some(String::from("cli.example.com")),
        &Some(String::from("remote = \"project.example.com\"")),
        &Some(String::from("remote = \"global.example.com\"")),
    );
    assert_eq!(r, Some(String::from("cli.example.com")));
}

#[test]
fn empty_cli_override_falls_through_to_files() {
    let r = resolve_host(
        &Some(String::new()),
        &Some(String::from("remote = \"project.example.com\"")),
        &None,
    );
    assert_eq!(r, Some(String::from("project.example.com")));
}

#[test]
fn project_file_beats_global_file() {
    let r = resolve_host(
        &None,
        &Some(String::from("remote = \"project.example.com\"")),
        &Some(String::from("remote = \"global.example.com\"")),
    );
    assert_eq!(r, Some(String::from("project.example.com")));
}

#[test]
fn malformed_project_file_degrades_to_global_file() {
    let r = resolve_host(
        &None,
        &Some(String::from("not [valid toml")),
        &Some(String::from("remote = \"global.example.com\"")),
    );
    assert_eq!(r, Some(String::from("global.example.com")));
}

#[test]
fn global_file_used_when_project_file_absent() {
    let r = resolve_host(&None, &None, &Some(String::from("remote = \"global.example.com\"")));
    assert_eq!(r, Some(String::from("global.example.com")));
}

#[test]
fn no_source_yields_nothing() {
    assert_eq!(resolve_host(&None, &None, &None), None);
}

#[test]
fn malformed_sources_yield_nothing() {
    let r = resolve_host(
        &Some(String::new()),
        &Some(String::from("not [valid toml")),
        &Some(String::from("remote = 7")),
    );
    assert_eq!(r, None);
}
