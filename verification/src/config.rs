//! Resolution of the remote build host from its candidate sources, in
//! precedence order: a command-line override, then a project-local
//! configuration file, then a user-global one.
//!
//! Reading the two files is the host program's business; this module receives
//! each file's text (or nothing, where the file is missing or unreadable) and
//! owns the precedence and the tolerant extraction of the `remote` key. A
//! source that fails to parse, or holds no string `remote` key, degrades to an
//! absent source; resolution fails only when no source yields a host.

use vstd::prelude::*;

verus! {

/// The `remote` key that TOML text parses to: `Some` exactly when the text is
/// a well-formed TOML document whose top level holds a string key `remote`.
pub uninterp spec fn toml_remote(text: Seq<char>) -> Option<Seq<char>>;

/// Relies on toml's `FromStr for toml::Table` to parse a document and on
/// `toml::Table::get` / the `Value::String` variant to look up the top-level
/// `remote` key. The result is a function of the text alone; a parse error, a
/// missing key, and a non-string value all yield `None`.
#[verifier::external_body]
fn parse_remote_key(text: &str) -> (r: Option<String>)
    ensures
        r is Some <==> toml_remote(text@) is Some,
        r matches Some(h) ==> toml_remote(text@) == Some(h@),
{
    match text.parse::<toml::Table>() {
        Ok(table) => match table.get("remote") {
            Some(toml::Value::String(host)) => Some(host.clone()),
            _ => None,
        },
        Err(_) => None,
    }
}

/// The host that one optional configuration text yields.
pub open spec fn source_remote(text: Option<Seq<char>>) -> Option<Seq<char>> {
    match text {
        Some(t) => toml_remote(t),
        None => None,
    }
}

/// The host the two configuration files yield: the project-local file wins
/// over the user-global one.
pub open spec fn resolve_from_files(
    project_text: Option<Seq<char>>,
    global_text: Option<Seq<char>>,
) -> Option<Seq<char>> {
    match source_remote(project_text) {
        Some(h) => Some(h),
        None => source_remote(global_text),
    }
}

/// The resolved host: a present, non-empty command-line override wins; then
/// the project-local file; then the user-global file; else nothing.
pub open spec fn resolve_spec(
    cli: Option<Seq<char>>,
    project_text: Option<Seq<char>>,
    global_text: Option<Seq<char>>,
) -> Option<Seq<char>> {
    match cli {
        Some(c) => if c.len() > 0 {
            Some(c)
        } else {
            resolve_from_files(project_text, global_text)
        },
        None => resolve_from_files(project_text, global_text),
    }
}

/// Extracts the `remote` host from one configuration document.
pub fn remote_from_config_text(text: &str) -> (r: Option<String>)
    ensures
        r is Some <==> toml_remote(text@) is Some,
        r matches Some(h) ==> toml_remote(text@) == Some(h@),
{
    parse_remote_key(text)
}

/// Resolves the remote build host from the command-line override and the two
/// configuration texts, by precedence. Returns `None` exactly when no source
/// yields a host — the fatal case the caller reports with its own exit code.
pub fn resolve_host(
    cli: &Option<String>,
    project_text: &Option<String>,
    global_text: &Option<String>,
) -> (r: Option<String>)
    ensures
        r is Some <==> resolve_spec(
            cli.deep_view(),
            project_text.deep_view(),
            global_text.deep_view(),
        ) is Some,
        r matches Some(h) ==> resolve_spec(
            cli.deep_view(),
            project_text.deep_view(),
            global_text.deep_view(),
        ) == Some(h@),
{
    if let Some(c) = cli {
        if !c.as_str().is_empty() {
            return Some(c.clone());
        }
    }
    if let Some(t) = project_text {
        if let Some(h) = parse_remote_key(t.as_str()) {
            return Some(h);
        }
    }
    if let Some(t) = global_text {
        return parse_remote_key(t.as_str());
    }
    None
}

/// A present, non-empty command-line override alone decides the host: the
/// files' contents, present and well-formed or not, cannot affect the result.
pub proof fn lemma_cli_override_wins(
    cli: Seq<char>,
    project_text: Option<Seq<char>>,
    global_text: Option<Seq<char>>,
)
    requires
        cli.len() > 0,
    ensures
        resolve_spec(Some(cli), project_text, global_text) == Some(cli),
{
}

/// When the override is absent or empty and neither file yields a host,
/// resolution yields nothing, whatever the inputs were.
pub proof fn lemma_resolution_fails_without_sources(
    cli: Option<Seq<char>>,
    project_text: Option<Seq<char>>,
    global_text: Option<Seq<char>>,
)
    requires
        cli matches Some(c) ==> c.len() == 0,
        project_text matches Some(t) ==> toml_remote(t) is None,
        global_text matches Some(t) ==> toml_remote(t) is None,
    ensures
        resolve_spec(cli, project_text, global_text) is None,
{
}

} // verus!
