//! What a command-line front end needs before and around a run: where to
//! look, and what to say.

use vstd::prelude::*;
use vstd::string::*;
use crate::outcome::Style;
use crate::paths::{join_path, joined_path};
use crate::style::{bold, bold_text, magenta, magenta_text};

verus! {

/// `text` as the front end stresses it: in bold magenta on a terminal,
/// unchanged in plain text.
pub open spec fn stressed(text: Seq<char>, style: Style) -> Seq<char> {
    match style {
        Style::Plain => text,
        Style::Ansi => magenta_text(bold_text(text)),
    }
}

/// The line that says that `directory` does not exist.
pub open spec fn directory_not_found_spec(directory: Seq<char>, style: Style) -> Seq<char> {
    "Directory "@ + stressed(directory, style) + " not found!"@
}

/// The line that says that there is no manifest and how to get one.
pub open spec fn manifest_not_found_spec(style: Style) -> Seq<char> {
    stressed(".gitrepos"@, style) + " not found, try "@ + stressed("init"@, style) + " instead!"@
}

/// The directory to work in: `path` where one is given, else `current_dir`.
pub fn target_directory(path: Option<String>, current_dir: String) -> (directory: String)
    ensures
        directory@ == match path {
            Some(path) => path@,
            None => current_dir@,
        },
{
    match path {
        Some(path) => path,
        None => current_dir,
    }
}

/// The manifest file: `config` where one is given, else the file named
/// `.gitrepos` in `directory`.
pub fn manifest_location(directory: &str, config: Option<String>) -> (location: String)
    ensures
        location@ == match config {
            Some(config) => config@,
            None => joined_path(directory@, ".gitrepos"@),
        },
{
    match config {
        Some(config) => config,
        None => join_path(directory, ".gitrepos"),
    }
}

/// `text` as the front end stresses it.
fn stress(text: &str, style: Style) -> (styled: String)
    ensures
        styled@ == stressed(text@, style),
{
    match style {
        Style::Plain => text.to_owned(),
        Style::Ansi => magenta(bold(text).as_str()),
    }
}

/// The line that says that `directory` does not exist.
pub fn directory_not_found(directory: &str, style: Style) -> (line: String)
    ensures
        line@ == directory_not_found_spec(directory@, style),
{
    let mut line = "Directory ".to_owned();
    line.append(stress(directory, style).as_str());
    line.append(" not found!");
    line
}

/// The line that says that there is no manifest and how to get one.
pub fn manifest_not_found(style: Style) -> (line: String)
    ensures
        line@ == manifest_not_found_spec(style),
{
    let mut line = stress(".gitrepos", style);
    line.append(" not found, try ");
    line.append(stress("init", style).as_str());
    line.append(" instead!");
    line
}

/// The line that heads the report.
pub fn header() -> (line: String)
    ensures
        line@ == "Track status:"@,
{
    "Track status:".to_owned()
}

/// A report line as it is printed below the header: after two spaces.
pub fn indented(line: &str) -> (printed: String)
    ensures
        printed@ == "  "@ + line@,
{
    let mut printed = "  ".to_owned();
    printed.append(line);
    printed
}

/// What the front end prints before a run, and whether the run may begin.
#[derive(Clone, Debug, PartialEq, Eq)]
pub struct Preflight {
    /// The lines to print, in order.
    pub lines: Vec<String>,
    /// Whether the manifest is to be loaded and the run to begin.
    pub proceed: bool,
}

/// The lines of a [`Preflight`] for a directory and a manifest file that
/// exist or not: without the directory nothing but the complaint about it;
/// with it the header and, where the manifest is missing, the hint below it.
pub open spec fn preflight_lines(
    directory: Seq<char>,
    directory_exists: bool,
    manifest_exists: bool,
    style: Style,
) -> Seq<Seq<char>> {
    if !directory_exists {
        seq![directory_not_found_spec(directory, style)]
    } else if !manifest_exists {
        seq!["Track status:"@, manifest_not_found_spec(style)]
    } else {
        seq!["Track status:"@]
    }
}

/// Decides how a run begins in `directory`, given whether the directory and
/// the manifest file exist. The run begins only where both do.
pub fn preflight(directory: &str, directory_exists: bool, manifest_exists: bool, style: Style) -> (start:
    Preflight)
    ensures
        start.proceed == (directory_exists && manifest_exists),
        start.lines.deep_view() == preflight_lines(
            directory@,
            directory_exists,
            manifest_exists,
            style,
        ),
{
    let mut lines: Vec<String> = Vec::new();
    if !directory_exists {
        lines.push(directory_not_found(directory, style));
    } else {
        lines.push(header());
        if !manifest_exists {
            lines.push(manifest_not_found(style));
        }
    }
    let start = Preflight { lines, proceed: directory_exists && manifest_exists };
    assert(start.lines.deep_view() =~= preflight_lines(
        directory@,
        directory_exists,
        manifest_exists,
        style,
    ));
    start
}

} // verus!
