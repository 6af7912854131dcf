//! Terminal styling of report text, done by `owo_colors`.

use vstd::prelude::*;
use owo_colors::OwoColorize;

verus! {

/// `text` between the escape sequence that sets the foreground colour with
/// the ANSI number `code` and the one that resets the foreground.
pub open spec fn in_colour(code: Seq<char>, text: Seq<char>) -> Seq<char> {
    "\x1b["@ + code + "m"@ + text + "\x1b[39m"@
}

/// `text` as a terminal shows it in magenta.
pub open spec fn magenta_text(text: Seq<char>) -> Seq<char> {
    in_colour("35"@, text)
}

/// `text` as a terminal shows it in red.
pub open spec fn red_text(text: Seq<char>) -> Seq<char> {
    in_colour("31"@, text)
}

/// `text` as a terminal shows it in blue.
pub open spec fn blue_text(text: Seq<char>) -> Seq<char> {
    in_colour("34"@, text)
}

/// `text` as a terminal shows it in bold: between the escape sequence that
/// switches bold on and the one that resets every attribute.
pub open spec fn bold_text(text: Seq<char>) -> Seq<char> {
    "\x1b[1m"@ + text + "\x1b[0m"@
}

/// Calls `OwoColorize::magenta` of `owo_colors` and renders the result.
///
/// Trusted: the rendering writes `ESC[35m`, then the text unchanged, then
/// `ESC[39m`, as the crate's formatter for a foreground colour does.
#[verifier::external_body]
pub(crate) fn magenta(text: &str) -> (styled: String)
    ensures
        styled@ == magenta_text(text@),
{
    format!("{}", text.magenta())
}

/// Calls `OwoColorize::red` of `owo_colors` and renders the result.
///
/// Trusted: the rendering writes `ESC[31m`, then the text unchanged, then
/// `ESC[39m`.
#[verifier::external_body]
pub(crate) fn red(text: &str) -> (styled: String)
    ensures
        styled@ == red_text(text@),
{
    format!("{}", text.red())
}

/// Calls `OwoColorize::blue` of `owo_colors` and renders the result.
///
/// Trusted: the rendering writes `ESC[34m`, then the text unchanged, then
/// `ESC[39m`.
#[verifier::external_body]
pub(crate) fn blue(text: &str) -> (styled: String)
    ensures
        styled@ == blue_text(text@),
{
    format!("{}", text.blue())
}

/// Calls `OwoColorize::bold` of `owo_colors` and renders the result.
///
/// Trusted: the rendering writes `ESC[1m`, then the text unchanged, then
/// `ESC[0m`.
#[verifier::external_body]
pub(crate) fn bold(text: &str) -> (styled: String)
    ensures
        styled@ == bold_text(text@),
{
    format!("{}", text.bold())
}

} // verus!
