//! Text styled for a terminal with the `colored` crate: what each style
//! shows, with colors on or off.
use vstd::prelude::*;
use crate::text::contains_seq;
use colored::Colorize;

verus! {

/// What the `colored` crate shows for `s` styled with the SGR `code`:
/// with colors off, `s` itself; with colors on, `s` between the escape
/// sequence of the style and the reset sequence. (A text that already holds
/// a reset sequence gets the style again after each; that case is left
/// open.)
pub open spec fn colored_as(s: Seq<char>, code: Seq<char>, shown: Seq<char>) -> bool {
    contains_seq(s, "\x1B[0m"@) || shown == s || shown == "\x1B["@ + code + "m"@ + s + "\x1B[0m"@
}

/// `Colorize::bright_cyan` shown as text: `s` bare or in bright cyan (SGR
/// 96), as [`colored_as`] says; which of the two depends on whether colors
/// are on, and that depends on the environment.
#[verifier::external_body]
pub(crate) fn bright_cyan(s: &str) -> (r: String)
    ensures
        colored_as(s@, "96"@, r@),
{
    s.bright_cyan().to_string()
}

/// `Colorize::bright_yellow` shown as text: `s` bare or in bright yellow
/// (SGR 93), as [`colored_as`] says.
#[verifier::external_body]
pub(crate) fn bright_yellow(s: &str) -> (r: String)
    ensures
        colored_as(s@, "93"@, r@),
{
    s.bright_yellow().to_string()
}

/// `Colorize::yellow` shown as text: `s` bare or in yellow (SGR 33), as
/// [`colored_as`] says.
#[verifier::external_body]
pub(crate) fn yellow(s: &str) -> (r: String)
    ensures
        colored_as(s@, "33"@, r@),
{
    s.yellow().to_string()
}

/// `Colorize::bright_blue` shown as text: `s` bare or in bright blue (SGR
/// 94), as [`colored_as`] says.
#[verifier::external_body]
pub(crate) fn bright_blue(s: &str) -> (r: String)
    ensures
        colored_as(s@, "94"@, r@),
{
    s.bright_blue().to_string()
}

/// `Colorize::bright_black` shown as text: `s` bare or in bright black (SGR
/// 90), as [`colored_as`] says.
#[verifier::external_body]
pub(crate) fn bright_black(s: &str) -> (r: String)
    ensures
        colored_as(s@, "90"@, r@),
{
    s.bright_black().to_string()
}

/// `Colorize::green` shown as text: `s` bare or in green (SGR 32), as
/// [`colored_as`] says.
#[verifier::external_body]
pub(crate) fn green(s: &str) -> (r: String)
    ensures
        colored_as(s@, "32"@, r@),
{
    s.green().to_string()
}

/// `Colorize::red` shown as text: `s` bare or in red (SGR 31), as
/// [`colored_as`] says.
#[verifier::external_body]
pub(crate) fn red(s: &str) -> (r: String)
    ensures
        colored_as(s@, "31"@, r@),
{
    s.red().to_string()
}

} // verus!
