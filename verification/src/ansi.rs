use vstd::prelude::*;

use owo_colors::OwoColorize;

use crate::text::dec_rep;

verus! {

/// Text wrapped in the 24-bit foreground color escape and the
/// foreground reset, each color component in decimal.
pub open spec fn truecolor_spec(s: Seq<char>, r: u8, g: u8, b: u8) -> Seq<char> {
    "\u{1b}[38;2;"@ + dec_rep(r as nat) + ";"@ + dec_rep(g as nat) + ";"@ + dec_rep(b as nat)
        + "m"@ + s + "\u{1b}[39m"@
}

/// Text wrapped in the bold escape and the style reset.
pub open spec fn bold_spec(s: Seq<char>) -> Seq<char> {
    "\u{1b}[1m"@ + s + "\u{1b}[0m"@
}

/// Text wrapped in the dim escape and the style reset.
pub open spec fn dim_spec(s: Seq<char>) -> Seq<char> {
    "\u{1b}[2m"@ + s + "\u{1b}[0m"@
}

/// Relies on owo_colors::OwoColorize::truecolor: displaying the styled
/// text writes the RGB foreground escape (the components in decimal),
/// the text, and the foreground reset.
#[verifier::external_body]
pub(crate) fn styled_truecolor(s: &str, r: u8, g: u8, b: u8) -> (out: String)
    ensures
        out@ == truecolor_spec(s@, r, g, b),
{
    format!("{}", s.truecolor(r, g, b))
}

/// Relies on owo_colors::OwoColorize::bold: displaying the styled text
/// writes the bold escape, the text, and the style reset.
#[verifier::external_body]
pub(crate) fn styled_bold(s: &str) -> (out: String)
    ensures
        out@ == bold_spec(s@),
{
    format!("{}", s.bold())
}

/// Relies on owo_colors::OwoColorize::dimmed: displaying the styled
/// text writes the dim escape, the text, and the style reset.
#[verifier::external_body]
pub(crate) fn styled_dimmed(s: &str) -> (out: String)
    ensures
        out@ == dim_spec(s@),
{
    format!("{}", s.dimmed())
}

} // verus!
