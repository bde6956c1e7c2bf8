//! Colored text fragments for terminal output: the text wrapped in the
//! styling library's escape sequences.

use vstd::prelude::*;

use owo_colors::OwoColorize;

verus! {

/// Text set in bold blue: the bold and blue escape codes, the text,
/// then the default-foreground and reset codes, exactly as the styling
/// library writes them.
pub open spec fn spec_blue_bold(s: Seq<char>) -> Seq<char> {
    "\u{1b}[1m\u{1b}[34m"@ + s + "\u{1b}[39m\u{1b}[0m"@
}

/// Text set in bold green, by the same scheme.
pub open spec fn spec_green_bold(s: Seq<char>) -> Seq<char> {
    "\u{1b}[1m\u{1b}[32m"@ + s + "\u{1b}[39m\u{1b}[0m"@
}

/// Relies on `owo_colors::OwoColorize::blue` and `bold`: each writes
/// its escape code, the wrapped text, and its closing code,
/// unconditionally, so the result is this fixed concatenation.
#[verifier::external_body]
fn blue_bold(s: &str) -> (r: String)
    ensures
        r@ == spec_blue_bold(s@),
{
    s.blue().bold().to_string()
}

/// Relies on `owo_colors::OwoColorize::green` and `bold`: as with the
/// blue styling, a fixed concatenation around the text.
#[verifier::external_body]
fn green_bold(s: &str) -> (r: String)
    ensures
        r@ == spec_green_bold(s@),
{
    s.green().bold().to_string()
}

/// The bold blue double colon that leads the launcher's headings.
pub fn cols() -> (r: String)
    ensures
        r@ == spec_blue_bold("::"@),
{
    blue_bold("::")
}

/// The bold green arrow that leads the launcher's progress lines.
pub fn green_arrow() -> (r: String)
    ensures
        r@ == spec_green_bold("==>"@),
{
    green_bold("==>")
}

} // verus!
