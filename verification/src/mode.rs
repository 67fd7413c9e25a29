//! The launch mode that a caller asks for.

use vstd::prelude::*;

verus! {

/// A text in lower case, as `str::to_lowercase` gives it.
pub uninterp spec fn lowercase_text(text: Seq<char>) -> Seq<char>;

/// Puts a text in lower case with `str::to_lowercase`.  The contract only
/// gives the outcome its name: it is a function of the text alone.
#[verifier::external_body]
fn lowercased(text: &str) -> (lower: String)
    ensures
        lower@ == lowercase_text(text@),
{
    text.to_lowercase()
}

/// Whether a mode, already in lower case, asks for a launch without a
/// graphical display.  Only the word `headless` does.
pub fn mode_is_headless(mode: &str) -> (headless: bool)
    ensures
        headless == (mode@ == "headless"@),
{
    let given = String::from_str(mode);
    let word = String::from_str("headless");
    given == word
}

/// Whether an answer asks for a launch without a graphical display: it does
/// where it reads `headless` in any mix of upper and lower case.  Every other
/// answer stands for the graphical mode.
pub fn wants_headless(answer: &str) -> (headless: bool)
    ensures
        headless == (lowercase_text(answer@) == "headless"@),
{
    let lower = lowercased(answer);
    mode_is_headless(lower.as_str())
}

} // verus!
