//! The lines that a crawl reports: one on the console for each link found,
//! one in the output for each link recorded.

use crate::kind::MatchKind;
use vstd::prelude::*;
use vstd::string::*;

verus! {

/// The word for a kind in a console line.
pub open spec fn kind_word(kind: MatchKind) -> Seq<char> {
    match kind {
        MatchKind::Url => "url"@,
        MatchKind::Email => "email"@,
    }
}

/// The console line for a link: `Found url: ` or `Found email: `, then its text.
pub open spec fn found_text(kind: MatchKind, value: Seq<char>) -> Seq<char> {
    "Found "@ + kind_word(kind) + ": "@ + value
}

/// What the output gains for a link: its text, then a newline.
pub open spec fn sink_text(value: Seq<char>) -> Seq<char> {
    value + "\n"@
}

/// The console line for a link of the given kind, without a newline.
pub fn found_line(kind: MatchKind, value: &str) -> (line: String)
    ensures
        line@ == found_text(kind, value@),
{
    let mut line = String::from_str("Found ");
    match kind {
        MatchKind::Url => line.append("url"),
        MatchKind::Email => line.append("email"),
    }
    line.append(": ");
    line.append(value);
    line
}

/// The text to append to the output for a link.
pub fn sink_line(value: &str) -> (line: String)
    ensures
        line@ == sink_text(value@),
{
    let mut line = String::from_str(value);
    line.append("\n");
    line
}

} // verus!
