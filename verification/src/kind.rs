//! The kind of link that a run records, and how it is chosen from text.

use vstd::prelude::*;
use vstd::string::*;

verus! {

/// Which links a run records.
#[derive(Clone, Copy, Debug, PartialEq, Eq, Structural)]
pub enum MatchKind {
    Url,
    Email,
}

/// A kind was asked for that does not exist. `input` is the text as given.
#[derive(Debug)]
pub struct KindError {
    pub input: String,
}

/// The lowercase form of a text, as `str::to_lowercase` computes it.
pub uninterp spec fn lowercase_of(s: Seq<char>) -> Seq<char>;

/// The kind that a lowercased text stands for, if any.
pub open spec fn kind_named(lowered: Seq<char>) -> Option<MatchKind> {
    if lowered == "url"@ {
        Some(MatchKind::Url)
    } else if lowered == "email"@ {
        Some(MatchKind::Email)
    } else {
        None
    }
}

/// What resolving `input` gives, once its lowercase form is known: the kind
/// that the lowercase form names, or else an error that carries `input`.
pub open spec fn resolution_matches(
    lowered: Seq<char>,
    input: Seq<char>,
    r: Result<MatchKind, KindError>,
) -> bool {
    match r {
        Ok(k) => kind_named(lowered) == Some(k),
        Err(e) => kind_named(lowered).is_none() && e.input@ == input,
    }
}

/// The text of the message that reports a `KindError` for `input`.
pub open spec fn message_text(input: Seq<char>) -> Seq<char> {
    "`"@ + input + "` is not a valid kind.\nValid kinds are: Email and Url."@
}

/// Calls `str::to_lowercase`. The result is the lowercase form of the whole
/// text by Unicode's rules; the contract only gives it its name.
#[verifier::external_body]
fn to_lowercase(s: &str) -> (lowered: String)
    ensures
        lowered@ == lowercase_of(s@),
{
    s.to_lowercase()
}

/// Whether two texts are the same.
fn same_text(a: &str, b: &str) -> (same: bool)
    ensures
        same == (a@ == b@),
{
    let x = String::from_str(a);
    let y = String::from_str(b);
    x == y
}

/// Resolves a kind from the lowercase form of what was asked for.
/// `input` is the text as given, which an error hands back.
pub fn kind_from_lowered(lowered: &str, input: String) -> (r: Result<MatchKind, KindError>)
    ensures
        resolution_matches(lowered@, input@, r),
{
    if same_text(lowered, "url") {
        Ok(MatchKind::Url)
    } else if same_text(lowered, "email") {
        Ok(MatchKind::Email)
    } else {
        Err(KindError { input })
    }
}

/// Resolves a kind from text, whatever its case: `url` or `email`.
/// Any other text is an error that carries the text as given.
pub fn match_kind(kind_as_str: String) -> (r: Result<MatchKind, KindError>)
    ensures
        resolution_matches(lowercase_of(kind_as_str@), kind_as_str@, r),
{
    let lowered = to_lowercase(kind_as_str.as_str());
    kind_from_lowered(lowered.as_str(), kind_as_str)
}

impl KindError {
    /// The message for the user: it names the text that was given and lists
    /// the kinds that exist.
    pub fn message(&self) -> (msg: String)
        ensures
            msg@ == message_text(self.input@),
    {
        let mut msg = String::from_str("`");
        msg.append(self.input.as_str());
        msg.append("` is not a valid kind.\nValid kinds are: Email and Url.");
        msg
    }
}

} // verus!
