//! Finding the version that a configuration text declares.

use vstd::prelude::*;

verus! {

/// What a version assignment looks like, as a regular expression: the word
/// `version`, an equals sign with any amount of whitespace on either side
/// (spaces, tabs, line breaks), and the version between two delimiters. A
/// delimiter is a double quote, a single quote or a bar, and what stands
/// between the first delimiter and the last one of its line is the group that
/// is read as the version.
pub const VERSION_PATTERN: &'static str = "version\\s*=\\s*[\"|'](.*)[\"|']";

/// A version, held as the dotted text that stands for it, such as `11.3`.
#[derive(Debug, PartialEq, Eq)]
pub struct Version {
    dotted: String,
}

impl View for Version {
    type V = Seq<char>;

    closed spec fn view(&self) -> Seq<char> {
        self.dotted@
    }
}

/// A version that may be absent, by its dotted text.
pub open spec fn found_view(version: Option<Version>) -> Option<Seq<char>> {
    match version {
        Some(v) => Some(v@),
        None => None,
    }
}

/// The first capture group of the leftmost match of the regular expression
/// `pattern` in `text`, as the `regex` crate finds it. `None` where the crate
/// does not take `pattern` for a regular expression, where nothing in `text`
/// matches it, and where the match leaves the group out.
pub uninterp spec fn first_group(pattern: Seq<char>, text: Seq<char>) -> Option<Seq<char>>;

/// The version that the `version-lp` crate reads out of `text`, in its dotted
/// rendering. `None` where it reads none.
pub uninterp spec fn parsed_version(text: Seq<char>) -> Option<Seq<char>>;

/// The version that a configuration text declares: what the first version
/// assignment in it holds between its delimiters, read as a version.
pub open spec fn declared_version(text: Seq<char>) -> Option<Seq<char>> {
    match first_group(VERSION_PATTERN@, text) {
        Some(payload) => parsed_version(payload),
        None => None,
    }
}

/// Compiles `pattern` with `regex::Regex::new`, searches `text` with
/// `Regex::captures` and hands out the part of `text` that `Captures::get(1)`
/// marks. Trusted: the result is a function of the two texts alone, which
/// `first_group` names. Nothing is claimed of what a pattern matches.
#[verifier::external_body]
fn capture_first_group<'a>(pattern: &str, text: &'a str) -> (payload: Option<&'a str>)
    ensures
        payload.deep_view() == first_group(pattern@, text@),
{
    let expression = regex::Regex::new(pattern).ok()?;
    let captures = expression.captures(text)?;
    Some(captures.get(1)?.as_str())
}

/// Reads a version with `version_lp::Version::from_str` and renders it with
/// `Version::to_string`. Trusted: the result is a function of the text alone,
/// which `parsed_version` names. Nothing is claimed of which texts hold a
/// version.
#[verifier::external_body]
fn render_version(text: &str) -> (rendering: Option<String>)
    ensures
        rendering.deep_view() == parsed_version(text@),
{
    match version_lp::Version::from_str(text) {
        Some(parsed) => Some(parsed.to_string()),
        None => None,
    }
}

impl Version {
    /// Reads a version out of a text. `None` where the text holds none.
    pub fn from_str(text: &str) -> (version: Option<Version>)
        ensures
            found_view(version) == parsed_version(text@),
    {
        match render_version(text) {
            Some(dotted) => Some(Version { dotted }),
            None => None,
        }
    }

    /// The dotted text of the version.
    pub fn to_string(&self) -> (text: String)
        ensures
            text@ == self@,
    {
        self.dotted.clone()
    }
}

/// Looks for the first version assignment in a configuration text and reads the
/// version it holds. `None` where there is no assignment, and where what it
/// holds is no version.
pub fn get_version_from_file(file_content: &str) -> (found: Option<Version>)
    ensures
        found_view(found) == declared_version(file_content@),
{
    match capture_first_group(VERSION_PATTERN, file_content) {
        Some(payload) => Version::from_str(payload),
        None => None,
    }
}

} // verus!
