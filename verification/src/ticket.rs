//! Splitting a line of text into a ticket and the text that follows it.

use vstd::prelude::*;

verus! {

/// The ticket grammar: upper-case letters, a hyphen and digits at the very
/// start; then any run of non-whitespace glued to the ticket; then, after
/// whitespace, the rest of the line.
pub const TICKET_PATTERN: &'static str = r"^([A-Z]+-\d+)(\S*)?(?:\s+(.*))?$";

/// Index of the capture group that holds the ticket.
pub const TICKET_GROUP: usize = 1;

/// Index of the capture group that holds the text after the ticket.
pub const REMAINDER_GROUP: usize = 3;

/// The capture groups of a match, as text: one entry per group, group 0 (the
/// whole match) first, `None` for a group that took no part in the match.
pub type Groups = Seq<Option<Seq<char>>>;

/// What parsing yields: the ticket, if any, and the remainder, if any.
pub type Parsed = (Option<Seq<char>>, Option<Seq<char>>);

/// Whether the regex engine accepts `pattern`: whether `regex::Regex::new`
/// returns `Ok` for it.
pub uninterp spec fn pattern_compiles(pattern: Seq<char>) -> bool;

/// What the regex engine captures at the first match of `pattern` in `text`,
/// for a pattern that it accepts: the result of `regex::Regex::captures`,
/// `None` where nothing matches.
pub uninterp spec fn first_match(pattern: Seq<char>, text: Seq<char>) -> Option<Groups>;

#[verifier::external_type_specification]
#[verifier::external_body]
pub struct ExRegexError(regex::Error);

/// Compiles `pattern` with `regex::Regex::new` and searches `text` with
/// `regex::Regex::captures`, handing out each group of the match as the piece
/// of `text` it covers (`regex::Match::as_str`).
///
/// Trusted: that compiling and searching depend on `pattern` and `text` alone,
/// so that the outcome is `pattern_compiles` and `first_match` of the two.
/// Nothing is claimed about which patterns compile or what they match.
#[verifier::external_body]
fn captures<'t>(pattern: &str, text: &'t str) -> (found: Result<
    Option<Vec<Option<&'t str>>>,
    regex::Error,
>)
    ensures
        found is Ok <==> pattern_compiles(pattern@),
        found matches Ok(groups) ==> groups.deep_view() == first_match(pattern@, text@),
{
    let compiled = regex::Regex::new(pattern)?;
    Ok(compiled.captures(text).map(|caps| caps.iter().map(|m| m.map(|m| m.as_str())).collect()))
}

/// The group at index `i`, or `None` where there is no such group.
pub open spec fn group_at(groups: Groups, i: int) -> Option<Seq<char>> {
    if 0 <= i < groups.len() {
        groups[i]
    } else {
        None
    }
}

/// The parse of `input`, given what the ticket grammar captured in it
/// (`None`: the grammar does not match `input`).
pub open spec fn parts_of(input: Seq<char>, found: Option<Groups>) -> Parsed {
    if input.len() == 0 {
        (None, None)
    } else {
        match found {
            Some(groups) => (
                group_at(groups, TICKET_GROUP as int),
                group_at(groups, REMAINDER_GROUP as int),
            ),
            None => (None, Some(input)),
        }
    }
}

/// What the ticket grammar captures in `input`: the groups of its match, or
/// `None` where it does not match. A pattern that the engine refused would
/// match nothing.
pub open spec fn grammar_match(input: Seq<char>) -> Option<Groups> {
    if pattern_compiles(TICKET_PATTERN@) {
        first_match(TICKET_PATTERN@, input)
    } else {
        None
    }
}

/// The ticket and the remainder of `input`.
pub open spec fn parsed(input: Seq<char>) -> Parsed {
    parts_of(input, grammar_match(input))
}

/// Text that can be split into a ticket and a remainder.
pub trait Ticket {
    /// Splits the text into its leading ticket and what follows it.
    fn to_ticket(&self) -> (Option<&str>, Option<&str>);
}

impl Ticket for str {
    /// An empty line has neither part. A line that starts with a ticket yields
    /// the ticket and, where whitespace and more text follow, that text. Any
    /// other line is remainder as a whole.
    fn to_ticket(&self) -> (parts: (Option<&str>, Option<&str>))
        ensures
            parts.deep_view() == parsed(self@),
    {
        if self.is_empty() {
            return (None, None);
        }
        let found = match captures(TICKET_PATTERN, self) {
            Ok(found) => found,
            Err(_) => None,
        };
        ticket_parts(self, found)
    }
}

/// Picks the ticket and the remainder out of the groups that the ticket
/// grammar captured in `input`.
pub fn ticket_parts<'a>(input: &'a str, found: Option<Vec<Option<&'a str>>>) -> (parts: (
    Option<&'a str>,
    Option<&'a str>,
))
    ensures
        parts.deep_view() == parts_of(input@, found.deep_view()),
{
    if input.is_empty() {
        return (None, None);
    }
    match found {
        Some(groups) => {
            let ticket = if TICKET_GROUP < groups.len() {
                groups[TICKET_GROUP]
            } else {
                None
            };
            let remainder = if REMAINDER_GROUP < groups.len() {
                groups[REMAINDER_GROUP]
            } else {
                None
            };
            (ticket, remainder)
        },
        None => (None, Some(input)),
    }
}

/// A line that is not empty and that the ticket grammar does not match is
/// remainder as a whole, and has no ticket.
pub proof fn lemma_unmatched_line_is_remainder(input: Seq<char>)
    requires
        input.len() > 0,
        grammar_match(input) is None,
    ensures
        parsed(input) == (None::<Seq<char>>, Some(input)),
{
}

/// Of a match, the ticket and the text after the whitespace are all that
/// counts: what is glued to the ticket, and the extent of the whole match,
/// change nothing.
pub proof fn lemma_glued_suffix_is_ignored(input: Seq<char>, one: Groups, other: Groups)
    requires
        group_at(one, TICKET_GROUP as int) == group_at(other, TICKET_GROUP as int),
        group_at(one, REMAINDER_GROUP as int) == group_at(other, REMAINDER_GROUP as int),
    ensures
        parts_of(input, Some(one)) == parts_of(input, Some(other)),
{
}

} // verus!
