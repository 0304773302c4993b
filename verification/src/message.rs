//! Composing the commit message from the branch name and the typed message.

use crate::ticket::{parsed, Parsed, Ticket};
use vstd::prelude::*;
use vstd::string::StringExecFns;

verus! {

/// The uppercase mapping of `c`: the characters that `char::to_uppercase`
/// yields for it, in order.
pub uninterp spec fn uppercase_of(c: char) -> Seq<char>;

/// The uppercase mapping of `c` as a string.
///
/// Trusted: that `char::to_uppercase` depends on `c` alone, so that what it
/// yields is `uppercase_of(c)`. Nothing is claimed about the mapping itself.
#[verifier::external_body]
fn uppercase(c: char) -> (upper: String)
    ensures
        upper@ == uppercase_of(c),
{
    c.to_uppercase().collect()
}

/// `text` with its first character replaced by that character's uppercase
/// mapping; the empty text stays empty.
pub open spec fn capitalized(text: Seq<char>) -> Seq<char> {
    if text.len() == 0 {
        text
    } else {
        uppercase_of(text[0]) + text.subrange(1, text.len() as int)
    }
}

/// Upper-cases the first character of `s` and leaves the rest as it is.
pub fn capitalize_first(s: &str) -> (capital: String)
    ensures
        capital@ == capitalized(s@),
{
    if s.is_empty() {
        return String::new();
    }
    let len = s.unicode_len();
    let mut capital = uppercase(s.get_char(0));
    capital.append(s.substring_char(1, len));
    capital
}

/// Why no commit message could be composed.
#[derive(Debug, PartialEq, Eq)]
pub enum CompositionError {
    /// The branch and the message each name a ticket, and the two differ.
    TicketMismatch { branch: String, message: String },
    /// The message holds no text beyond, at most, a ticket.
    EmptyMessage,
}

/// A `CompositionError` with its texts as sequences of characters.
pub enum CompositionFailure {
    TicketMismatch { branch: Seq<char>, message: Seq<char> },
    EmptyMessage,
}

impl View for CompositionError {
    type V = CompositionFailure;

    open spec fn view(&self) -> CompositionFailure {
        match self {
            CompositionError::TicketMismatch { branch, message } => {
                CompositionFailure::TicketMismatch { branch: branch@, message: message@ }
            },
            CompositionError::EmptyMessage => CompositionFailure::EmptyMessage,
        }
    }
}

/// The outcome of composing, with its texts as sequences of characters.
pub open spec fn outcome_view(outcome: Result<String, CompositionError>) -> Result<
    Seq<char>,
    CompositionFailure,
> {
    match outcome {
        Ok(text) => Ok(text@),
        Err(error) => Err(error@),
    }
}

/// Both sides name a ticket and the two tickets are not the same text.
pub open spec fn tickets_conflict(branch: Parsed, message: Parsed) -> bool {
    branch.0 is Some && message.0 is Some && branch.0 != message.0
}

/// The ticket that the commit message opens with: the message's own, else the
/// branch's, else none.
pub open spec fn leading_ticket(branch: Parsed, message: Parsed) -> Option<Seq<char>> {
    if message.0 is Some {
        message.0
    } else {
        branch.0
    }
}

/// `ticket`, a space and the capitalized `text`; without a ticket, the
/// capitalized `text` alone.
pub open spec fn headed(ticket: Option<Seq<char>>, text: Seq<char>) -> Seq<char> {
    match ticket {
        Some(ticket) => ticket + seq![' '] + capitalized(text),
        None => capitalized(text),
    }
}

/// The commit message for a parsed branch name and a parsed message, or the
/// reason there is none. Conflicting tickets are refused before anything
/// else; then a message without remainder is refused.
pub open spec fn composed(branch: Parsed, message: Parsed) -> Result<
    Seq<char>,
    CompositionFailure,
> {
    if tickets_conflict(branch, message) {
        Err(
            CompositionFailure::TicketMismatch {
                branch: branch.0.unwrap(),
                message: message.0.unwrap(),
            },
        )
    } else {
        match message.1 {
            None => Err(CompositionFailure::EmptyMessage),
            Some(text) => Ok(headed(leading_ticket(branch, message), text)),
        }
    }
}

/// `ticket`, a space and the capitalized `text`.
fn with_ticket(ticket: &str, text: &str) -> (line: String)
    ensures
        line@ == headed(Some(ticket@), text@),
{
    proof {
        reveal_strlit(" ");
    }
    let mut line = String::from_str(ticket);
    line.append(" ");
    let capital = capitalize_first(text);
    line.append(capital.as_str());
    assert(" "@ =~= seq![' ']);
    line
}

/// Reconciles the parsed branch name with the parsed message and composes the
/// commit message.
pub fn compose(
    branch: (Option<&str>, Option<&str>),
    message: (Option<&str>, Option<&str>),
) -> (outcome: Result<String, CompositionError>)
    ensures
        outcome_view(outcome) == composed(branch.deep_view(), message.deep_view()),
{
    if let (Some(ours), Some(theirs)) = (branch.0, message.0) {
        let ours = String::from_str(ours);
        let theirs = String::from_str(theirs);
        if !(ours == theirs) {
            return Err(CompositionError::TicketMismatch { branch: ours, message: theirs });
        }
    }
    match message.1 {
        None => Err(CompositionError::EmptyMessage),
        Some(text) => match (message.0, branch.0) {
            (Some(ticket), _) => Ok(with_ticket(ticket, text)),
            (None, Some(ticket)) => Ok(with_ticket(ticket, text)),
            (None, None) => Ok(capitalize_first(text)),
        },
    }
}

/// Composes the commit message from the branch name `br` and the message
/// `msg` as typed.
pub fn create_commit(br: &str, msg: &str) -> (outcome: Result<String, CompositionError>)
    ensures
        outcome_view(outcome) == composed(parsed(br@), parsed(msg@)),
{
    compose(br.to_ticket(), msg.to_ticket())
}

/// The decision table of composing, rule by rule, in the order in which the
/// rules apply: conflicting tickets fail; a ticket from the branch heads a
/// message that has none of its own; a ticket in the message heads its
/// remainder, whatever the branch says, unless the two conflict; a message
/// without remainder fails; and without any ticket the remainder stands
/// alone, capitalized.
pub proof fn lemma_decision_table(branch: Parsed, message: Parsed)
    ensures
        tickets_conflict(branch, message) ==> composed(branch, message) == Err::<
            Seq<char>,
            CompositionFailure,
        >(
            CompositionFailure::TicketMismatch {
                branch: branch.0.unwrap(),
                message: message.0.unwrap(),
            },
        ),
        branch.0 is Some && message.0 is None && message.1 is Some ==> composed(branch, message)
            == Ok::<Seq<char>, CompositionFailure>(
            branch.0.unwrap() + seq![' '] + capitalized(message.1.unwrap()),
        ),
        !tickets_conflict(branch, message) && message.0 is Some && message.1 is Some ==> composed(
            branch,
            message,
        ) == Ok::<Seq<char>, CompositionFailure>(
            message.0.unwrap() + seq![' '] + capitalized(message.1.unwrap()),
        ),
        !tickets_conflict(branch, message) && message.1 is None ==> composed(branch, message)
            == Err::<Seq<char>, CompositionFailure>(CompositionFailure::EmptyMessage),
        branch.0 is None && message.0 is None && message.1 is Some ==> composed(branch, message)
            == Ok::<Seq<char>, CompositionFailure>(capitalized(message.1.unwrap())),
{
}

/// A message is composed exactly where the message has a remainder and the
/// tickets, if both sides name one, agree.
pub proof fn lemma_composed_iff(branch: Parsed, message: Parsed)
    ensures
        composed(branch, message) is Ok <==> message.1 is Some && !tickets_conflict(
            branch,
            message,
        ),
{
}

/// What the branch holds after its ticket plays no part in the message.
pub proof fn lemma_branch_remainder_is_ignored(
    ticket: Option<Seq<char>>,
    first: Option<Seq<char>>,
    second: Option<Seq<char>>,
    message: Parsed,
)
    ensures
        composed((ticket, first), message) == composed((ticket, second), message),
{
}

impl CompositionError {
    /// The error in words.
    pub open spec fn described(failure: CompositionFailure) -> Seq<char> {
        match failure {
            CompositionFailure::TicketMismatch { branch, message } => {
                "Branch and message tickets do not match: "@ + branch + " and "@ + message
            },
            CompositionFailure::EmptyMessage => "No commit message found"@,
        }
    }

    /// The error in words, for whoever typed the message.
    pub fn describe(&self) -> (text: String)
        ensures
            text@ == Self::described(self@),
    {
        match self {
            CompositionError::TicketMismatch { branch, message } => {
                let mut text = String::from_str("Branch and message tickets do not match: ");
                text.append(branch.as_str());
                text.append(" and ");
                text.append(message.as_str());
                text
            },
            CompositionError::EmptyMessage => String::from_str("No commit message found"),
        }
    }
}

} // verus!
