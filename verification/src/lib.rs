//! Commit messages that carry a ticket reference.
//!
//! A branch such as `ABC-123-short-description` names the ticket a change
//! belongs to. This crate parses that ticket out of the branch name and out of
//! the message the user typed, reconciles the two, and plans the sequence of
//! repository operations that turns the result into a commit.

pub mod message;
pub mod ticket;
pub mod transaction;

pub use message::{capitalize_first, compose, create_commit, CompositionError};
pub use ticket::{ticket_parts, Ticket, TICKET_PATTERN};
pub use transaction::{
    has_uncommitted_changes, ObjectId, Outcome, Progress, Request, Step, Transaction,
    TransactionError,
};
