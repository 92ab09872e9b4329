//! Obtaining the machine identifier: what the user's answers mean.

use vstd::prelude::*;
use vstd::string::*;
use crate::text::{trim_chars, trimmed};

verus! {

/// How the search for a machine identifier ended.
#[derive(Debug, Clone)]
pub enum UuidResult {
    /// The identifier to use.
    Success(String),
    /// The user gave none.
    Cancelled,
    /// The terminal could not be read or written.
    Error,
}

/// The user's answer to the question whether the detected identifier is to be used.
#[derive(Debug, Clone, Copy, PartialEq, Eq, Structural)]
pub enum Confirmation {
    /// Use the detected identifier.
    Accept,
    /// Enter another one by hand.
    Manual,
    /// The answer was not understood: ask again.
    Retry,
}

/// The text of `text` in lower case, as Unicode defines it.
pub uninterp spec fn lowercased(text: Seq<char>) -> Seq<char>;

/// `str::to_lowercase`.
///
/// Trusted: the result is the lower-case text named by [`lowercased`].
#[verifier::external_body]
fn to_lowercase(text: &str) -> (lower: String)
    ensures
        lower@ == lowercased(text@),
{
    text.to_lowercase()
}

/// What an answer in lower case means: nothing, `y` and `yes` accept; `n` and `no` ask for
/// manual entry; anything else is asked again.
pub open spec fn confirmation_for(answer: Seq<char>) -> Confirmation {
    if answer == Seq::<char>::empty() || answer == seq!['y'] || answer == seq!['y', 'e', 's'] {
        Confirmation::Accept
    } else if answer == seq!['n'] || answer == seq!['n', 'o'] {
        Confirmation::Manual
    } else {
        Confirmation::Retry
    }
}

/// Reads an answer that is in lower case and trimmed already.
pub fn read_confirmation(answer: &Vec<char>) -> (r: Confirmation)
    ensures
        r == confirmation_for(answer@),
{
    let n = answer.len();
    if n == 0 {
        proof {
            assert(answer@ =~= Seq::<char>::empty());
        }
        Confirmation::Accept
    } else if n == 1 {
        proof {
            assert(answer@ =~= seq![answer@[0]]);
        }
        if answer[0] == 'y' {
            Confirmation::Accept
        } else if answer[0] == 'n' {
            Confirmation::Manual
        } else {
            Confirmation::Retry
        }
    } else if n == 2 {
        proof {
            assert(answer@ =~= seq![answer@[0], answer@[1]]);
        }
        if answer[0] == 'n' && answer[1] == 'o' {
            Confirmation::Manual
        } else {
            Confirmation::Retry
        }
    } else if n == 3 {
        proof {
            assert(answer@ =~= seq![answer@[0], answer@[1], answer@[2]]);
        }
        if answer[0] == 'y' && answer[1] == 'e' && answer[2] == 's' {
            Confirmation::Accept
        } else {
            Confirmation::Retry
        }
    } else {
        Confirmation::Retry
    }
}

/// Reads the user's answer: surrounding whitespace and letter case do not matter.
pub fn confirmation(choice: &str) -> (r: Confirmation)
    ensures
        r == confirmation_for(trimmed(lowercased(choice@))),
{
    let lower = to_lowercase(choice);
    let answer = trim_chars(lower.as_str());
    read_confirmation(&answer)
}

/// The result of manual entry: an empty line cancels, anything else is the identifier.
pub fn manual_uuid(uuid: String) -> (r: UuidResult)
    ensures
        uuid@.len() == 0 ==> r is Cancelled,
        uuid@.len() > 0 ==> r == UuidResult::Success(uuid),
{
    if uuid.as_str().is_empty() {
        UuidResult::Cancelled
    } else {
        UuidResult::Success(uuid)
    }
}

/// The identifier that a search ended with, or the empty string where it gave none.
pub fn get_uuid_input(result: UuidResult) -> (uuid: String)
    ensures
        uuid@ == match result {
            UuidResult::Success(found) => found@,
            UuidResult::Cancelled => Seq::<char>::empty(),
            UuidResult::Error => Seq::<char>::empty(),
        },
{
    match result {
        UuidResult::Success(uuid) => uuid,
        UuidResult::Cancelled | UuidResult::Error => String::new(),
    }
}

} // verus!
