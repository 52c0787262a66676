//! The error type shared by the library's menus and prompts.

use vstd::prelude::*;

verus! {

/// serenity's error type, carried through the library unopened.
#[verifier::external_type_specification]
#[verifier::external_body]
pub struct ExSerenityError(serenity::prelude::SerenityError);

/// A common error type for the menus and prompts of the library.
#[derive(Debug)]
pub enum Error {
    /// An error returned by serenity while talking to the chat platform.
    SerenityError(serenity::prelude::SerenityError),
    /// No qualifying input arrived before the deadline.
    TimeoutError,
    /// The user's reaction matched no known choice.
    InvalidChoice,
    /// Any other failure, described in words.
    Other(String),
}

/// Relies on serenity's `Display` for its error: the text of the error.
#[verifier::external_body]
fn serenity_error_text(e: &serenity::prelude::SerenityError) -> String {
    e.to_string()
}

/// The text of a timeout.
pub open spec fn timeout_text() -> Seq<char> {
    "You took too long to respond."@
}

/// The text of an invalid choice.
pub open spec fn invalid_choice_text() -> Seq<char> {
    "Invalid choice!"@
}

impl Error {
    /// The error as a message for the user.
    pub fn to_string(&self) -> (r: String)
        ensures
            self is TimeoutError ==> r@ == timeout_text(),
            self is InvalidChoice ==> r@ == invalid_choice_text(),
            self matches Error::Other(s) ==> r@ == s@,
    {
        match self {
            Error::SerenityError(e) => serenity_error_text(e),
            Error::TimeoutError => String::from_str("You took too long to respond."),
            Error::InvalidChoice => String::from_str("Invalid choice!"),
            Error::Other(s) => s.clone(),
        }
    }
}

impl From<serenity::prelude::SerenityError> for Error {
    fn from(e: serenity::prelude::SerenityError) -> (r: Error) {
        Error::SerenityError(e)
    }
}

impl vstd::std_specs::convert::FromSpecImpl<serenity::prelude::SerenityError> for Error {
    open spec fn obeys_from_spec() -> bool {
        true
    }

    open spec fn from_spec(e: serenity::prelude::SerenityError) -> Error {
        Error::SerenityError(e)
    }
}

impl From<String> for Error {
    fn from(s: String) -> (r: Error) {
        Error::Other(s)
    }
}

impl vstd::std_specs::convert::FromSpecImpl<String> for Error {
    open spec fn obeys_from_spec() -> bool {
        true
    }

    open spec fn from_spec(s: String) -> Error {
        Error::Other(s)
    }
}

} // verus!
