//! Why a room or its streams could not be read.

use vstd::prelude::*;

verus! {

/// A failed query: what to tell the user, and whether the platform asked to slow down.
#[derive(Debug)]
pub struct ParseError {
    message: String,
    rate_limited: bool,
}

/// What a [`ParseError`] says.
pub struct Failure {
    pub message: Seq<char>,
    pub rate_limited: bool,
}

/// An ordinary failure.
pub open spec fn failure(message: Seq<char>) -> Failure {
    Failure { message, rate_limited: false }
}

/// A failure by which the platform asks to slow down.
pub open spec fn slow_down(message: Seq<char>) -> Failure {
    Failure { message, rate_limited: true }
}

impl View for ParseError {
    type V = Failure;

    closed spec fn view(&self) -> Failure {
        Failure { message: self.message@, rate_limited: self.rate_limited }
    }
}

impl Clone for ParseError {
    fn clone(&self) -> (copy: Self)
        ensures
            copy@ == self@,
    {
        Self { message: self.message.clone(), rate_limited: self.rate_limited }
    }
}

impl ParseError {
    /// An ordinary failure.
    pub fn new(message: String) -> (error: Self)
        ensures
            error@ == failure(message@),
    {
        Self { message, rate_limited: false }
    }

    /// A failure by which the platform asks to slow down.
    pub fn rate_limited(message: String) -> (error: Self)
        ensures
            error@ == slow_down(message@),
    {
        Self { message, rate_limited: true }
    }

    /// Whether the platform asked to slow down.
    pub fn is_rate_limited(&self) -> (limited: bool)
        ensures
            limited == self@.rate_limited,
    {
        self.rate_limited
    }

    /// What to tell the user.
    pub fn message(&self) -> (message: &str)
        ensures
            message@ == self@.message,
    {
        self.message.as_str()
    }
}

/// A failure says what it was made with, and asks to slow down only where it was made to.
pub proof fn law_failures_say_what_they_were_made_with(
    message: String,
    plain: ParseError,
    limited: ParseError,
    plain_says: &str,
    limited_says: &str,
    plain_is_limited: bool,
    limited_is_limited: bool,
)
    requires
        call_ensures(ParseError::new, (message,), plain),
        call_ensures(ParseError::message, (&plain,), plain_says),
        call_ensures(ParseError::is_rate_limited, (&plain,), plain_is_limited),
        call_ensures(ParseError::rate_limited, (message,), limited),
        call_ensures(ParseError::message, (&limited,), limited_says),
        call_ensures(ParseError::is_rate_limited, (&limited,), limited_is_limited),
    ensures
        plain_says@ == message@,
        !plain_is_limited,
        limited_says@ == message@,
        limited_is_limited,
{
}

/// A copy of a failure says the same.
pub proof fn law_copies_of_failures(error: ParseError, copy: ParseError)
    requires
        call_ensures(ParseError::clone, (&error,), copy),
    ensures
        copy@.message == error@.message,
        copy@.rate_limited == error@.rate_limited,
{
}

} // verus!
