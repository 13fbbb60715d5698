//! The failures that the library reports.
use vstd::prelude::*;

verus! {

/// Everything that can go wrong inside the library.
#[derive(Clone, Copy, PartialEq, Eq, Structural, Debug)]
pub enum Error {
    /// A request or a default path needs both the year and the day.
    DayOrYearNotSet,
    /// `advance` was called on the last level.
    AlreadyAtFinalLevel,
    /// No stored record exists for the problem.
    NotFound,
    /// A stored record exists but cannot be read back.
    ParseError,
    /// No directory on the way up holds a configuration.
    NoConfigFound,
    /// The session token is neither set nor readable from its file.
    NoCredentialFound,
    /// A fetched page does not have the shape of a problem page.
    MalformedPage,
    /// `checkout` was asked to switch without being given a day.
    NoDayProvided,
    /// A right answer came in, and the count of stars has no room for one
    /// more.
    TooManyStars,
}

impl Error {
    /// The message shown to the user for this error.
    pub fn message(&self) -> (text: &'static str)
        ensures
            text@ == self.message_text(),
    {
        match self {
            Error::DayOrYearNotSet => "day or year not set",
            Error::AlreadyAtFinalLevel => "already on part 2",
            Error::NotFound => "no cached record found",
            Error::ParseError => "cached record is malformed",
            Error::NoConfigFound => "no configuration found, maybe you need to run `aocf init`",
            Error::NoCredentialFound => "cookie not found, please run set-cookie or get-cookie",
            Error::MalformedPage => "page is not a problem page",
            Error::NoDayProvided => "no day provided",
            Error::TooManyStars => "no room for another star",
        }
    }

    /// The characters of `message`.
    pub open spec fn message_text(&self) -> Seq<char> {
        match self {
            Error::DayOrYearNotSet => "day or year not set"@,
            Error::AlreadyAtFinalLevel => "already on part 2"@,
            Error::NotFound => "no cached record found"@,
            Error::ParseError => "cached record is malformed"@,
            Error::NoConfigFound => "no configuration found, maybe you need to run `aocf init`"@,
            Error::NoCredentialFound => "cookie not found, please run set-cookie or get-cookie"@,
            Error::MalformedPage => "page is not a problem page"@,
            Error::NoDayProvided => "no day provided"@,
            Error::TooManyStars => "no room for another star"@,
        }
    }
}

} // verus!
