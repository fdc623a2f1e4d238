//! The functions that properties apply to values.

use vstd::prelude::*;

use crate::text_util::{
    first_line, first_line_of, index_of, lines, lines_of, lowercase, split_email, uppercase, words,
    words_of,
};

verus! {

/// A point in time, and the offset of the time zone that it was recorded in.
#[derive(Clone, Copy, Debug, PartialEq, Eq)]
pub struct Timestamp {
    pub millis_since_epoch: i64,
    pub tz_offset_minutes: i32,
}

/// Who did something, and when.
#[derive(Clone, Debug, PartialEq, Eq)]
pub struct Signature {
    pub name: String,
    pub email: String,
    pub timestamp: Timestamp,
}

/// The time from one point to another.
#[derive(Clone, Copy, Debug, PartialEq, Eq)]
pub struct TimestampRange {
    pub start: Timestamp,
    pub end: Timestamp,
}

/// A function from a string to a string.
#[derive(Clone, Copy, Debug, PartialEq, Eq)]
pub enum StringFunction {
    FirstLine,
    Upper,
    Lower,
}

impl StringFunction {
    /// The value of the function at `s`.
    pub open spec fn value(self, s: Seq<char>) -> Seq<char> {
        match self {
            StringFunction::FirstLine => first_line_of(s),
            StringFunction::Upper => uppercase(s),
            StringFunction::Lower => lowercase(s),
        }
    }

    pub fn call(self, s: &str) -> (value: String)
        ensures
            value@ == self.value(s@),
    {
        match self {
            StringFunction::FirstLine => first_line(s),
            StringFunction::Upper => s.to_uppercase(),
            StringFunction::Lower => s.to_lowercase(),
        }
    }
}

/// A function from a string to a list of strings.
#[derive(Clone, Copy, Debug, PartialEq, Eq)]
pub enum StringListFunction {
    Lines,
    Words,
}

impl StringListFunction {
    /// The value of the function at `s`.
    pub open spec fn value(self, s: Seq<char>) -> Seq<Seq<char>> {
        match self {
            StringListFunction::Lines => lines_of(s),
            StringListFunction::Words => words_of(s),
        }
    }

    pub fn call(self, s: &str) -> (value: Vec<String>)
        ensures
            value.deep_view() == self.value(s@),
    {
        match self {
            StringListFunction::Lines => lines(s),
            StringListFunction::Words => words(s),
        }
    }
}

/// A function from a signature to a string.
#[derive(Clone, Copy, Debug, PartialEq, Eq)]
pub enum SignatureFunction {
    Name,
    Email,
    /// The email address up to the first `@`.
    Username,
}

impl SignatureFunction {
    /// The value of the function at `signature`.
    pub open spec fn value(self, signature: Signature) -> Seq<char> {
        match self {
            SignatureFunction::Name => signature.name@,
            SignatureFunction::Email => signature.email@,
            SignatureFunction::Username => signature.email@.take(
                index_of(signature.email@, '@') as int,
            ),
        }
    }

    pub fn call(self, signature: Signature) -> (value: String)
        ensures
            value@ == self.value(signature),
    {
        match self {
            SignatureFunction::Name => signature.name,
            SignatureFunction::Email => signature.email,
            SignatureFunction::Username => {
                let (username, _) = split_email(&signature.email);
                username
            },
        }
    }
}

/// A function from a range of time to a timestamp.
#[derive(Clone, Copy, Debug, PartialEq, Eq)]
pub enum TimestampRangeFunction {
    Start,
    End,
}

impl TimestampRangeFunction {
    /// The value of the function at `range`.
    pub open spec fn value(self, range: TimestampRange) -> Timestamp {
        match self {
            TimestampRangeFunction::Start => range.start,
            TimestampRangeFunction::End => range.end,
        }
    }

    pub fn call(self, range: TimestampRange) -> (value: Timestamp)
        ensures
            value == self.value(range),
    {
        match self {
            TimestampRangeFunction::Start => range.start,
            TimestampRangeFunction::End => range.end,
        }
    }
}

/// A string as a condition: whether it is not empty.
pub fn is_not_empty(s: &str) -> (value: bool)
    ensures
        value == (s@.len() != 0),
{
    !s.is_empty()
}

/// The time of a signature.
pub fn signature_timestamp(signature: &Signature) -> (value: Timestamp)
    ensures
        value == signature.timestamp,
{
    signature.timestamp
}

/// The width to wrap text at. What is no width stands for 0.
pub open spec fn fill_width_of(width: i64) -> nat {
    if 0 <= width <= usize::MAX {
        width as nat
    } else {
        0
    }
}

/// The width to wrap text at. What is no width stands for 0.
pub fn fill_width(width: i64) -> (value: usize)
    ensures
        value == fill_width_of(width),
{
    match usize::try_from(width) {
        Ok(width) => width,
        Err(_) => 0,
    }
}

} // verus!
