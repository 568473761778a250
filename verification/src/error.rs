//! Errors of the library.
use vstd::prelude::*;

verus! {

/// An error, by the part of the system that raised it.
#[derive(Debug)]
pub enum Error {
    /// Channel (NapCatQQ, media download) error.
    Channel(String),
    /// Tool error (local files).
    Tool(String),
    /// Skill dispatch error.
    Skill(String),
    /// Storage error.
    Storage(String),
}

/// The message an error carries.
pub open spec fn error_text(e: Error) -> Seq<char> {
    match e {
        Error::Channel(m) => m@,
        Error::Tool(m) => m@,
        Error::Skill(m) => m@,
        Error::Storage(m) => m@,
    }
}

impl Error {
    /// The message this error carries.
    pub fn message(&self) -> (r: &str)
        ensures
            r@ == error_text(*self),
    {
        match self {
            Error::Channel(m) => m.as_str(),
            Error::Tool(m) => m.as_str(),
            Error::Skill(m) => m.as_str(),
            Error::Storage(m) => m.as_str(),
        }
    }
}

} // verus!
