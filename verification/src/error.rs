//! What can go wrong, and how it is told to the user.

use vstd::prelude::*;
use vstd::string::*;

verus! {

/// A user command that cannot be read.
#[derive(Debug, Clone, PartialEq, Eq)]
pub enum VimlError {
    InvalidCommand(String),
}

/// What was wrong with what the user asked for. Each variant holds the words
/// that say what exactly.
#[derive(Debug, Clone, PartialEq, Eq)]
pub enum InputError {
    FunctionArguments(String),
    Json(String),
    Viml(VimlError),
    EnumParse(String),
    Int(String),
    Bool(String),
    NoRecords(String),
    Other(String),
}

/// What went wrong.
#[derive(Debug, Clone, PartialEq, Eq)]
pub enum Error {
    /// The user asked for something that cannot be done.
    Input(InputError),
    /// The editor refused a call.
    Api(String),
    /// Something inside went wrong.
    Internal(String),
}

impl VimlError {
    /// The error in words.
    pub open spec fn spec_message(self) -> Seq<char> {
        match self {
            Self::InvalidCommand(s) => "invalid user command: "@ + s@,
        }
    }

    /// The error in words.
    pub fn message(&self) -> (m: String)
        ensures
            m@ == self.spec_message(),
    {
        match self {
            Self::InvalidCommand(s) => String::from_str("invalid user command: ").concat(
                s.as_str(),
            ),
        }
    }
}

impl InputError {
    /// The error in words.
    pub open spec fn spec_message(self) -> Seq<char> {
        match self {
            Self::FunctionArguments(s) => "invalid function arguments: "@ + s@,
            Self::Json(s) => "could not parse json-like input: "@ + s@,
            Self::Viml(e) => "invalid viml: "@ + e.spec_message(),
            Self::EnumParse(s) => "invalid enum variant provided: "@ + s@,
            Self::Int(s) => "provided string can't be parsed to an integer: "@ + s@,
            Self::Bool(s) => "provided string can't be parsed to a bool: "@ + s@,
            Self::NoRecords(s) => "no records satisfying the action were found: "@ + s@,
            Self::Other(s) => s@,
        }
    }

    /// The error in words.
    pub fn message(&self) -> (m: String)
        ensures
            m@ == self.spec_message(),
    {
        match self {
            Self::FunctionArguments(s) => String::from_str("invalid function arguments: ").concat(
                s.as_str(),
            ),
            Self::Json(s) => String::from_str("could not parse json-like input: ").concat(
                s.as_str(),
            ),
            Self::Viml(e) => {
                let inner = e.message();
                String::from_str("invalid viml: ").concat(inner.as_str())
            },
            Self::EnumParse(s) => String::from_str("invalid enum variant provided: ").concat(
                s.as_str(),
            ),
            Self::Int(s) => String::from_str(
                "provided string can't be parsed to an integer: ",
            ).concat(s.as_str()),
            Self::Bool(s) => String::from_str("provided string can't be parsed to a bool: ").concat(
                s.as_str(),
            ),
            Self::NoRecords(s) => String::from_str(
                "no records satisfying the action were found: ",
            ).concat(s.as_str()),
            Self::Other(s) => s.clone(),
        }
    }
}

impl Error {
    /// Whether the error says that the arguments of a function were wrong, in
    /// the words `words`.
    pub open spec fn spec_is_arguments(self, words: Seq<char>) -> bool {
        self matches Error::Input(InputError::FunctionArguments(s)) && s@ == words
    }

    /// Whether the error says that a word names no variant, in the words
    /// `words`.
    pub open spec fn spec_is_enum_parse(self, words: Seq<char>) -> bool {
        self matches Error::Input(InputError::EnumParse(s)) && s@ == words
    }

    /// Whether the error says that the text `text` is no integer.
    pub open spec fn spec_is_int(self, text: Seq<char>) -> bool {
        self matches Error::Input(InputError::Int(s)) && s@ == text
    }

    /// Whether the error says, in the words `words`, something that fits no
    /// other kind.
    pub open spec fn spec_is_other(self, words: Seq<char>) -> bool {
        self matches Error::Input(InputError::Other(s)) && s@ == words
    }

    /// The error in words.
    pub open spec fn spec_message(self) -> Seq<char> {
        match self {
            Self::Input(e) => "invalid input provided: "@ + e.spec_message(),
            Self::Api(s) => "nvim api error: "@ + s@,
            Self::Internal(s) => "internal compass.nvim error: "@ + s@,
        }
    }

    /// The error in words.
    pub fn message(&self) -> (m: String)
        ensures
            m@ == self.spec_message(),
    {
        match self {
            Self::Input(e) => {
                let inner = e.message();
                String::from_str("invalid input provided: ").concat(inner.as_str())
            },
            Self::Api(s) => String::from_str("nvim api error: ").concat(s.as_str()),
            Self::Internal(s) => String::from_str("internal compass.nvim error: ").concat(
                s.as_str(),
            ),
        }
    }
}

/// What a function of the library gives back where it can fail.
pub type Result<T> = std::result::Result<T, Error>;

} // verus!
