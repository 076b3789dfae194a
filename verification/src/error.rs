//! The ways in which loading or rendering a document can fail.

use vstd::prelude::*;

verus! {

/// The mathematical content of an [`IdfError`]: which failure it is, and the
/// diagnostic text as a sequence of characters.
pub enum Failure {
    FileAccess(Seq<char>),
    Parse(Seq<char>),
    Serialization(Seq<char>),
}

impl Failure {
    /// The diagnostic text, whichever failure this is.
    pub open spec fn message(self) -> Seq<char> {
        match self {
            Failure::FileAccess(text) => text,
            Failure::Parse(text) => text,
            Failure::Serialization(text) => text,
        }
    }
}

/// Why a document could not be loaded or rendered. Each variant carries the
/// diagnostic text of the failure underneath.
#[derive(Debug)]
pub enum IdfError {
    /// The file could not be opened or read.
    FileAccess(String),
    /// The file's bytes are not well-formed JSON.
    Parse(String),
    /// The stored value could not be rendered as JSON text.
    Serialization(String),
}

impl View for IdfError {
    type V = Failure;

    open spec fn view(&self) -> Failure {
        match self {
            IdfError::FileAccess(text) => Failure::FileAccess(text@),
            IdfError::Parse(text) => Failure::Parse(text@),
            IdfError::Serialization(text) => Failure::Serialization(text@),
        }
    }
}

impl IdfError {
    /// The diagnostic text carried by the error.
    pub fn message(&self) -> (text: &str)
        ensures
            text@ == self@.message(),
    {
        match self {
            IdfError::FileAccess(text) => text.as_str(),
            IdfError::Parse(text) => text.as_str(),
            IdfError::Serialization(text) => text.as_str(),
        }
    }
}

} // verus!
