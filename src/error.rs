//! What goes wrong when a report is read.
use vstd::prelude::*;

verus! {

/// Why a report, a batch of them, or a report body could not be read.
#[derive(Debug, PartialEq)]
pub enum DecodeError {
    /// The bytes are not a JSON text.
    Syntax,
    /// A batch is not a JSON array.
    NotAnArray,
    /// A report or a body is not a JSON object.
    NotAnObject,
    /// A required field is absent.
    MissingField(String),
    /// A field holds a value of the wrong kind.
    InvalidField(String),
}

/// A [`DecodeError`] with field names as character sequences.
pub enum Fault {
    Syntax,
    NotAnArray,
    NotAnObject,
    MissingField(Seq<char>),
    InvalidField(Seq<char>),
}

impl View for DecodeError {
    type V = Fault;

    open spec fn view(&self) -> Fault {
        match self {
            DecodeError::Syntax => Fault::Syntax,
            DecodeError::NotAnArray => Fault::NotAnArray,
            DecodeError::NotAnObject => Fault::NotAnObject,
            DecodeError::MissingField(k) => Fault::MissingField(k@),
            DecodeError::InvalidField(k) => Fault::InvalidField(k@),
        }
    }
}

} // verus!
