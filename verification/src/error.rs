//! The errors of decoding.

use vstd::prelude::*;

verus! {

/// Why a message could not be decoded. An error belongs to the one call
/// that returns it: the next message is decoded as if nothing had happened.
#[derive(Debug, Clone, Copy, PartialEq, Eq)]
pub enum DecodeError {
    /// The text is not a JSON document.
    MalformedJson,
    /// A field that holds a decimal is not written in decimal syntax.
    MalformedNumber,
    /// A field holds a JSON value of the wrong fundamental kind.
    TypeMismatch,
    /// A field without a default is absent.
    MissingRequiredField,
    /// A field with a fixed vocabulary holds a token outside it.
    UnknownEnumValue,
}

impl DecodeError {
    /// What the error says, in words.
    pub open spec fn description(self) -> Seq<char> {
        match self {
            DecodeError::MalformedJson => "the text is not a JSON document"@,
            DecodeError::MalformedNumber => "a decimal field is not in decimal syntax"@,
            DecodeError::TypeMismatch => "a field holds a value of the wrong kind"@,
            DecodeError::MissingRequiredField => "a required field is absent"@,
            DecodeError::UnknownEnumValue => "a field holds a token outside its vocabulary"@,
        }
    }

    /// What the error says, in words.
    pub fn message(self) -> (r: &'static str)
        ensures
            r@ == self.description(),
    {
        match self {
            DecodeError::MalformedJson => "the text is not a JSON document",
            DecodeError::MalformedNumber => "a decimal field is not in decimal syntax",
            DecodeError::TypeMismatch => "a field holds a value of the wrong kind",
            DecodeError::MissingRequiredField => "a required field is absent",
            DecodeError::UnknownEnumValue => "a field holds a token outside its vocabulary",
        }
    }
}

} // verus!
