//! What can go wrong while a row of values is turned into a typed record.

use crate::text::decimal_text;
use crate::text::usize_to_string;
use vstd::prelude::*;
use vstd::string::StringExecFns;

verus! {

/// A failure to deserialize, and the field at which it occurred where that is known.
#[derive(Clone, Debug, PartialEq, Eq)]
pub struct DataDeserializeError {
    pub field: Option<usize>,
    pub kind: DataDeserializeErrorKind,
}

#[derive(Clone, Debug, PartialEq, Eq)]
pub enum DataDeserializeErrorKind {
    UnexpectedEndOf,
    TypeMismatch,
    Unimplemented,
    Custom(String),
}

impl DataDeserializeErrorKind {
    /// The description of this kind of failure: a fixed phrase, or the custom message.
    pub open spec fn text(self) -> Seq<char> {
        match self {
            DataDeserializeErrorKind::UnexpectedEndOf => "Unexpected end of"@,
            DataDeserializeErrorKind::TypeMismatch => "Type mismatch"@,
            DataDeserializeErrorKind::Unimplemented => "Unimplemented"@,
            DataDeserializeErrorKind::Custom(message) => message@,
        }
    }

    /// The description of this kind of failure.
    pub fn description(&self) -> (text: &str)
        ensures
            text@ == self.text(),
    {
        match self {
            DataDeserializeErrorKind::UnexpectedEndOf => "Unexpected end of",
            DataDeserializeErrorKind::TypeMismatch => "Type mismatch",
            DataDeserializeErrorKind::Unimplemented => "Unimplemented",
            DataDeserializeErrorKind::Custom(message) => message.as_str(),
        }
    }

    /// This kind of failure as it is shown: its description.
    pub fn to_string(&self) -> (text: String)
        ensures
            text@ == self.text(),
    {
        String::from_str(self.description())
    }
}

impl DataDeserializeError {
    pub fn new(field: Option<usize>, kind: DataDeserializeErrorKind) -> (error: Self)
        ensures
            error == (DataDeserializeError { field, kind }),
    {
        Self { field, kind }
    }

    /// A failure with a message of its own, at no particular field.
    pub fn custom(message: String) -> (error: Self)
        ensures
            error == (DataDeserializeError {
                field: None,
                kind: DataDeserializeErrorKind::Custom(message),
            }),
    {
        Self { field: None, kind: DataDeserializeErrorKind::Custom(message) }
    }

    /// This failure as it is shown: the description of its kind, after the number of
    /// the field where that is known.
    pub open spec fn text(self) -> Seq<char> {
        match self.field {
            Some(field) => "field "@ + decimal_text(field as nat) + ": "@ + self.kind.text(),
            None => self.kind.text(),
        }
    }

    /// The description of this failure: that of its kind.
    pub fn description(&self) -> (text: &str)
        ensures
            text@ == self.kind.text(),
    {
        self.kind.description()
    }

    /// This failure as it is shown.
    pub fn to_string(&self) -> (text: String)
        ensures
            text@ == self.text(),
    {
        match self.field {
            Some(field) => String::from_str("field ").concat(
                usize_to_string(field).as_str(),
            ).concat(": ").concat(self.kind.description()),
            None => self.kind.to_string(),
        }
    }
}

} // verus!
