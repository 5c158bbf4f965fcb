//! The ways in which generation fails.

use vstd::prelude::*;
use vstd::string::*;

verus! {

/// Why no declarations were generated. Every failure is final: nothing is
/// emitted beside it.
#[derive(Debug, PartialEq, Eq)]
pub enum GenError {
    /// An annotation site or one of its arguments is not of the keyed list
    /// form; holds the offending syntax.
    MalformedAttribute(String),
    /// A key that the synthesizer does not recognize; holds the key.
    UnknownOption(String),
    /// A recognized key whose value is of the wrong kind; holds the key.
    InvalidOptionType(String),
    /// The record is not a structure with named fields; holds its name.
    UnsupportedShape(String),
}

/// The mathematical value of a [`GenError`].
pub enum GenErrorView {
    MalformedAttribute(Seq<char>),
    UnknownOption(Seq<char>),
    InvalidOptionType(Seq<char>),
    UnsupportedShape(Seq<char>),
}

impl GenErrorView {
    /// The human-readable report of the failure: what went wrong, then the
    /// offending name or syntax.
    pub open spec fn message(self) -> Seq<char> {
        match self {
            GenErrorView::MalformedAttribute(s) => "malformed attribute: "@ + s,
            GenErrorView::UnknownOption(s) => "unknown option: "@ + s,
            GenErrorView::InvalidOptionType(s) => "invalid value for option: "@ + s,
            GenErrorView::UnsupportedShape(s) => "not a structure with named fields: "@ + s,
        }
    }
}

impl View for GenError {
    type V = GenErrorView;

    open spec fn view(&self) -> GenErrorView {
        match self {
            GenError::MalformedAttribute(s) => GenErrorView::MalformedAttribute(s@),
            GenError::UnknownOption(s) => GenErrorView::UnknownOption(s@),
            GenError::InvalidOptionType(s) => GenErrorView::InvalidOptionType(s@),
            GenError::UnsupportedShape(s) => GenErrorView::UnsupportedShape(s@),
        }
    }
}

impl Clone for GenError {
    fn clone(&self) -> (copy: GenError)
        ensures
            copy@ == self@,
    {
        match self {
            GenError::MalformedAttribute(text) => GenError::MalformedAttribute(text.clone()),
            GenError::UnknownOption(name) => GenError::UnknownOption(name.clone()),
            GenError::InvalidOptionType(name) => GenError::InvalidOptionType(name.clone()),
            GenError::UnsupportedShape(name) => GenError::UnsupportedShape(name.clone()),
        }
    }
}

impl GenError {
    /// The report of this failure as text.
    pub fn message(&self) -> (text: String)
        ensures
            text@ == self@.message(),
    {
        match self {
            GenError::MalformedAttribute(s) => String::from_str("malformed attribute: ").concat(
                s.as_str(),
            ),
            GenError::UnknownOption(s) => String::from_str("unknown option: ").concat(s.as_str()),
            GenError::InvalidOptionType(s) => String::from_str("invalid value for option: ").concat(
                s.as_str(),
            ),
            GenError::UnsupportedShape(s) => String::from_str(
                "not a structure with named fields: ",
            ).concat(s.as_str()),
        }
    }
}

} // verus!
