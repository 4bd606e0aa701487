//! The error taxonomy of the dispatch layer. Every dispatch error is a
//! returned value, never a fault.

use vstd::prelude::*;

verus! {

/// An error a domain handler reports. The dispatcher passes it through
/// unmodified; its content means nothing to the dispatch layer.
#[derive(Debug, PartialEq, Eq, Clone)]
pub struct DomainError {
    pub message: String,
}

impl DomainError {
    /// A domain error carrying `message`.
    pub fn new(message: String) -> (r: Self)
        ensures
            r.message@ == message@,
    {
        DomainError { message }
    }
}

/// Model of a classified dispatch error, with names as character sequences.
pub enum DispatchErrorModel {
    /// No slot of the needed role has the given id.
    UnknownSlot,
    /// The slot's interface declares no command of the given name.
    UnknownCommand,
    /// The slot's interface declares no variable of the given name.
    UnknownVariable,
    /// The named declared parameter is absent from the argument bag.
    MissingArgument(Seq<char>),
    /// The named parameter is present but its shape does not match.
    InvalidArgument(Seq<char>),
    /// The handler's own error, carried through unmodified.
    Domain(Seq<char>),
}

/// A classified dispatch error.
#[derive(Debug, PartialEq, Eq, Clone)]
pub enum DispatchError {
    /// No slot of the needed role has the given id.
    UnknownSlot,
    /// The slot's interface declares no command of the given name.
    UnknownCommand,
    /// The slot's interface declares no variable of the given name.
    UnknownVariable,
    /// The named declared parameter is absent from the argument bag.
    MissingArgument(String),
    /// The named parameter is present but its shape does not match.
    InvalidArgument(String),
    /// The handler's own error, carried through unmodified.
    Domain(DomainError),
}

impl View for DispatchError {
    type V = DispatchErrorModel;

    open spec fn view(&self) -> DispatchErrorModel {
        match self {
            DispatchError::UnknownSlot => DispatchErrorModel::UnknownSlot,
            DispatchError::UnknownCommand => DispatchErrorModel::UnknownCommand,
            DispatchError::UnknownVariable => DispatchErrorModel::UnknownVariable,
            DispatchError::MissingArgument(n) => DispatchErrorModel::MissingArgument(n@),
            DispatchError::InvalidArgument(n) => DispatchErrorModel::InvalidArgument(n@),
            DispatchError::Domain(e) => DispatchErrorModel::Domain(e.message@),
        }
    }
}

/// An outbound call failure: the reply could not be decoded.
#[derive(Debug, PartialEq, Eq, Clone, Copy)]
pub enum CallError {
    /// The reply's shape does not match the command's declared return type.
    Invalid,
}

} // verus!
