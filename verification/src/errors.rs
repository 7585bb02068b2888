//! The error taxonomy the dispatcher surfaces to callers.

use vstd::prelude::*;

verus! {

/// Mathematical model of an error.
#[verifier::ext_equal]
pub ghost enum ErrorRep {
    /// A malformed envelope: no request id or no command could be read.
    Decode(Seq<char>),
    /// A missing positional argument: the command and the offending
    /// position.
    Argument(Seq<char>, int),
    /// An argument that is present but of the wrong shape or type: the
    /// command and the offending position.
    ArgumentShape(Seq<char>, int),
    /// A command string outside the dispatch table, carried verbatim.
    UnknownCommand(Seq<char>),
    /// A recognized model type with no direct-sync form: command and type name.
    UnsupportedType(Seq<char>, Seq<char>),
    /// An operation that needs a collaborator not yet initialized.
    MissingDependency(Seq<char>),
    /// An id that is not where the operation expected it.
    NotFound(Seq<char>),
}

/// An error surfaced by the dispatcher or one of its collaborating components.
#[derive(Debug)]
pub enum DispatchError {
    Decode(String),
    Argument(String, usize),
    ArgumentShape(String, usize),
    UnknownCommand(String),
    UnsupportedType(String, String),
    MissingDependency(String),
    NotFound(String),
}

impl DispatchError {
    /// The model of this error.
    pub open spec fn rep(self) -> ErrorRep {
        match self {
            DispatchError::Decode(m) => ErrorRep::Decode(m@),
            DispatchError::Argument(c, p) => ErrorRep::Argument(c@, p as int),
            DispatchError::ArgumentShape(c, p) => ErrorRep::ArgumentShape(c@, p as int),
            DispatchError::UnknownCommand(c) => ErrorRep::UnknownCommand(c@),
            DispatchError::UnsupportedType(c, t) => ErrorRep::UnsupportedType(c@, t@),
            DispatchError::MissingDependency(m) => ErrorRep::MissingDependency(m@),
            DispatchError::NotFound(m) => ErrorRep::NotFound(m@),
        }
    }

    /// A short stable name for the error's kind, for the error envelope.
    pub fn kind_name(&self) -> (r: String)
        ensures
            r@ == kind_of(self.rep()),
    {
        match self {
            DispatchError::Decode(_) => "decode_error".to_owned(),
            DispatchError::Argument(_, _) => "argument_error".to_owned(),
            DispatchError::ArgumentShape(_, _) => "argument_shape_error".to_owned(),
            DispatchError::UnknownCommand(_) => "unknown_command".to_owned(),
            DispatchError::UnsupportedType(_, _) => "unsupported_type".to_owned(),
            DispatchError::MissingDependency(_) => "missing_dependency".to_owned(),
            DispatchError::NotFound(_) => "not_found".to_owned(),
        }
    }

    /// The human-readable text carried by the error.
    pub fn message(&self) -> (r: String)
        ensures
            r@ == message_of(self.rep()),
    {
        match self {
            DispatchError::Decode(m) => m.clone(),
            DispatchError::Argument(c, _) => c.clone(),
            DispatchError::ArgumentShape(c, _) => c.clone(),
            DispatchError::UnknownCommand(c) => c.clone(),
            DispatchError::UnsupportedType(c, _) => c.clone(),
            DispatchError::MissingDependency(m) => m.clone(),
            DispatchError::NotFound(m) => m.clone(),
        }
    }
}

/// The kind name of each error model.
pub open spec fn kind_of(e: ErrorRep) -> Seq<char> {
    match e {
        ErrorRep::Decode(_) => "decode_error"@,
        ErrorRep::Argument(_, _) => "argument_error"@,
        ErrorRep::ArgumentShape(_, _) => "argument_shape_error"@,
        ErrorRep::UnknownCommand(_) => "unknown_command"@,
        ErrorRep::UnsupportedType(_, _) => "unsupported_type"@,
        ErrorRep::MissingDependency(_) => "missing_dependency"@,
        ErrorRep::NotFound(_) => "not_found"@,
    }
}

/// The primary text of each error model.
pub open spec fn message_of(e: ErrorRep) -> Seq<char> {
    match e {
        ErrorRep::Decode(m) => m,
        ErrorRep::Argument(c, _) => c,
        ErrorRep::ArgumentShape(c, _) => c,
        ErrorRep::UnknownCommand(c) => c,
        ErrorRep::UnsupportedType(c, _) => c,
        ErrorRep::MissingDependency(m) => m,
        ErrorRep::NotFound(m) => m,
    }
}

} // verus!
