//! The error taxonomy shared by every constructor of the domain.
use vstd::prelude::*;

verus! {

/// What kind of rule an input broke, for callers that branch on it.
#[derive(Debug, Clone, Copy, PartialEq, Eq, Structural)]
pub enum ErrorKind {
    InvalidName,
    InvalidEmail,
    InvalidAddress,
    InvalidDate,
    EmptyInput,
    InvalidInput,
}

/// A failed validation: its kind, and a description meant to be shown as it is.
#[derive(Debug, Clone)]
pub enum ValidationError {
    InvalidName(String),
    InvalidEmail(String),
    InvalidAddress(String),
    InvalidDate(String),
    EmptyInput(String),
    InvalidInput(String),
}

impl View for ValidationError {
    type V = (ErrorKind, Seq<char>);

    open spec fn view(&self) -> (ErrorKind, Seq<char>) {
        match self {
            ValidationError::InvalidName(m) => (ErrorKind::InvalidName, m@),
            ValidationError::InvalidEmail(m) => (ErrorKind::InvalidEmail, m@),
            ValidationError::InvalidAddress(m) => (ErrorKind::InvalidAddress, m@),
            ValidationError::InvalidDate(m) => (ErrorKind::InvalidDate, m@),
            ValidationError::EmptyInput(m) => (ErrorKind::EmptyInput, m@),
            ValidationError::InvalidInput(m) => (ErrorKind::InvalidInput, m@),
        }
    }
}

/// The prefix under which an error of the given kind is displayed.
pub open spec fn kind_label(k: ErrorKind) -> Seq<char> {
    match k {
        ErrorKind::InvalidName => "Invalid name: "@,
        ErrorKind::InvalidEmail => "Invalid email: "@,
        ErrorKind::InvalidAddress => "Invalid address: "@,
        ErrorKind::InvalidDate => "Invalid date: "@,
        ErrorKind::EmptyInput => "Empty Input: "@,
        ErrorKind::InvalidInput => "Invalid Input: "@,
    }
}

impl ValidationError {
    /// An error of kind `kind` that carries `message`.
    pub fn new(kind: ErrorKind, message: String) -> (e: ValidationError)
        ensures
            e@ == (kind, message@),
    {
        match kind {
            ErrorKind::InvalidName => ValidationError::InvalidName(message),
            ErrorKind::InvalidEmail => ValidationError::InvalidEmail(message),
            ErrorKind::InvalidAddress => ValidationError::InvalidAddress(message),
            ErrorKind::InvalidDate => ValidationError::InvalidDate(message),
            ErrorKind::EmptyInput => ValidationError::EmptyInput(message),
            ErrorKind::InvalidInput => ValidationError::InvalidInput(message),
        }
    }

    pub fn kind(&self) -> (k: ErrorKind)
        ensures
            k == self@.0,
    {
        match self {
            ValidationError::InvalidName(_) => ErrorKind::InvalidName,
            ValidationError::InvalidEmail(_) => ErrorKind::InvalidEmail,
            ValidationError::InvalidAddress(_) => ErrorKind::InvalidAddress,
            ValidationError::InvalidDate(_) => ErrorKind::InvalidDate,
            ValidationError::EmptyInput(_) => ErrorKind::EmptyInput,
            ValidationError::InvalidInput(_) => ErrorKind::InvalidInput,
        }
    }

    pub fn message(&self) -> (m: &str)
        ensures
            m@ == self@.1,
    {
        match self {
            ValidationError::InvalidName(m) => m.as_str(),
            ValidationError::InvalidEmail(m) => m.as_str(),
            ValidationError::InvalidAddress(m) => m.as_str(),
            ValidationError::InvalidDate(m) => m.as_str(),
            ValidationError::EmptyInput(m) => m.as_str(),
            ValidationError::InvalidInput(m) => m.as_str(),
        }
    }

    /// The text shown to a user: the kind's label followed by the description.
    pub fn to_display_string(&self) -> (s: String)
        ensures
            s@ == kind_label(self@.0) + self@.1,
    {
        let label: &str = match self.kind() {
            ErrorKind::InvalidName => "Invalid name: ",
            ErrorKind::InvalidEmail => "Invalid email: ",
            ErrorKind::InvalidAddress => "Invalid address: ",
            ErrorKind::InvalidDate => "Invalid date: ",
            ErrorKind::EmptyInput => "Empty Input: ",
            ErrorKind::InvalidInput => "Invalid Input: ",
        };
        String::from_str(label).concat(self.message())
    }
}

} // verus!
