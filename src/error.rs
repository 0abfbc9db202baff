//! The library's error type.

use vstd::prelude::*;

verus! {

/// What went wrong, with a message for the user.
#[derive(Clone, Debug, PartialEq)]
pub enum ErrorKind {
    BasicError(String),
    ValidationError(String),
    ServerError(String),
    Hint(String),
    OtherError(String),
}

impl ErrorKind {
    /// The text shown for this error.
    pub open spec fn spec_text(&self) -> Seq<char> {
        match self {
            ErrorKind::BasicError(m) => m@,
            ErrorKind::ValidationError(m) => m@,
            ErrorKind::ServerError(m) => m@,
            ErrorKind::Hint(m) => m@,
            ErrorKind::OtherError(m) => "other error: "@ + m@,
        }
    }

    /// The text shown for this error.
    pub fn to_text(&self) -> (r: String)
        ensures
            r@ == self.spec_text(),
    {
        match self {
            ErrorKind::BasicError(m) => m.clone(),
            ErrorKind::ValidationError(m) => m.clone(),
            ErrorKind::ServerError(m) => m.clone(),
            ErrorKind::Hint(m) => m.clone(),
            ErrorKind::OtherError(m) => {
                let mut r = "other error: ".to_owned();
                r.append(m.as_str());
                r
            },
        }
    }
}

/// Turns a message into an error of each kind.
pub trait ToError {
    /// The message carried.
    spec fn spec_message(&self) -> Seq<char>;

    fn to_basic_error(&self) -> (r: ErrorKind)
        ensures
            r matches ErrorKind::BasicError(m) && m@ == self.spec_message(),
    ;

    fn to_validation_error(&self) -> (r: ErrorKind)
        ensures
            r matches ErrorKind::ValidationError(m) && m@ == self.spec_message(),
    ;

    fn to_server_error(&self) -> (r: ErrorKind)
        ensures
            r matches ErrorKind::ServerError(m) && m@ == self.spec_message(),
    ;

    fn to_hint(&self) -> (r: ErrorKind)
        ensures
            r matches ErrorKind::Hint(m) && m@ == self.spec_message(),
    ;
}

impl ToError for str {
    open spec fn spec_message(&self) -> Seq<char> {
        self@
    }

    fn to_basic_error(&self) -> (r: ErrorKind) {
        ErrorKind::BasicError(self.to_owned())
    }

    fn to_validation_error(&self) -> (r: ErrorKind) {
        ErrorKind::ValidationError(self.to_owned())
    }

    fn to_server_error(&self) -> (r: ErrorKind) {
        ErrorKind::ServerError(self.to_owned())
    }

    fn to_hint(&self) -> (r: ErrorKind) {
        ErrorKind::Hint(self.to_owned())
    }
}

impl ToError for String {
    open spec fn spec_message(&self) -> Seq<char> {
        self@
    }

    fn to_basic_error(&self) -> (r: ErrorKind) {
        ErrorKind::BasicError(self.clone())
    }

    fn to_validation_error(&self) -> (r: ErrorKind) {
        ErrorKind::ValidationError(self.clone())
    }

    fn to_server_error(&self) -> (r: ErrorKind) {
        ErrorKind::ServerError(self.clone())
    }

    fn to_hint(&self) -> (r: ErrorKind) {
        ErrorKind::Hint(self.clone())
    }
}

} // verus!
