//! Error handling: a single closed error taxonomy, each variant paired
//! with the source line on which it arose.

use vstd::prelude::*;

use crate::scanner::{TokenKindV, TokenTag};

verus! {

/// Enumerates all possible errors.
#[derive(Clone, Debug, PartialEq)]
pub enum ErrorTag {
    /// Expected an identifier token, but got a different token.
    ExpectedIdentifier { got: TokenTag },

    /// Expected a specific token, but got a different token.
    ExpectedToken { expected: TokenTag, got: TokenTag },

    /// A name previously defined was used in a definition.
    NameRedefinition(String),

    /// An unexpected character was encountered.
    UnexpectedCharacter(char),

    /// A comment was not terminated.
    UnterminatedComment,

    /// A declared return-type identifier resolved to no known type.
    UnknownType(String),

    /// A resolved type has no counterpart in the target format. No type of
    /// the current closed type model triggers this; the variant names the
    /// condition for when the model grows.
    UnsupportedType,
}

/// Mathematical view of an [`ErrorTag`]: carried text becomes a character
/// sequence.
pub enum ErrorTagV {
    ExpectedIdentifier { got: TokenKindV },
    ExpectedToken { expected: TokenKindV, got: TokenKindV },
    NameRedefinition(Seq<char>),
    UnexpectedCharacter(char),
    UnterminatedComment,
    UnknownType(Seq<char>),
    UnsupportedType,
}

impl View for ErrorTag {
    type V = ErrorTagV;

    open spec fn view(&self) -> ErrorTagV {
        match self {
            ErrorTag::ExpectedIdentifier { got } => ErrorTagV::ExpectedIdentifier { got: got@ },
            ErrorTag::ExpectedToken { expected, got } => ErrorTagV::ExpectedToken {
                expected: expected@,
                got: got@,
            },
            ErrorTag::NameRedefinition(name) => ErrorTagV::NameRedefinition(name@),
            ErrorTag::UnexpectedCharacter(c) => ErrorTagV::UnexpectedCharacter(*c),
            ErrorTag::UnterminatedComment => ErrorTagV::UnterminatedComment,
            ErrorTag::UnknownType(name) => ErrorTagV::UnknownType(name@),
            ErrorTag::UnsupportedType => ErrorTagV::UnsupportedType,
        }
    }
}

/// Represents an error in a source text.
#[derive(Debug)]
pub struct Error {
    /// What kind of error was encountered.
    pub tag: ErrorTag,

    /// On which line the error is located.
    pub line: usize,
}

/// Mathematical view of an [`Error`].
pub struct ErrorV {
    pub tag: ErrorTagV,
    pub line: nat,
}

impl View for Error {
    type V = ErrorV;

    open spec fn view(&self) -> ErrorV {
        ErrorV { tag: self.tag@, line: self.line as nat }
    }
}

impl Error {
    /// Constructs a new `Error` value.
    pub fn new(tag: ErrorTag, line: usize) -> (r: Self)
        ensures
            r.tag == tag,
            r.line == line,
    {
        Self { tag, line }
    }

    /// A failed result carrying a name-redefinition error for `name` at
    /// `line`.
    pub fn name_redefinition<T>(name: &str, line: usize) -> (r: Result<T, Self>)
        ensures
            r matches Err(e) && e@ == (ErrorV {
                tag: ErrorTagV::NameRedefinition(name@),
                line: line as nat,
            }),
    {
        let name = name.to_owned();
        let tag = ErrorTag::NameRedefinition(name);
        let error = Self { tag, line };
        Err(error)
    }
}

/// If the result is an error, returns its tag. Otherwise returns `None`.
pub fn error_tag<T>(result: Result<T, Error>) -> (r: Option<ErrorTag>)
    ensures
        match result {
            Err(e) => r == Some(e.tag),
            Ok(_) => r is None,
        },
{
    match result {
        Err(e) => Some(e.tag),
        _ => None,
    }
}

} // verus!
