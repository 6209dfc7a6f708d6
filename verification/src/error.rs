//! Why a declaration is turned down.

use vstd::prelude::*;
use crate::signature::ParameterKind;

verus! {

/// The reasons for which a declaration cannot be loosened.
#[derive(Clone, Copy, Debug, PartialEq, Eq, Structural)]
pub enum LooseError {
    /// The parameter at `index` (counted from zero, in declaration order) is
    /// of a form that has no pattern and type to put into a tuple: a method
    /// receiver, a pattern without a type or a type without a pattern.
    UnsupportedParameter { index: usize, kind: ParameterKind },
    /// The parameter list ends in `...`.
    Variadic,
    /// The function is declared `async`.
    Async,
    /// The function is declared `extern`, with or without a named calling
    /// convention.
    ForeignAbi,
}

impl LooseError {
    /// What the error says, in words.
    pub open spec fn message_text(self) -> Seq<char> {
        match self {
            LooseError::UnsupportedParameter { kind, .. } => match kind {
                ParameterKind::SelfRef => "unsupported parameter: receiver taken by reference"@,
                ParameterKind::SelfValue => "unsupported parameter: receiver taken by value"@,
                ParameterKind::Untyped => "unsupported parameter: pattern without a type"@,
                ParameterKind::Unnamed => "unsupported parameter: type without a pattern"@,
                ParameterKind::Typed => "unsupported parameter"@,
            },
            LooseError::Variadic => "unsupported function: variadic parameter list"@,
            LooseError::Async => "unsupported function: declared async"@,
            LooseError::ForeignAbi => "unsupported function: declared extern"@,
        }
    }

    /// What the error says, in words.
    pub fn message(&self) -> (out: String)
        ensures
            out@ == self.message_text(),
    {
        let words = match self {
            LooseError::UnsupportedParameter { kind, .. } => match kind {
                ParameterKind::SelfRef => "unsupported parameter: receiver taken by reference",
                ParameterKind::SelfValue => "unsupported parameter: receiver taken by value",
                ParameterKind::Untyped => "unsupported parameter: pattern without a type",
                ParameterKind::Unnamed => "unsupported parameter: type without a pattern",
                ParameterKind::Typed => "unsupported parameter",
            },
            LooseError::Variadic => "unsupported function: variadic parameter list",
            LooseError::Async => "unsupported function: declared async",
            LooseError::ForeignAbi => "unsupported function: declared extern",
        };
        String::from_str(words)
    }
}

} // verus!
