//! The fatal conditions that abort generation of a declaration.
//!
//! There is no recoverable-error path: any of these stops the enclosing
//! declaration's generation before any output is produced.

use vstd::prelude::*;
use crate::directive::Directive;

verus! {

/// A fatal generation error.
#[derive(Debug, PartialEq)]
pub enum RewriteError {
    /// The type tree contains a shape the rewriter has no rule for;
    /// `description` renders the offending shape.
    UnsupportedTypeShape { description: String },
    /// After rewriting a field, its local directive queue was not empty;
    /// `leftover` holds the unused directives, front first.
    DirectiveCountMismatch { leftover: Vec<Directive> },
    /// A directive annotation's token content did not parse into the
    /// expected pair-list shape; surfaced here on behalf of the surface
    /// attribute parser.
    MalformedAnnotation { message: String },
}

/// Ghost model of a fatal generation error.
pub enum ErrV {
    UnsupportedTypeShape { description: Seq<char> },
    DirectiveCountMismatch { leftover: Seq<Directive> },
    MalformedAnnotation { message: Seq<char> },
}

impl View for RewriteError {
    type V = ErrV;

    open spec fn view(&self) -> ErrV {
        match self {
            RewriteError::UnsupportedTypeShape { description } => ErrV::UnsupportedTypeShape {
                description: description@,
            },
            RewriteError::DirectiveCountMismatch { leftover } => ErrV::DirectiveCountMismatch {
                leftover: leftover@,
            },
            RewriteError::MalformedAnnotation { message } => ErrV::MalformedAnnotation {
                message: message@,
            },
        }
    }
}

} // verus!
