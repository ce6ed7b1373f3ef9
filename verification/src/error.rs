//! The errors of colour parsing.

use cssparser::{BasicParseError, BasicParseErrorKind};
use vstd::prelude::*;
use vstd::std_specs::convert::FromSpecImpl;

verus! {

/// Why a text could not be turned into a colour. Each kind carries a
/// human-readable reason.
#[derive(Clone, Copy, Debug, PartialEq, Eq)]
pub enum ParsingError<'a> {
    /// The text does not follow the CSS grammar.
    InvalidSyntax(&'a str),
    /// The text is valid CSS, but names a colour that has no absolute value
    /// here or a colour model that is not resolved.
    UnsupportedValue(&'a str),
}

impl<'a> ParsingError<'a> {
    /// The reason carried by the error, of either kind.
    pub open spec fn spec_reason(self) -> &'a str {
        match self {
            ParsingError::InvalidSyntax(reason) => reason,
            ParsingError::UnsupportedValue(reason) => reason,
        }
    }

    /// The reason carried by the error, of either kind.
    pub fn reason(&self) -> (reason: &'a str)
        ensures
            reason == self.spec_reason(),
    {
        match self {
            ParsingError::InvalidSyntax(reason) => reason,
            ParsingError::UnsupportedValue(reason) => reason,
        }
    }
}

/// The kinds of error that the basic routines of the CSS tokenizer report.
#[derive(Clone, Copy, Debug, PartialEq, Eq, Structural)]
pub enum BasicErrorKind {
    UnexpectedToken,
    EndOfInput,
    AtRuleInvalid,
    AtRuleBodyInvalid,
    QualifiedRuleInvalid,
}

/// The syntax error that stands for a basic tokenizer error of the given kind.
pub open spec fn syntax_error(kind: BasicErrorKind) -> ParsingError<'static> {
    ParsingError::InvalidSyntax(
        match kind {
            BasicErrorKind::UnexpectedToken => "Unexpected token",
            _ => "Unknown error",
        },
    )
}

impl<'a> From<BasicErrorKind> for ParsingError<'a> {
    fn from(kind: BasicErrorKind) -> (error: Self) {
        ParsingError::InvalidSyntax(
            match kind {
                BasicErrorKind::UnexpectedToken => "Unexpected token",
                _ => "Unknown error",
            },
        )
    }
}

impl<'a> FromSpecImpl<BasicErrorKind> for ParsingError<'a> {
    open spec fn obeys_from_spec() -> bool {
        true
    }

    open spec fn from_spec(kind: BasicErrorKind) -> Self {
        syntax_error(kind)
    }
}

/// `cssparser::BasicParseError`, carried through as an opaque value.
#[verifier::external_type_specification]
#[verifier::external_body]
pub struct ExBasicParseError<'i>(BasicParseError<'i>);

/// Reads the kind of a `cssparser::BasicParseError`, dropping what the kind
/// carries.
///
/// Trusted, with nothing claimed: the error is opaque here.
#[verifier::external_body]
fn basic_error_kind(err: &BasicParseError) -> (kind: BasicErrorKind) {
    match err.kind {
        BasicParseErrorKind::UnexpectedToken(_) => BasicErrorKind::UnexpectedToken,
        BasicParseErrorKind::EndOfInput => BasicErrorKind::EndOfInput,
        BasicParseErrorKind::AtRuleInvalid(_) => BasicErrorKind::AtRuleInvalid,
        BasicParseErrorKind::AtRuleBodyInvalid => BasicErrorKind::AtRuleBodyInvalid,
        BasicParseErrorKind::QualifiedRuleInvalid => BasicErrorKind::QualifiedRuleInvalid,
    }
}

impl<'a, 'i> From<BasicParseError<'i>> for ParsingError<'a> {
    /// A basic tokenizer error is a syntax error, whose reason goes by the
    /// kind of the tokenizer error.
    fn from(err: BasicParseError<'i>) -> (error: Self)
        ensures
            exists|kind: BasicErrorKind| error == syntax_error(kind),
    {
        let kind = basic_error_kind(&err);
        ParsingError::from(kind)
    }
}

impl<'a, 'i> FromSpecImpl<BasicParseError<'i>> for ParsingError<'a> {
    open spec fn obeys_from_spec() -> bool {
        false
    }

    open spec fn from_spec(err: BasicParseError<'i>) -> Self {
        arbitrary()
    }
}

} // verus!
