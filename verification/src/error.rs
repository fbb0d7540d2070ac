//! Why an evaluation produced no result.
//!
//! An evaluation fails only where the chart cannot be had: the file cannot be read,
//! or what it holds is no chart. Either failure ends the evaluation: there is no
//! partial result and nothing is tried again.

use rosu_pp::ParseError;
use vstd::prelude::*;

verus! {

/// What went wrong when `rosu_pp` was asked for a chart: one variant for each
/// variant of `rosu_pp::ParseError`.
#[derive(Clone, Copy, Debug, PartialEq, Eq, Structural)]
pub enum ParseFailure {
    /// Reading failed.
    Io,
    IncorrectFileHeader,
    BadLine,
    InvalidCurvePoints,
    InvalidDecimalNumber,
    InvalidInteger,
    InvalidMode,
    MissingField,
    TooManyRepeats,
    UnknownHitObjectKind,
}

/// Why an evaluation produced no result.
#[derive(Clone, Copy, Debug, PartialEq, Eq, Structural)]
pub enum ChartError {
    /// The chart could not be read.
    Load,
    /// What was read is not a chart.
    Parse(ParseFailure),
}

/// `rosu_pp::ParseError`. Nothing inside it is visible to the verifier.
#[verifier::external_type_specification]
#[verifier::external_body]
pub struct ExParseError(ParseError);

/// Which variant a `rosu_pp::ParseError` is.
pub uninterp spec fn failure_of(error: ParseError) -> ParseFailure;

/// Tells the variants of `rosu_pp::ParseError` apart. What a variant carries (the
/// I/O error, the name of the missing field) is left behind.
#[verifier::external_body]
fn parse_failure(error: &ParseError) -> (failure: ParseFailure)
    ensures
        failure == failure_of(*error),
{
    match error {
        ParseError::IOError(_) => ParseFailure::Io,
        ParseError::IncorrectFileHeader => ParseFailure::IncorrectFileHeader,
        ParseError::BadLine => ParseFailure::BadLine,
        ParseError::InvalidCurvePoints => ParseFailure::InvalidCurvePoints,
        ParseError::InvalidDecimalNumber => ParseFailure::InvalidDecimalNumber,
        ParseError::InvalidInteger => ParseFailure::InvalidInteger,
        ParseError::InvalidMode => ParseFailure::InvalidMode,
        ParseError::MissingField(_) => ParseFailure::MissingField,
        ParseError::TooManyRepeats => ParseFailure::TooManyRepeats,
        ParseError::UnknownHitObjectKind => ParseFailure::UnknownHitObjectKind,
    }
}

impl ChartError {
    /// The error that a failure amounts to: a failed read is a chart that could not
    /// be read, anything else is a file that holds no chart.
    pub open spec fn of(failure: ParseFailure) -> ChartError {
        match failure {
            ParseFailure::Io => ChartError::Load,
            _ => ChartError::Parse(failure),
        }
    }

    /// The error that a failure amounts to.
    pub fn classify(failure: ParseFailure) -> (error: ChartError)
        ensures
            error == ChartError::of(failure),
    {
        match failure {
            ParseFailure::Io => ChartError::Load,
            _ => ChartError::Parse(failure),
        }
    }

    /// The error that an error of `rosu_pp` amounts to.
    pub fn from_parse_error(error: &ParseError) -> (chart_error: ChartError)
        ensures
            chart_error == ChartError::of(failure_of(*error)),
    {
        ChartError::classify(parse_failure(error))
    }

    /// A short description of the error.
    pub open spec fn message_text(self) -> Seq<char> {
        match self {
            ChartError::Load => "could not open file"@,
            ChartError::Parse(_) => "error while parsing map"@,
        }
    }

    /// A short description of the error.
    pub fn message(&self) -> (text: &'static str)
        ensures
            text@ == self.message_text(),
    {
        match self {
            ChartError::Load => "could not open file",
            ChartError::Parse(_) => "error while parsing map",
        }
    }
}

} // verus!
