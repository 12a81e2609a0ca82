//! The error type shared by evaluation and native calls.

use crate::dynamic::Dynamic;
use crate::parse_error::{ParseError, ParseErrorType, Position};
use vstd::prelude::*;

verus! {

/// An error raised while evaluating a script or calling a native function.
#[derive(Debug)]
#[non_exhaustive]
pub enum EvalAltResult {
    /// A parse error: its kind and position.
    ErrorParsing(ParseErrorType, Position),
    /// A variable that no binding of the scope names.
    ErrorVariableNotFound(String, Position),
    /// An error raised by a script or a host function, with a value.
    ErrorRuntime(Dynamic, Position),
}

impl EvalAltResult {
    /// The evaluation error that a parse error becomes.
    pub fn from_parse_error(err: ParseError) -> (r: EvalAltResult)
        ensures
            r == EvalAltResult::ErrorParsing(*err.0, err.1),
    {
        EvalAltResult::ErrorParsing(*err.0, err.1)
    }

    /// The evaluation error that a parse error kind becomes, with no position.
    pub fn from_parse_error_type(err: ParseErrorType) -> (r: EvalAltResult)
        ensures
            r matches EvalAltResult::ErrorParsing(t, p) && t == err && p.line == 0,
    {
        EvalAltResult::ErrorParsing(err, Position::none())
    }
}

} // verus!
