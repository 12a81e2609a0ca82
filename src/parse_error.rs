//! Errors raised while tokenizing or parsing a script, or while registering
//! custom syntax.

use crate::text::{decimal, decimal_text};
use vstd::prelude::*;
use vstd::string::*;

verus! {

/// A place in the script text: line and column, both counted from one. The
/// position with line zero stands for "no position".
#[derive(Debug, Clone, Copy, PartialEq, Eq, Hash, Structural)]
pub struct Position {
    pub line: u16,
    pub pos: u16,
}

impl Position {
    pub fn new(line: u16, position: u16) -> (r: Position)
        requires
            line != 0,
        ensures
            r == (Position { line, pos: position }),
    {
        Position { line, pos: position }
    }

    /// No position.
    pub fn none() -> (r: Position)
        ensures
            r.line == 0 && r.pos == 0,
    {
        Position { line: 0, pos: 0 }
    }

    pub fn is_none(&self) -> (r: bool)
        ensures
            r == (self.line == 0),
    {
        self.line == 0
    }

    /// The text of a position: `line L, position P`, or `none`.
    pub open spec fn spec_text(self) -> Seq<char> {
        if self.line == 0 {
            "none"@
        } else {
            "line "@ + decimal(self.line as nat) + ", position "@ + decimal(self.pos as nat)
        }
    }

    pub fn text(&self) -> (r: String)
        ensures
            r@ == self.spec_text(),
    {
        if self.line == 0 {
            String::from_str("none")
        } else {
            let mut r = String::from_str("line ");
            let l = decimal_text(self.line as usize);
            r.append(l.as_str());
            r.append(", position ");
            let p = decimal_text(self.pos as usize);
            r.append(p.as_str());
            r
        }
    }
}

/// An error found while tokenizing script text.
#[derive(Debug, Clone, PartialEq, Eq, Hash)]
#[non_exhaustive]
pub enum LexError {
    /// An unexpected symbol.
    UnexpectedInput(String),
    /// A string literal not terminated before a new-line or the end.
    UnterminatedString,
    /// A string literal longer than the limit, which is wrapped.
    StringTooLong(usize),
    /// A malformed escape sequence.
    MalformedEscapeSequence(String),
    /// A malformed numeric literal.
    MalformedNumber(String),
    /// A malformed character literal.
    MalformedChar(String),
    /// A malformed identifier.
    MalformedIdentifier(String),
    /// A symbol that may not stand where it was found: the symbol and a
    /// description.
    ImproperSymbol(String, String),
}

impl LexError {
    pub open spec fn spec_desc(&self) -> Seq<char> {
        match self {
            LexError::UnexpectedInput(_) => "Unexpected character encountered"@,
            LexError::UnterminatedString => "Open string is not terminated"@,
            LexError::StringTooLong(_) => "Length of string literal exceeds the maximum limit"@,
            LexError::MalformedEscapeSequence(_) => "Invalid escape sequence"@,
            LexError::MalformedNumber(_) => "Invalid number"@,
            LexError::MalformedChar(_) => "Invalid character"@,
            LexError::MalformedIdentifier(_) => "Variable name is not proper"@,
            LexError::ImproperSymbol(_, _) => "Invalid symbol encountered"@,
        }
    }

    /// A short description of the kind of error.
    pub fn desc(&self) -> (r: &'static str)
        ensures
            r@ == self.spec_desc(),
    {
        match self {
            LexError::UnexpectedInput(_) => "Unexpected character encountered",
            LexError::UnterminatedString => "Open string is not terminated",
            LexError::StringTooLong(_) => "Length of string literal exceeds the maximum limit",
            LexError::MalformedEscapeSequence(_) => "Invalid escape sequence",
            LexError::MalformedNumber(_) => "Invalid number",
            LexError::MalformedChar(_) => "Invalid character",
            LexError::MalformedIdentifier(_) => "Variable name is not proper",
            LexError::ImproperSymbol(_, _) => "Invalid symbol encountered",
        }
    }

    /// The full message of the error.
    pub open spec fn spec_message(&self) -> Seq<char> {
        match self {
            LexError::UnexpectedInput(s) => "Unexpected '"@ + s@ + "'"@,
            LexError::MalformedEscapeSequence(s) => self.spec_desc() + ": '"@ + s@ + "'"@,
            LexError::MalformedNumber(s) => self.spec_desc() + ": '"@ + s@ + "'"@,
            LexError::MalformedChar(s) => self.spec_desc() + ": '"@ + s@ + "'"@,
            LexError::MalformedIdentifier(s) => self.spec_desc() + ": '"@ + s@ + "'"@,
            LexError::UnterminatedString => self.spec_desc(),
            LexError::StringTooLong(max) => self.spec_desc() + " ("@ + decimal(*max as nat) + ")"@,
            LexError::ImproperSymbol(s, d) => if d@.len() == 0 {
                "Invalid symbol encountered: '"@ + s@ + "'"@
            } else {
                d@
            },
        }
    }

    pub fn message(&self) -> (r: String)
        ensures
            r@ == self.spec_message(),
    {
        match self {
            LexError::UnexpectedInput(s) => quoted("Unexpected '", s),
            LexError::MalformedEscapeSequence(s) | LexError::MalformedNumber(s)
            | LexError::MalformedChar(s) | LexError::MalformedIdentifier(s) => {
                let mut r = String::from_str(self.desc());
                r.append(": '");
                r.append(s.as_str());
                r.append("'");
                r
            },
            LexError::UnterminatedString => String::from_str(self.desc()),
            LexError::StringTooLong(max) => {
                let mut r = String::from_str(self.desc());
                r.append(" (");
                let m = decimal_text(*max);
                r.append(m.as_str());
                r.append(")");
                r
            },
            LexError::ImproperSymbol(s, d) => {
                if d.as_str().is_empty() {
                    quoted("Invalid symbol encountered: '", s)
                } else {
                    d.clone()
                }
            },
        }
    }

    /// Convert into a [`ParseError`] at the given position.
    pub fn into_err(self, pos: Position) -> (r: ParseError)
        ensures
            ParseErrorType::is_from_lex(self, *r.0),
            r.1 == pos,
    {
        ParseError(Box::new(ParseErrorType::from_lex(self)), pos)
    }
}

/// `prefix`, then `s`, then a closing quote.
fn quoted(prefix: &str, s: &String) -> (r: String)
    ensures
        r@ == prefix@ + s@ + "'"@,
{
    let mut r = String::from_str(prefix);
    r.append(s.as_str());
    r.append("'");
    r
}

/// The kind of error found while parsing a script.
#[derive(Debug, Clone, PartialEq, Eq, Hash)]
#[non_exhaustive]
pub enum ParseErrorType {
    /// The script ends too early.
    UnexpectedEOF,
    /// Error in the script text; wraps the lexer's error.
    BadInput(LexError),
    /// An unknown operator; wraps the operator.
    UnknownOperator(String),
    /// An expected token is missing; wraps the token and a description.
    MissingToken(String, String),
    /// A malformed expression among call arguments; wraps a description, if any.
    MalformedCallExpr(String),
    /// A malformed index expression; wraps a description, if any.
    MalformedIndexExpr(String),
    /// A malformed `in` expression; wraps a description, if any.
    MalformedInExpr(String),
    /// A malformed capture; wraps a description, if any.
    MalformedCapture(String),
    /// A map literal names a property twice; wraps the property.
    DuplicatedProperty(String),
    /// A switch case appears twice.
    DuplicatedSwitchCase,
    /// A property name is missing.
    PropertyExpected,
    /// A variable name is missing after `let`, `const`, `for` or `catch`.
    VariableExpected,
    /// An identifier is a reserved keyword; wraps it.
    Reserved(String),
    /// An expression is missing; wraps the kind of expression.
    ExprExpected(String),
    /// A doc-comment that no function definition follows.
    WrongDocComment,
    /// A function defined inside a block or another function.
    WrongFnDefinition,
    /// A function defined twice; wraps its name and number of parameters.
    FnDuplicatedDefinition(String, usize),
    /// A function name is missing after `fn`.
    FnMissingName,
    /// A function definition without parameter list; wraps the name.
    FnMissingParams(String),
    /// A function definition names a parameter twice; wraps the function and parameter names.
    FnDuplicatedParam(String, String),
    /// A function definition without body; wraps the name.
    FnMissingBody(String),
    /// An export statement below the global level.
    WrongExport,
    /// An assignment to a constant; wraps the constant's name.
    AssignmentToConstant(String),
    /// An assignment to something that cannot be assigned; wraps a message, if any.
    AssignmentToInvalidLHS(String),
    /// An expression beyond the maximum nesting.
    ExprTooDeep,
    /// A literal beyond the maximum size; wraps the kind of data and the maximum.
    LiteralTooLarge(String, usize),
    /// A `break` outside a loop.
    LoopBreak,
}

impl ParseErrorType {
    pub open spec fn spec_desc(&self) -> Seq<char> {
        match self {
            ParseErrorType::UnexpectedEOF => "Script is incomplete"@,
            ParseErrorType::BadInput(err) => err.spec_desc(),
            ParseErrorType::UnknownOperator(_) => "Unknown operator"@,
            ParseErrorType::MissingToken(_, _) => "Expecting a certain token that is missing"@,
            ParseErrorType::MalformedCallExpr(_) => "Invalid expression in function call arguments"@,
            ParseErrorType::MalformedIndexExpr(_) => "Invalid index in indexing expression"@,
            ParseErrorType::MalformedInExpr(_) => "Invalid 'in' expression"@,
            ParseErrorType::MalformedCapture(_) => "Invalid capturing"@,
            ParseErrorType::DuplicatedProperty(_) => "Duplicated property in object map literal"@,
            ParseErrorType::DuplicatedSwitchCase => "Duplicated switch case"@,
            ParseErrorType::PropertyExpected => "Expecting name of a property"@,
            ParseErrorType::VariableExpected => "Expecting name of a variable"@,
            ParseErrorType::Reserved(_) => "Invalid use of reserved keyword"@,
            ParseErrorType::ExprExpected(_) => "Expecting an expression"@,
            ParseErrorType::WrongDocComment => "Doc-comment must be followed immediately by a function definition"@,
            ParseErrorType::WrongFnDefinition => "Function definitions must be at global level and cannot be inside a block or another function"@,
            ParseErrorType::FnDuplicatedDefinition(_, _) => "Function already exists"@,
            ParseErrorType::FnMissingName => "Expecting function name in function declaration"@,
            ParseErrorType::FnMissingParams(_) => "Expecting parameters in function declaration"@,
            ParseErrorType::FnDuplicatedParam(_, _) => "Duplicated parameters in function declaration"@,
            ParseErrorType::FnMissingBody(_) => "Expecting body statement block for function declaration"@,
            ParseErrorType::WrongExport => "Export statement can only appear at global level"@,
            ParseErrorType::AssignmentToConstant(_) => "Cannot assign to a constant value"@,
            ParseErrorType::AssignmentToInvalidLHS(_) => "Expression cannot be assigned to"@,
            ParseErrorType::ExprTooDeep => "Expression exceeds maximum complexity"@,
            ParseErrorType::LiteralTooLarge(_, _) => "Literal exceeds maximum limit"@,
            ParseErrorType::LoopBreak => "Break statement should only be used inside a loop"@,
        }
    }

    /// A short description of the kind of error.
    pub fn desc(&self) -> (r: &'static str)
        ensures
            r@ == self.spec_desc(),
    {
        match self {
            ParseErrorType::UnexpectedEOF => "Script is incomplete",
            ParseErrorType::BadInput(err) => err.desc(),
            ParseErrorType::UnknownOperator(_) => "Unknown operator",
            ParseErrorType::MissingToken(_, _) => "Expecting a certain token that is missing",
            ParseErrorType::MalformedCallExpr(_) => "Invalid expression in function call arguments",
            ParseErrorType::MalformedIndexExpr(_) => "Invalid index in indexing expression",
            ParseErrorType::MalformedInExpr(_) => "Invalid 'in' expression",
            ParseErrorType::MalformedCapture(_) => "Invalid capturing",
            ParseErrorType::DuplicatedProperty(_) => "Duplicated property in object map literal",
            ParseErrorType::DuplicatedSwitchCase => "Duplicated switch case",
            ParseErrorType::PropertyExpected => "Expecting name of a property",
            ParseErrorType::VariableExpected => "Expecting name of a variable",
            ParseErrorType::Reserved(_) => "Invalid use of reserved keyword",
            ParseErrorType::ExprExpected(_) => "Expecting an expression",
            ParseErrorType::WrongDocComment => "Doc-comment must be followed immediately by a function definition",
            ParseErrorType::WrongFnDefinition => "Function definitions must be at global level and cannot be inside a block or another function",
            ParseErrorType::FnDuplicatedDefinition(_, _) => "Function already exists",
            ParseErrorType::FnMissingName => "Expecting function name in function declaration",
            ParseErrorType::FnMissingParams(_) => "Expecting parameters in function declaration",
            ParseErrorType::FnDuplicatedParam(_, _) => "Duplicated parameters in function declaration",
            ParseErrorType::FnMissingBody(_) => "Expecting body statement block for function declaration",
            ParseErrorType::WrongExport => "Export statement can only appear at global level",
            ParseErrorType::AssignmentToConstant(_) => "Cannot assign to a constant value",
            ParseErrorType::AssignmentToInvalidLHS(_) => "Expression cannot be assigned to",
            ParseErrorType::ExprTooDeep => "Expression exceeds maximum complexity",
            ParseErrorType::LiteralTooLarge(_, _) => "Literal exceeds maximum limit",
            ParseErrorType::LoopBreak => "Break statement should only be used inside a loop",
        }
    }

    /// The full message of the error.
    pub open spec fn spec_message(&self) -> Seq<char> {
        match self {
            ParseErrorType::BadInput(err) => err.spec_message(),
            ParseErrorType::MalformedCallExpr(s) | ParseErrorType::MalformedIndexExpr(s)
            | ParseErrorType::MalformedInExpr(s) | ParseErrorType::MalformedCapture(s) => {
                if s@.len() == 0 {
                    self.spec_desc()
                } else {
                    s@
                }
            },
            ParseErrorType::UnknownOperator(s) => self.spec_desc() + ": '"@ + s@ + "'"@,
            ParseErrorType::FnDuplicatedDefinition(s, n) => if *n == 0 {
                "Function '"@ + s@ + "' with "@ + "no parameters already exists"@
            } else if *n == 1 {
                "Function '"@ + s@ + "' with "@ + "1 parameter already exists"@
            } else {
                "Function '"@ + s@ + "' with "@ + decimal(*n as nat) + " parameters already exists"@
            },
            ParseErrorType::DuplicatedProperty(s) => "Duplicated property '"@ + s@
                + "' for object map literal"@,
            ParseErrorType::ExprExpected(s) => "Expecting "@ + s@ + " expression"@,
            ParseErrorType::FnMissingParams(s) => "Expecting parameters for function '"@ + s@
                + "'"@,
            ParseErrorType::FnMissingBody(s) => if s@.len() == 0 {
                "Expecting body statement block for anonymous function"@
            } else {
                "Expecting body statement block for function '"@ + s@ + "'"@
            },
            ParseErrorType::FnDuplicatedParam(s, arg) => "Duplicated parameter '"@ + arg@
                + "' for function '"@ + s@ + "'"@,
            ParseErrorType::MissingToken(token, s) => "Expecting '"@ + token@ + "' "@ + s@,
            ParseErrorType::AssignmentToConstant(s) => if s@.len() == 0 {
                self.spec_desc()
            } else {
                "Cannot assign to constant '"@ + s@ + "'"@
            },
            ParseErrorType::AssignmentToInvalidLHS(s) => if s@.len() == 0 {
                self.spec_desc()
            } else {
                s@
            },
            ParseErrorType::LiteralTooLarge(typ, max) => typ@ + " exceeds the maximum limit ("@
                + decimal(*max as nat) + ")"@,
            ParseErrorType::Reserved(s) => "'"@ + s@ + "' is a reserved keyword"@,
            _ => self.spec_desc(),
        }
    }

    pub fn message(&self) -> (r: String)
        ensures
            r@ == self.spec_message(),
    {
        match self {
            ParseErrorType::BadInput(err) => err.message(),
            ParseErrorType::MalformedCallExpr(s) | ParseErrorType::MalformedIndexExpr(s)
            | ParseErrorType::MalformedInExpr(s) | ParseErrorType::MalformedCapture(s) => {
                if s.as_str().is_empty() {
                    String::from_str(self.desc())
                } else {
                    s.clone()
                }
            },
            ParseErrorType::UnknownOperator(s) => {
                let mut r = String::from_str(self.desc());
                r.append(": '");
                r.append(s.as_str());
                r.append("'");
                r
            },
            ParseErrorType::FnDuplicatedDefinition(s, n) => {
                let mut r = String::from_str("Function '");
                r.append(s.as_str());
                r.append("' with ");
                if *n == 0 {
                    r.append("no parameters already exists");
                } else if *n == 1 {
                    r.append("1 parameter already exists");
                } else {
                    let d = decimal_text(*n);
                    r.append(d.as_str());
                    r.append(" parameters already exists");
                }
                r
            },
            ParseErrorType::DuplicatedProperty(s) => {
                let mut r = String::from_str("Duplicated property '");
                r.append(s.as_str());
                r.append("' for object map literal");
                r
            },
            ParseErrorType::ExprExpected(s) => {
                let mut r = String::from_str("Expecting ");
                r.append(s.as_str());
                r.append(" expression");
                r
            },
            ParseErrorType::FnMissingParams(s) => quoted("Expecting parameters for function '", s),
            ParseErrorType::FnMissingBody(s) => {
                if s.as_str().is_empty() {
                    String::from_str("Expecting body statement block for anonymous function")
                } else {
                    quoted("Expecting body statement block for function '", s)
                }
            },
            ParseErrorType::FnDuplicatedParam(s, arg) => {
                let mut r = String::from_str("Duplicated parameter '");
                r.append(arg.as_str());
                r.append("' for function '");
                r.append(s.as_str());
                r.append("'");
                r
            },
            ParseErrorType::MissingToken(token, s) => {
                let mut r = String::from_str("Expecting '");
                r.append(token.as_str());
                r.append("' ");
                r.append(s.as_str());
                r
            },
            ParseErrorType::AssignmentToConstant(s) => {
                if s.as_str().is_empty() {
                    String::from_str(self.desc())
                } else {
                    quoted("Cannot assign to constant '", s)
                }
            },
            ParseErrorType::AssignmentToInvalidLHS(s) => {
                if s.as_str().is_empty() {
                    String::from_str(self.desc())
                } else {
                    s.clone()
                }
            },
            ParseErrorType::LiteralTooLarge(typ, max) => {
                let mut r = typ.clone();
                r.append(" exceeds the maximum limit (");
                let m = decimal_text(*max);
                r.append(m.as_str());
                r.append(")");
                r
            },
            ParseErrorType::Reserved(s) => {
                let mut r = String::from_str("'");
                r.append(s.as_str());
                r.append("' is a reserved keyword");
                r
            },
            _ => String::from_str(self.desc()),
        }
    }

    /// Whether `r` is the parse error that the lexer error `err` becomes: an
    /// over-long string literal is reported as a literal too large, anything
    /// else as bad input.
    pub open spec fn is_from_lex(err: LexError, r: ParseErrorType) -> bool {
        match err {
            LexError::StringTooLong(max) => r matches ParseErrorType::LiteralTooLarge(t, m)
                && t@ == "Length of string literal"@ && m == max,
            _ => r == ParseErrorType::BadInput(err),
        }
    }

    pub fn from_lex(err: LexError) -> (r: ParseErrorType)
        ensures
            ParseErrorType::is_from_lex(err, r),
    {
        match err {
            LexError::StringTooLong(max) => ParseErrorType::LiteralTooLarge(
                String::from_str("Length of string literal"),
                max,
            ),
            _ => ParseErrorType::BadInput(err),
        }
    }

    /// Make a [`ParseError`] of this kind at the given position.
    pub fn into_err(self, pos: Position) -> (r: ParseError)
        ensures
            *r.0 == self,
            r.1 == pos,
    {
        ParseError(Box::new(self), pos)
    }
}

/// An error found while parsing a script: its kind and where it was found.
#[derive(Debug, Clone, PartialEq, Eq, Hash)]
pub struct ParseError(pub Box<ParseErrorType>, pub Position);

impl ParseError {
    /// The message of the kind of error, then the position unless there is none.
    pub open spec fn spec_message(&self) -> Seq<char> {
        if self.1.line == 0 {
            self.0.spec_message()
        } else {
            self.0.spec_message() + " ("@ + self.1.spec_text() + ")"@
        }
    }

    pub fn message(&self) -> (r: String)
        ensures
            r@ == self.spec_message(),
    {
        let mut r = self.0.message();
        if !self.1.is_none() {
            r.append(" (");
            let p = self.1.text();
            r.append(p.as_str());
            r.append(")");
        }
        r
    }
}

} // verus!
