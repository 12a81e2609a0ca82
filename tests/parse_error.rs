use rhai_core::{EvalAltResult, LexError, ParseError, ParseErrorType, Position};

#[test]
fn lex_error_descriptions() {
    assert_eq!(LexError::UnterminatedString.desc(), "Open string is not terminated");
    assert_eq!(
        LexError::MalformedNumber(String::from("1x")).desc(),
        "Invalid number"
    );
}

#[test]
fn lex_error_messages() {
    assert_eq!(
        LexError::UnexpectedInput(String::from("~")).message(),
        "Unexpected '~'"
    );
    assert_eq!(
        LexError::MalformedChar(String::from("'ab'")).message(),
        "Invalid character: ''ab''"
    );
    assert_eq!(
        LexError::StringTooLong(255).message(),
        "Length of string literal exceeds the maximum limit (255)"
    );
    assert_eq!(
        LexError::ImproperSymbol(String::from("@"), String::new()).message(),
        "Invalid symbol encountered: '@'"
    );
    assert_eq!(
        LexError::ImproperSymbol(String::from("@"), String::from("custom")).message(),
        "custom"
    );
}

#[test]
fn lex_error_into_err_wraps_bad_input() {
    let e = LexError::MalformedNumber(String::from("1x")).into_err(Position::new(3, 4));
    assert_eq!(
        *e.0,
        ParseErrorType::BadInput(LexError::MalformedNumber(String::from("1x")))
    );
    assert_eq!(e.1, Position::new(3, 4));
    assert_eq!(e.message(), "Invalid number: '1x' (line 3, position 4)");
}

#[test]
fn lex_error_string_too_long_becomes_literal_too_large() {
    let e = LexError::StringTooLong(10).into_err(Position::none());
    assert_eq!(
        *e.0,
        ParseErrorType::LiteralTooLarge(String::from("Length of string literal"), 10)
    );
    assert_eq!(
        e.message(),
        "Length of string literal exceeds the maximum limit (10)"
    );
}

#[test]
fn parse_error_type_descriptions_and_messages() {
    assert_eq!(ParseErrorType::UnexpectedEOF.desc(), "Script is incomplete");
    assert_eq!(ParseErrorType::UnexpectedEOF.message(), "Script is incomplete");
    assert_eq!(
        ParseErrorType::BadInput(LexError::UnterminatedString).desc(),
        "Open string is not terminated"
    );
    assert_eq!(
        ParseErrorType::FnDuplicatedDefinition(String::from("f"), 0).message(),
        "Function 'f' with no parameters already exists"
    );
    assert_eq!(
        ParseErrorType::FnDuplicatedDefinition(String::from("f"), 1).message(),
        "Function 'f' with 1 parameter already exists"
    );
    assert_eq!(
        ParseErrorType::FnDuplicatedDefinition(String::from("f"), 12).message(),
        "Function 'f' with 12 parameters already exists"
    );
    assert_eq!(
        ParseErrorType::MissingToken(String::from(")"), String::from("to close")).message(),
        "Expecting ')' to close"
    );
    assert_eq!(
        ParseErrorType::Reserved(String::from("var")).message(),
        "'var' is a reserved keyword"
    );
    assert_eq!(
        ParseErrorType::AssignmentToConstant(String::new()).message(),
        "Cannot assign to a constant value"
    );
    assert_eq!(
        ParseErrorType::AssignmentToConstant(String::from("x")).message(),
        "Cannot assign to constant 'x'"
    );
    assert_eq!(
        ParseErrorType::MalformedCallExpr(String::new()).message(),
        "Invalid expression in function call arguments"
    );
    assert_eq!(
        ParseErrorType::FnMissingBody(String::new()).message(),
        "Expecting body statement block for anonymous function"
    );
    assert_eq!(
        ParseErrorType::FnDuplicatedParam(String::from("f"), String::from("x")).message(),
        "Duplicated parameter 'x' for function 'f'"
    );
    assert_eq!(
        ParseErrorType::LiteralTooLarge(String::from("Array"), 100).message(),
        "Array exceeds the maximum limit (100)"
    );
}

#[test]
fn parse_error_message_without_position() {
    let e: ParseError = ParseErrorType::LoopBreak.into_err(Position::none());
    assert_eq!(e.message(), "Break statement should only be used inside a loop");
    assert!(e.1.is_none());
}

#[test]
fn position_text() {
    assert_eq!(Position::none().text(), "none");
    assert_eq!(Position::new(10, 2).text(), "line 10, position 2");
}

#[test]
fn eval_error_from_parse_error() {
    let e = ParseErrorType::WrongExport.into_err(Position::new(1, 1));
    match EvalAltResult::from_parse_error(e) {
        EvalAltResult::ErrorParsing(t, p) => {
            assert_eq!(t, ParseErrorType::WrongExport);
            assert_eq!(p, Position::new(1, 1));
        }
        _ => panic!("expected a parse error"),
    }
}
