use rhai_core::{
    is_valid_identifier, lookup_from_syntax, parse_segments, Dynamic, Engine, EvalAltResult,
    EvalContext, Expr, Expression, LexError, ParseErrorType, Position, Scope, SymbolKind,
    SyntaxParse, Union,
};

type Eval = fn(i64) -> i64;
type Parse = fn(usize) -> usize;

fn double(x: i64) -> i64 {
    x * 2
}

fn triple(x: i64) -> i64 {
    x * 3
}

fn next_count(n: usize) -> usize {
    n + 1
}

fn segments_of(engine: &Engine<Parse, Eval>, key: &str) -> Option<Vec<String>> {
    match engine.custom_syntax(key) {
        Some(rule) => match &rule.parse {
            SyntaxParse::Segments(v) => Some(v.clone()),
            SyntaxParse::Custom(_) => None,
        },
        None => None,
    }
}

fn improper_symbol_of(e: &rhai_core::ParseError) -> (String, String) {
    match &*e.0 {
        ParseErrorType::BadInput(LexError::ImproperSymbol(s, d)) => (s.clone(), d.clone()),
        other => panic!("unexpected error {:?}", other),
    }
}

#[test]
fn custom_syntax_round_trip_registration() {
    let mut engine: Engine<Parse, Eval> = Engine::new();
    let r = engine.register_custom_syntax(&["my_stmt", "$ident$", "=", "$expr$"], 1, double);
    assert!(r.is_ok());
    let segments = segments_of(&engine, "my_stmt").unwrap();
    assert_eq!(segments, vec!["my_stmt", "$ident$", "=", "$expr$"]);
    let rule = engine.custom_syntax("my_stmt").unwrap();
    assert_eq!(rule.scope_delta, 1);
    assert_eq!((rule.func)(21), 42);

    let mut stream: Vec<String> = Vec::new();
    for expected in ["my_stmt", "$ident$", "=", "$expr$"] {
        let next = parse_segments(&segments, &stream, "").unwrap();
        assert_eq!(next.as_deref(), Some(expected));
        stream.push(next.unwrap());
    }
    assert_eq!(parse_segments(&segments, &stream, "").unwrap(), None);
}

#[test]
fn custom_syntax_reserved_key_is_refused() {
    let mut engine: Engine<Parse, Eval> = Engine::new();
    let e = engine
        .register_custom_syntax(&["if", "$expr$"], 0, double)
        .unwrap_err();
    let (symbol, desc) = improper_symbol_of(&e);
    assert_eq!(symbol, "if");
    assert_eq!(desc, "Improper symbol for custom syntax at position #1: 'if'");
    assert!(e.1.is_none());
    assert!(engine.custom_syntax("if").is_none());
    assert!(!engine.is_custom_keyword("if"));
}

#[test]
fn custom_syntax_reserved_word_key_is_refused() {
    let mut engine: Engine<Parse, Eval> = Engine::new();
    assert!(engine.register_custom_syntax(&["var", "$ident$"], 1, double).is_err());
    assert!(engine.custom_syntax("var").is_none());
}

#[test]
fn custom_syntax_marker_key_is_refused() {
    let mut engine: Engine<Parse, Eval> = Engine::new();
    let e = engine
        .register_custom_syntax(&["$expr$", "x"], 0, double)
        .unwrap_err();
    assert_eq!(improper_symbol_of(&e).0, "$expr$");
}

#[test]
fn custom_syntax_bad_later_segment_reports_position() {
    let mut engine: Engine<Parse, Eval> = Engine::new();
    let e = engine
        .register_custom_syntax(&["stmt", "", "$ident$", "9x"], 0, double)
        .unwrap_err();
    let (symbol, desc) = improper_symbol_of(&e);
    assert_eq!(symbol, "9x");
    assert_eq!(desc, "Improper symbol for custom syntax at position #3: '9x'");
    assert!(engine.custom_syntax("stmt").is_none());
}

#[test]
fn custom_syntax_empty_is_ignored() {
    let mut engine: Engine<Parse, Eval> = Engine::new();
    assert!(engine.register_custom_syntax(&["", "   "], 0, double).is_ok());
    assert!(engine.custom_syntax("").is_none());
}

#[test]
fn custom_syntax_segments_are_trimmed() {
    let mut engine: Engine<Parse, Eval> = Engine::new();
    assert!(engine
        .register_custom_syntax(&["  hello ", " $expr$"], 0, double)
        .is_ok());
    assert_eq!(segments_of(&engine, "hello").unwrap(), vec!["hello", "$expr$"]);
}

#[test]
fn custom_syntax_reserved_and_disabled_symbols_become_keywords() {
    let mut engine: Engine<Parse, Eval> = Engine::new();
    engine.disable_symbol("while");
    assert!(engine.is_symbol_disabled("while"));
    assert!(engine
        .register_custom_syntax(&["repeat", "$block$", "while", "$expr$", "var", "+"], 0, double)
        .is_ok());
    assert!(engine.is_custom_keyword("while"));
    assert!(engine.is_custom_keyword("var"));
    assert!(!engine.is_custom_keyword("+"));
    assert!(!engine.is_custom_keyword("repeat"));
    assert!(!engine.is_custom_keyword("$block$"));
}

#[test]
fn custom_syntax_disabled_key_becomes_keyword() {
    let mut engine: Engine<Parse, Eval> = Engine::new();
    engine.disable_symbol("hello");
    assert!(engine.register_custom_syntax(&["hello"], 0, double).is_ok());
    assert!(engine.is_custom_keyword("hello"));
}

#[test]
fn custom_syntax_reregistration_replaces() {
    let mut engine: Engine<Parse, Eval> = Engine::new();
    assert!(engine.register_custom_syntax(&["go_on", "$expr$"], 0, double).is_ok());
    assert!(engine.register_custom_syntax(&["go_on", "$block$"], -1, triple).is_ok());
    let rule = engine.custom_syntax("go_on").unwrap();
    assert_eq!(rule.scope_delta, -1);
    assert_eq!((rule.func)(2), 6);
    assert_eq!(segments_of(&engine, "go_on").unwrap(), vec!["go_on", "$block$"]);
}

#[test]
fn custom_syntax_raw_registration() {
    let mut engine: Engine<Parse, Eval> = Engine::new();
    engine.register_custom_syntax_raw("raw", next_count, 2, double);
    let rule = engine.custom_syntax("raw").unwrap();
    assert_eq!(rule.scope_delta, 2);
    match &rule.parse {
        SyntaxParse::Custom(p) => assert_eq!(p(4), 5),
        SyntaxParse::Segments(_) => panic!("expected a host parse callback"),
    }
    assert!(segments_of(&engine, "raw").is_none());
}

#[test]
fn symbol_lookup_classifies() {
    assert_eq!(lookup_from_syntax("if"), Some(SymbolKind::Keyword));
    assert_eq!(lookup_from_syntax("print"), Some(SymbolKind::Reserved));
    assert_eq!(lookup_from_syntax(":="), Some(SymbolKind::Reserved));
    assert_eq!(lookup_from_syntax("+="), Some(SymbolKind::Operator));
    assert_eq!(lookup_from_syntax("my_stmt"), None);
}

#[test]
fn identifier_validity() {
    assert!(is_valid_identifier("abc"));
    assert!(is_valid_identifier("_a1"));
    assert!(is_valid_identifier("__x"));
    assert!(!is_valid_identifier("_"));
    assert!(!is_valid_identifier("1a"));
    assert!(!is_valid_identifier("_1a"));
    assert!(!is_valid_identifier("a-b"));
    assert!(!is_valid_identifier(""));
}

#[test]
fn expression_accessors() {
    let var = Expr::Variable(String::from("x"), Position::new(2, 5));
    let e = Expression::new(&var);
    assert_eq!(e.get_variable_name(), Some("x"));
    assert_eq!(e.position(), Position::new(2, 5));
    let lit = Expr::IntegerConstant(3, Position::new(1, 1));
    assert_eq!(Expression::new(&lit).get_variable_name(), None);
}

#[test]
fn eval_expression_tree_reads_scope() {
    let mut scope = Scope::new();
    scope.push("x", 41_i64);
    let mut ctx = EvalContext { scope: &mut scope, level: 0 };
    let var = Expr::Variable(String::from("x"), Position::new(1, 1));
    match ctx.eval_expression_tree(&Expression::new(&var)) {
        Ok(Dynamic { value: Union::Int(v), .. }) => assert_eq!(v, 41),
        other => panic!("unexpected {:?}", other),
    }
    let lit = Expr::StringConstant(String::from("hi"), Position::new(1, 1));
    match ctx.eval_expression_tree(&Expression::new(&lit)) {
        Ok(Dynamic { value: Union::Str(s), .. }) => assert_eq!(s, "hi"),
        other => panic!("unexpected {:?}", other),
    }
    let missing = Expr::Variable(String::from("y"), Position::new(4, 2));
    match ctx.eval_expression_tree(&Expression::new(&missing)) {
        Err(EvalAltResult::ErrorVariableNotFound(name, pos)) => {
            assert_eq!(name, "y");
            assert_eq!(pos, Position::new(4, 2));
        }
        other => panic!("unexpected {:?}", other),
    }
}
