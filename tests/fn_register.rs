use rhai_core::{
    by_ref, by_value, into_callable_function, AbiShape, Dynamic, EvalAltResult, NativeCallContext,
    Position, TypeTag, Union,
};

fn ctx() -> NativeCallContext {
    NativeCallContext { fn_name: String::from("f") }
}

fn int_of(d: &Dynamic) -> Option<i64> {
    match d.value {
        Union::Int(i) => Some(i),
        _ => None,
    }
}

fn is_unit(d: &Dynamic) -> bool {
    matches!(d.value, Union::Unit(()))
}

#[test]
fn by_value_leaves_unit() {
    let mut slot = Dynamic::from(String::from("text"));
    let s: String = by_value(&mut slot);
    assert_eq!(s, "text");
    assert!(is_unit(&slot));
}

#[test]
fn by_ref_writes_back() {
    let mut slot = Dynamic::from(5_i64);
    {
        let r: &mut i64 = by_ref(&mut slot);
        *r += 10;
    }
    assert_eq!(int_of(&slot), Some(15));
}

#[test]
fn plain_functions_of_each_arity() {
    let f0 = into_callable_function(|| 7_i64);
    let mut args: Vec<Dynamic> = vec![];
    assert_eq!(int_of(&f0.call(&ctx(), &mut args).unwrap()), Some(7));
    assert!(f0.param_types.is_empty());

    let f1 = into_callable_function(|a: i64| a + 1);
    let mut args = vec![Dynamic::from(1_i64)];
    assert_eq!(int_of(&f1.call(&ctx(), &mut args).unwrap()), Some(2));
    assert!(is_unit(&args[0]));
    assert_eq!(f1.param_types, vec![TypeTag::Int]);
    assert_eq!(f1.abi.shape, AbiShape::Plain);
    assert!(!f1.abi.method);

    let f2 = into_callable_function(|a: i64, b: bool| if b { a } else { -a });
    let mut args = vec![Dynamic::from(3_i64), Dynamic::from(false)];
    assert_eq!(int_of(&f2.call(&ctx(), &mut args).unwrap()), Some(-3));
    assert!(is_unit(&args[0]) && is_unit(&args[1]));

    let f3 = into_callable_function(|a: i64, b: i64, c: i64| a * 100 + b * 10 + c);
    let mut args = vec![Dynamic::from(1_i64), Dynamic::from(2_i64), Dynamic::from(3_i64)];
    assert_eq!(int_of(&f3.call(&ctx(), &mut args).unwrap()), Some(123));
    assert_eq!(f3.param_types, vec![TypeTag::Int, TypeTag::Int, TypeTag::Int]);
}

#[test]
fn context_functions_see_the_context() {
    let f = into_callable_function(|c: &NativeCallContext, a: String| {
        let mut s = c.fn_name.clone();
        s.push_str(&a);
        s
    });
    assert_eq!(f.abi.shape, AbiShape::PlainWithContext);
    let mut args = vec![Dynamic::from(String::from("oo"))];
    match f.call(&ctx(), &mut args).unwrap().value {
        Union::Str(s) => assert_eq!(s, "foo"),
        _ => panic!("expected a string"),
    }
    assert!(is_unit(&args[0]));
}

#[test]
fn fallible_functions_pass_errors_through() {
    let f = into_callable_function(|a: i64, b: i64| -> Result<i64, EvalAltResult> {
        if b == 0 {
            Err(EvalAltResult::ErrorRuntime(Dynamic::from(String::from("division by zero")), Position::none()))
        } else {
            Ok(a / b)
        }
    });
    assert_eq!(f.abi.shape, AbiShape::Fallible);
    let mut args = vec![Dynamic::from(9_i64), Dynamic::from(3_i64)];
    assert_eq!(int_of(&f.call(&ctx(), &mut args).unwrap()), Some(3));
    let mut args = vec![Dynamic::from(9_i64), Dynamic::from(0_i64)];
    match f.call(&ctx(), &mut args) {
        Err(EvalAltResult::ErrorRuntime(v, _)) => match v.value {
            Union::Str(s) => assert_eq!(s, "division by zero"),
            _ => panic!("expected a message"),
        },
        other => panic!("unexpected {:?}", other),
    }
}

#[test]
fn fallible_context_function() {
    let f = into_callable_function(
        |c: &NativeCallContext, a: bool| -> Result<bool, EvalAltResult> {
            if c.fn_name == "f" {
                Ok(!a)
            } else {
                Err(EvalAltResult::ErrorVariableNotFound(c.fn_name.clone(), Position::none()))
            }
        },
    );
    assert_eq!(f.abi.shape, AbiShape::FallibleWithContext);
    let mut args = vec![Dynamic::from(true)];
    match f.call(&ctx(), &mut args).unwrap().value {
        Union::Bool(b) => assert!(!b),
        _ => panic!("expected a bool"),
    }
}

#[test]
fn method_mutates_first_argument_in_place() {
    let f = into_callable_function(|a: &mut i64, b: i64| {
        *a += b;
        *a
    });
    assert!(f.abi.method);
    let mut args = vec![Dynamic::from(10_i64), Dynamic::from(5_i64)];
    assert_eq!(int_of(&f.call(&ctx(), &mut args).unwrap()), Some(15));
    assert_eq!(int_of(&args[0]), Some(15));
    assert!(is_unit(&args[1]));
}

#[test]
fn method_on_string_receiver() {
    let f = into_callable_function(|s: &mut String| {
        s.push('!');
        s.len() as i64
    });
    let mut args = vec![Dynamic::from(String::from("hey"))];
    assert_eq!(int_of(&f.call(&ctx(), &mut args).unwrap()), Some(4));
    match &args[0].value {
        Union::Str(s) => assert_eq!(s, "hey!"),
        _ => panic!("expected a string"),
    }
}

#[test]
fn args_match_checks_the_fingerprint() {
    let f = into_callable_function(|a: i64, b: bool| if b { a } else { 0 });
    assert!(f.args_match(&vec![Dynamic::from(1_i64), Dynamic::from(true)]));
    assert!(!f.args_match(&vec![Dynamic::from(true), Dynamic::from(1_i64)]));
    assert!(!f.args_match(&vec![Dynamic::from(1_i64)]));
}
