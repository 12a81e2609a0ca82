use rhai_core::{Dynamic, EvalAltResult, NativeCallContext, PluginFunction, Scope, Union};

struct Sum;

impl PluginFunction for Sum {
    fn call(
        &self,
        _context: &NativeCallContext,
        args: &mut Vec<Dynamic>,
    ) -> Result<Dynamic, EvalAltResult> {
        let mut total = 0_i64;
        for a in args.iter() {
            if let Union::Int(i) = a.value {
                total += i;
            }
        }
        Ok(Dynamic::from(total))
    }

    fn is_method_call(&self) -> bool {
        false
    }

    fn is_variadic(&self) -> bool {
        true
    }
}

#[test]
fn plugin_function_is_called_through_the_trait() {
    let f: &dyn PluginFunction = &Sum;
    let ctx = NativeCallContext { fn_name: String::from("sum") };
    let mut args = vec![Dynamic::from(1_i64), Dynamic::from(2_i64)];
    match f.call(&ctx, &mut args).unwrap().value {
        Union::Int(i) => assert_eq!(i, 3),
        _ => panic!("expected an integer"),
    }
    assert!(f.is_variadic());
    assert!(!f.is_method_call());
}

#[test]
fn scope_pushes_chain() {
    let mut scope = Scope::new();
    scope.push("a", 1_i64).push("b", 2_i64).push_constant("c", true);
    assert_eq!(scope.len(), 3);
    assert_eq!(scope.get_value::<bool>("c"), Some(true));
    scope.rewind(1).push("d", 4_i64);
    assert_eq!(scope.len(), 2);
    assert!(!scope.contains("b"));
}
