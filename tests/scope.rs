use rhai_core::{AccessMode, Dynamic, ParseErrorType, Scope, Union};

fn int_of(d: &Dynamic) -> Option<i64> {
    match d.value {
        Union::Int(i) => Some(i),
        _ => None,
    }
}

#[test]
fn scope_shadowing_and_rewind_scenario() {
    let mut scope = Scope::new();
    scope.push("x", 10_i64);
    scope.push_constant("x", 20_i64);
    assert_eq!(scope.get_value::<i64>("x"), Some(20));
    scope.rewind(1);
    assert_eq!(scope.get_value::<i64>("x"), Some(10));
}

#[test]
fn scope_starts_empty() {
    let scope = Scope::new();
    assert_eq!(scope.len(), 0);
    assert!(scope.is_empty());
    assert!(!scope.contains("x"));
    let scope = Scope::default();
    assert!(scope.is_empty());
}

#[test]
fn scope_push_and_get() {
    let mut scope = Scope::new();
    scope.push("x", 42_i64);
    assert_eq!(scope.get_value::<i64>("x"), Some(42));
    assert_eq!(scope.len(), 1);
    assert!(!scope.is_empty());
}

#[test]
fn scope_get_value_wrong_type_or_missing() {
    let mut scope = Scope::new();
    scope.push("x", 42_i64);
    assert_eq!(scope.get_value::<bool>("x"), None);
    assert_eq!(scope.get_value::<i64>("y"), None);
}

#[test]
fn scope_shadowing_get_mut_resolves_later() {
    let mut scope = Scope::new();
    scope.push("x", 1_i64);
    scope.push("x", 2_i64);
    {
        let slot = scope.get_mut("x").unwrap();
        assert_eq!(int_of(slot), Some(2));
        *slot = Dynamic::from(99_i64);
    }
    assert_eq!(scope.get_value::<i64>("x"), Some(99));
    scope.rewind(1);
    assert_eq!(scope.get_value::<i64>("x"), Some(1));
}

#[test]
fn scope_rewind_beyond_length_is_noop() {
    let mut scope = Scope::new();
    scope.push("x", 42_i64);
    scope.push("y", 123_i64);
    scope.rewind(5);
    assert_eq!(scope.len(), 2);
    scope.rewind(1);
    assert!(scope.contains("x"));
    assert!(!scope.contains("y"));
    scope.rewind(0);
    assert!(scope.is_empty());
}

#[test]
fn scope_clear() {
    let mut scope = Scope::new();
    scope.push("x", 42_i64);
    scope.clear();
    assert!(!scope.contains("x"));
    assert_eq!(scope.len(), 0);
}

#[test]
fn scope_set_value_updates_or_appends() {
    let mut scope = Scope::new();
    scope.push("x", 42_i64);
    assert!(scope.set_value("x", 0_i64).is_ok());
    assert_eq!(scope.get_value::<i64>("x"), Some(0));
    assert_eq!(scope.len(), 1);
    assert!(scope.set_value("y", true).is_ok());
    assert_eq!(scope.len(), 2);
    assert_eq!(scope.get_value::<bool>("y"), Some(true));
}

#[test]
fn scope_set_value_on_constant_fails_and_keeps_value() {
    let mut scope = Scope::new();
    scope.push_constant("k", 7_i64);
    match scope.set_value("k", 8_i64) {
        Err(ParseErrorType::AssignmentToConstant(name)) => assert_eq!(name, "k"),
        _ => panic!("expected an assignment to a constant"),
    }
    assert_eq!(scope.get_value::<i64>("k"), Some(7));
    assert_eq!(scope.len(), 1);
}

#[test]
fn scope_get_mut_of_constant_is_none() {
    let mut scope = Scope::new();
    scope.push_constant("k", 7_i64);
    assert!(scope.get_mut("k").is_none());
    assert!(scope.get_mut("missing").is_none());
}

#[test]
fn scope_push_dynamic_keeps_access_mode() {
    let mut scope = Scope::new();
    let mut v = Dynamic::from(5_i64);
    v.set_access_mode(AccessMode::ReadOnly);
    scope.push_dynamic("a", v);
    scope.push_constant_dynamic("b", Dynamic::from(6_i64));
    let entries = scope.iter_raw();
    assert!(entries[0].1);
    assert!(entries[1].1);
    assert!(scope.get_mut("a").is_none());
}

#[test]
fn scope_iter_lists_bindings_in_order() {
    let mut scope = Scope::new();
    scope.push("x", 42_i64);
    scope.push_constant("foo", String::from("hello"));
    let entries = scope.iter();
    assert_eq!(entries.len(), 2);
    assert_eq!(entries[0].0, "x");
    assert!(!entries[0].1);
    assert_eq!(int_of(&entries[0].2), Some(42));
    assert_eq!(entries[1].0, "foo");
    assert!(entries[1].1);
    match &entries[1].2.value {
        Union::Str(s) => assert_eq!(s, "hello"),
        _ => panic!("expected a string"),
    }
}

#[test]
fn scope_clone_visible_drops_shadowed() {
    let mut scope = Scope::new();
    scope.push("a", 1_i64);
    scope.push("b", 2_i64);
    scope.push("a", 3_i64);
    let visible = scope.clone_visible();
    let entries = visible.iter();
    assert_eq!(entries.len(), 2);
    assert_eq!(entries[0].0, "b");
    assert_eq!(int_of(&entries[0].2), Some(2));
    assert_eq!(entries[1].0, "a");
    assert_eq!(int_of(&entries[1].2), Some(3));
}

#[test]
fn scope_clone_visible_without_shadowing_is_identity() {
    let mut scope = Scope::new();
    scope.push("a", 1_i64);
    scope.push_constant("b", 2_i64);
    scope.push("c", 3_i64);
    let visible = scope.clone_visible();
    let before = scope.iter();
    let after = visible.iter();
    assert_eq!(before.len(), after.len());
    for i in 0..before.len() {
        assert_eq!(before[i].0, after[i].0);
        assert_eq!(before[i].1, after[i].1);
        assert_eq!(int_of(&before[i].2), int_of(&after[i].2));
    }
}

#[test]
fn scope_add_entry_alias_is_idempotent() {
    let mut scope = Scope::new();
    scope.push("x", 1_i64);
    scope.add_entry_alias(0, "y");
    scope.add_entry_alias(0, "y");
    scope.add_entry_alias(0, "z");
    let entries = scope.into_iter();
    assert_eq!(entries.len(), 1);
    assert_eq!(entries[0].0, "x");
    assert_eq!(entries[0].2, vec![String::from("y"), String::from("z")]);
}

#[test]
fn scope_extend_and_into_iter() {
    let mut scope = Scope::new();
    scope.push("x", 1_i64);
    scope.extend(vec![
        (String::from("y"), Dynamic::from(2_i64)),
        (String::from("z"), Dynamic::from(true)),
    ]);
    assert_eq!(scope.len(), 3);
    assert_eq!(scope.get_value::<bool>("z"), Some(true));
    let entries = scope.into_iter();
    assert_eq!(entries[1].0, "y");
    assert_eq!(int_of(&entries[1].1), Some(2));
    assert!(entries[1].2.is_empty());
}

#[test]
fn scope_get_index_reports_access() {
    let mut scope = Scope::new();
    scope.push("x", 1_i64);
    scope.push_constant("x", 2_i64);
    assert_eq!(scope.get_index("x"), Some((1, AccessMode::ReadOnly)));
    assert_eq!(scope.get_index("nope"), None);
    assert_eq!(int_of(scope.value_at(0)), Some(1));
}
