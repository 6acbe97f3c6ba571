use rush_interpreter::ast::{Block, FnDef, Ident, Span};
use rush_interpreter::error::{RuntimeError, RuntimeResult};
use rush_interpreter::func::{Callable, IntoHook, VariadicFn};
use rush_interpreter::hash::hash_definition;
use rush_interpreter::refs::{FnRef, Ref, RefSource};
use rush_interpreter::scope::Scope;
use rush_interpreter::shared::Shared;
use rush_interpreter::value::Value;
use rush_interpreter::var::Variable;

fn definition(name: &str, params: &[&str]) -> FnDef {
    let span = Span::new(0, 0);
    FnDef {
        span,
        ident: Ident { name: name.to_string(), span },
        params: params.iter().map(|p| Ident { name: p.to_string(), span }).collect(),
        body: Block { span, items: Vec::new() },
    }
}

fn unit_hook() -> VariadicFn<impl Fn(Vec<Value>) -> RuntimeResult<Value>> {
    VariadicFn::new(|_args: Vec<Value>| Ok(Value::Unit))
}

#[test]
fn new_scope_is_empty_and_named() {
    let scope = Scope::new("block");
    assert!(scope.is_empty());
    assert_eq!(scope.len(), 0);
    assert_eq!(scope.to_text(), "Scope(block)");
    assert!(!scope.is_global());
    assert!(Scope::new_global().is_global());
    assert_eq!(Scope::new_global().to_text(), "Scope(global)");
}

#[test]
fn new_var_hands_out_fresh_refs() {
    let mut refs = RefSource::new();
    let mut scope = Scope::new_global();
    let a = scope.new_var(&mut refs, "a", Value::Int(1));
    let b = scope.new_var(&mut refs, "b", Value::Bool(true));
    assert_eq!(a, Ref::new(0));
    assert_eq!(b, Ref::new(1));
    assert_eq!(scope.len(), 2);
    assert_eq!(scope.get("a").unwrap().value(), Value::Int(1));
    assert_eq!(scope.get("b").unwrap().value(), Value::Bool(true));
}

#[test]
fn lookup_finds_the_most_recent_binding() {
    let mut refs = RefSource::new();
    let mut scope = Scope::new_global();
    let first = scope.new_var(&mut refs, "x", Value::Int(1));
    let second = scope.new_var(&mut refs, "x", Value::Int(2));
    assert_eq!(scope.get("x").unwrap().value(), Value::Int(2));
    assert!(scope.get("x").unwrap().ref_eq(&second));
    assert_eq!(scope.search(&first).unwrap().value(), Value::Int(1));
    assert_eq!(scope.search(&second).unwrap().value(), Value::Int(2));
    assert_eq!(scope.find(&"x".to_string()), Some(1));
    assert_eq!(scope.find(&"y".to_string()), None);
}

#[test]
fn lookup_of_unknown_names_and_refs_fails() {
    let mut scope = Scope::new_global();
    assert_eq!(
        scope.get("nope").err(),
        Some(RuntimeError::IdentNotFound("nope".to_string()))
    );
    assert_eq!(
        scope.get_mut("nope").err(),
        Some(RuntimeError::IdentNotFound("nope".to_string()))
    );
    assert_eq!(
        scope.search(&Ref::new(5)).err(),
        Some(RuntimeError::NullRefError(Ref::new(5)))
    );
    assert!(matches!(
        scope.get_fn(FnRef::new(Ref::new(5))),
        Err(RuntimeError::NullRefError(r)) if r == Ref::new(5)
    ));
}

#[test]
fn get_mut_writes_through() {
    let mut refs = RefSource::new();
    let mut scope = Scope::new_global();
    scope.new_var(&mut refs, "x", Value::Int(1));
    scope.new_var(&mut refs, "y", Value::Int(2));
    scope.get_mut("x").unwrap().update(Value::Bool(false));
    assert_eq!(scope.get("x").unwrap().value(), Value::Bool(false));
    assert_eq!(scope.get("y").unwrap().value(), Value::Int(2));
    *scope.get_mut("y").unwrap().value_mut() = Value::Unit;
    assert_eq!(scope.get("y").unwrap().value(), Value::Unit);
}

#[test]
fn registering_a_script_function_binds_its_name() {
    let mut refs = RefSource::new();
    let mut scope = Scope::new_global();
    scope.register_script_fn(&mut refs, definition("main", &["arg1"]));
    let var = scope.get("main").unwrap();
    assert_eq!(var.value(), Value::Fn(FnRef::new(Ref::new(0))));
    assert!(var.ref_eq(&Ref::new(1)));
    assert_eq!(refs.fresh(), Ref::new(2));
    let callable = scope.get_fn(FnRef::new(Ref::new(0))).unwrap();
    match &*callable {
        Callable::Script(script) => {
            assert_eq!(script.def, definition("main", &["arg1"]));
            assert_eq!(script.hash, hash_definition(&definition("main", &["arg1"])));
            assert_eq!(script.to_text(), "ScriptFn(fn Ident(main)(Ident(arg1)))");
        }
        Callable::Native(_) => panic!("a script function was registered"),
    }
}

#[test]
fn registering_a_host_function_binds_its_name() {
    let mut refs = RefSource::new();
    let mut scope = Scope::new_global();
    scope.register_external_fn(&mut refs, "print", unit_hook());
    scope.register_boxed_external_fn(&mut refs, "println", unit_hook().into_hook());
    scope.register_native_fn(&mut refs, "type_of", unit_hook());
    for (i, name) in ["print", "println", "type_of"].iter().enumerate() {
        let fn_ref = FnRef::new(Ref::new(2 * i));
        assert_eq!(scope.get(name).unwrap().value(), Value::Fn(fn_ref));
        match &*scope.get_fn(fn_ref).unwrap() {
            Callable::Native(native) => {
                assert_eq!(native.name(), *name);
                assert_eq!(native.to_text(), format!("NativeFn({})", name));
                assert_eq!(native.call(vec![Value::Int(1)]), Ok(Value::Unit));
            }
            Callable::Script(_) => panic!("a host function was registered"),
        }
    }
}

#[test]
fn clear_empties_the_scope_and_keeps_the_counter() {
    let mut refs = RefSource::new();
    let mut scope = Scope::new("f");
    scope.new_var(&mut refs, "x", Value::Int(1));
    scope.register_script_fn(&mut refs, definition("g", &[]));
    scope.clear("block");
    assert!(scope.is_empty());
    assert_eq!(scope.to_text(), "Scope(block)");
    assert!(scope.get("x").is_err());
    assert!(scope.get_fn(FnRef::new(Ref::new(1))).is_err());
    assert_eq!(scope.new_var(&mut refs, "y", Value::Unit), Ref::new(3));
}

#[test]
fn variable_accessors() {
    let mut var = Variable::new("v".to_string(), Ref::new(3), Value::Int(4));
    assert_eq!(var.value(), Value::Int(4));
    assert_eq!(*var.value_ref(), Value::Int(4));
    assert_eq!(var.ty_name(), "int");
    assert!(var.ref_eq(&Ref::new(3)));
    assert!(!var.ref_eq(&Ref::new(4)));
    assert!(var.name_eq(&"v".to_string()));
    assert!(!var.name_eq(&"w".to_string()));
    var.update(Value::Str(Shared::new("s".to_string())));
    assert_eq!(var.ty_name(), "str");
    assert_eq!(
        var.into_inner(),
        (Ref::new(3), Value::Str(Shared::new("s".to_string())))
    );
}
