use rush_interpreter::ast::Float;
use rush_interpreter::binder::{extract_all, label_arg, ExtractFn, HostFn};
use rush_interpreter::error::{RuntimeError, RuntimeResult};
use rush_interpreter::func::{ExternalFn, VariadicFn};
use rush_interpreter::refs::{FnRef, Ref};
use rush_interpreter::shared::Shared;
use rush_interpreter::value::Value;

fn arity_error(name: &str, expected: usize, found: usize) -> RuntimeError {
    RuntimeError::ArgumentError { ident: name.to_string(), expected, found }
}

fn type_error(ident: &str, expected: &str, found: &str) -> RuntimeError {
    RuntimeError::TypeError {
        ident: ident.to_string(),
        expected: expected.to_string(),
        found: found.to_string(),
    }
}

fn text(s: &str) -> Value {
    Value::Str(Shared::new(s.to_string()))
}

#[test]
fn argument_labels_name_function_and_index() {
    assert_eq!(label_arg("add", 0), "ExternalFn(add) Arg#0");
    assert_eq!(label_arg("add", 1), "ExternalFn(add) Arg#1");
    assert_eq!(label_arg("many", 15), "ExternalFn(many) Arg#15");
}

#[test]
fn nullary_function_takes_no_argument() {
    let f = || -> RuntimeResult<Value> { Ok(Value::Int(7)) };
    assert_eq!(f.apply("seven", vec![]), Ok(Value::Int(7)));
    assert_eq!(f.apply("seven", vec![Value::Unit]), Err(arity_error("seven", 0, 1)));
}

#[test]
fn binary_function_checks_count_then_types_in_order() {
    let add = |a: i64, b: i64| -> RuntimeResult<Value> { Ok(Value::Int(a + b)) };
    assert_eq!(add.apply("add", vec![Value::Int(10), Value::Int(32)]), Ok(Value::Int(42)));
    assert_eq!(add.apply("add", vec![]), Err(arity_error("add", 2, 0)));
    assert_eq!(
        add.apply("add", vec![Value::Int(1), Value::Int(2), Value::Int(3)]),
        Err(arity_error("add", 2, 3))
    );
    assert_eq!(
        add.apply("add", vec![Value::Int(10), text("hi")]),
        Err(type_error("ExternalFn(add) Arg#1", "int", "str"))
    );
    assert_eq!(
        add.apply("add", vec![Value::Bool(true), text("hi")]),
        Err(type_error("ExternalFn(add) Arg#0", "int", "bool"))
    );
}

#[test]
fn arguments_arrive_in_order_with_their_types() {
    let f = |a: i64, b: bool, c: Shared<String>, d: Float, e: FnRef| -> RuntimeResult<Value> {
        Ok(Value::Str(Shared::new(format!(
            "{} {} {} {} {}",
            a,
            b,
            c.as_str(),
            d.0,
            e.to_text()
        ))))
    };
    let args = vec![
        Value::Int(1),
        Value::Bool(true),
        text("three"),
        Value::Float(Float(4)),
        Value::Fn(FnRef::new(Ref::new(5))),
    ];
    assert_eq!(f.apply("f", args), Ok(text("1 true three 4 FnRef(Ref(5))")));
    let wrong = vec![
        Value::Int(1),
        Value::Bool(true),
        text("three"),
        Value::Int(4),
        Value::Unit,
    ];
    assert_eq!(
        f.apply("f", wrong),
        Err(type_error("ExternalFn(f) Arg#3", "float", "int"))
    );
}

#[test]
fn sixteen_parameters_are_supported() {
    let sum = |a: i64,
               b: i64,
               c: i64,
               d: i64,
               e: i64,
               f: i64,
               g: i64,
               h: i64,
               i: i64,
               j: i64,
               k: i64,
               l: i64,
               m: i64,
               n: i64,
               o: i64,
               p: i64|
     -> RuntimeResult<Value> {
        Ok(Value::Int(
            a + 2 * b + 3 * c + 4 * d + 5 * e + 6 * f + 7 * g + 8 * h + 9 * i + 10 * j + 11 * k
                + 12 * l + 13 * m + 14 * n + 15 * o + 16 * p,
        ))
    };
    let args: Vec<Value> = (1..=16).map(Value::Int).collect();
    let expected: i64 = (1..=16).map(|x| x * x).sum();
    assert_eq!(sum.apply("sum", args), Ok(Value::Int(expected)));
    let mut wrong: Vec<Value> = (1..=16).map(Value::Int).collect();
    wrong[15] = Value::Unit;
    assert_eq!(
        sum.apply("sum", wrong),
        Err(type_error("ExternalFn(sum) Arg#15", "int", "unit"))
    );
    let short: Vec<Value> = (1..=15).map(Value::Int).collect();
    assert_eq!(sum.apply("sum", short), Err(arity_error("sum", 16, 15)));
}

#[test]
fn extract_fn_is_a_host_function() {
    let mut hook = ExtractFn::new(|a: i64| -> RuntimeResult<Value> { Ok(Value::Int(-a)) });
    assert_eq!(hook.call("neg", vec![Value::Int(3)]), Ok(Value::Int(-3)));
    assert_eq!(hook.call("neg", vec![]), Err(arity_error("neg", 1, 0)));
    assert_eq!(
        hook.call("neg", vec![Value::Unit]),
        Err(type_error("ExternalFn(neg) Arg#0", "int", "unit"))
    );
}

#[test]
fn variadic_function_gets_the_arguments_unchecked() {
    let mut hook = VariadicFn::new(|args: Vec<Value>| Ok(Value::Int(args.len() as i64)));
    assert_eq!(hook.call("count", vec![]), Ok(Value::Int(0)));
    assert_eq!(
        hook.call("count", vec![Value::Unit, text("x"), Value::Bool(true)]),
        Ok(Value::Int(3))
    );
}

#[test]
fn parameter_lists_are_taken_out_in_order() {
    let args = vec![Value::Int(1), Value::Bool(true), text("x")];
    let taken: RuntimeResult<(i64, (bool, (Shared<String>, ())))> = extract_all("f", args);
    assert_eq!(taken, Ok((1, (true, (Shared::new("x".to_string()), ())))));
    let args = vec![Value::Int(1), Value::Unit, Value::Unit];
    let taken: RuntimeResult<(i64, (bool, (Shared<String>, ())))> = extract_all("f", args);
    assert_eq!(taken, Err(type_error("ExternalFn(f) Arg#1", "bool", "unit")));
    let none: RuntimeResult<()> = extract_all("f", vec![]);
    assert_eq!(none, Ok(()));
}

#[test]
fn twenty_four_parameters_are_supported() {
    let last = |_a: i64,
                _b: i64,
                _c: i64,
                _d: i64,
                _e: i64,
                _f: i64,
                _g: i64,
                _h: i64,
                _i: i64,
                _j: i64,
                _k: i64,
                _l: i64,
                _m: i64,
                _n: i64,
                _o: i64,
                _p: i64,
                _q: i64,
                _r: i64,
                _s: i64,
                _t: i64,
                _u: i64,
                _v: i64,
                w: bool,
                x: i64|
     -> RuntimeResult<Value> { Ok(Value::Int(if w { x } else { -x })) };
    let mut args: Vec<Value> = (1..=24).map(Value::Int).collect();
    args[22] = Value::Bool(false);
    assert_eq!(last.apply("last", args), Ok(Value::Int(-24)));
    let wrong: Vec<Value> = (1..=24).map(Value::Int).collect();
    assert_eq!(
        last.apply("last", wrong),
        Err(type_error("ExternalFn(last) Arg#22", "bool", "int"))
    );
    let long: Vec<Value> = (1..=25).map(Value::Int).collect();
    assert_eq!(last.apply("last", long), Err(arity_error("last", 24, 25)));
}

#[test]
fn five_parameters_are_taken_out_as_a_group_of_four_and_one() {
    let args: Vec<Value> = (1..=5).map(Value::Int).collect();
    let taken: RuntimeResult<(i64, i64, i64, i64, (i64, ()))> = extract_all("f", args);
    assert_eq!(taken, Ok((1, 2, 3, 4, (5, ()))));
    let mut args: Vec<Value> = (1..=5).map(Value::Int).collect();
    args[2] = Value::Unit;
    args[4] = Value::Unit;
    let taken: RuntimeResult<(i64, i64, i64, i64, (i64, ()))> = extract_all("f", args);
    assert_eq!(taken, Err(type_error("ExternalFn(f) Arg#2", "int", "unit")));
}
