use rush_interpreter::ast::{BinOpKind, Block, Float, FnDef, Ident, Literal, LiteralKind, Span};
use rush_interpreter::error::{CommandError, Error, RuntimeError};
use rush_interpreter::ops::{apply_int_op, apply_un_op, label, plan_bin_op, Plan};
use rush_interpreter::refs::{FnRef, Ref};
use rush_interpreter::shared::{IntoShared, Locked, Shared, ToResult};
use rush_interpreter::text::decimal;
use rush_interpreter::value::{FromValue, SharedValue, Value, Variant};
use rush_interpreter::ast::UnOpKind;

fn text(s: &str) -> Value {
    Value::Str(Shared::new(s.to_string()))
}

fn samples() -> Vec<(Value, &'static str)> {
    vec![
        (Value::Int(1), "int"),
        (Value::Float(Float(1.5f64.to_bits())), "float"),
        (Value::Bool(true), "bool"),
        (text("s"), "str"),
        (Value::Fn(FnRef::new(Ref::new(1))), "fn"),
        (Value::Unit, "unit"),
    ]
}

#[test]
fn canonical_type_names() {
    for (value, name) in samples() {
        assert_eq!(value.ty_name(), name);
    }
    assert_eq!(<i64 as Variant>::ty_name(), "int");
    assert_eq!(<Float as Variant>::ty_name(), "float");
    assert_eq!(<bool as Variant>::ty_name(), "bool");
    assert_eq!(<Shared<String> as Variant>::ty_name(), "str");
    assert_eq!(<FnRef as Variant>::ty_name(), "fn");
    assert_eq!(<() as Variant>::ty_name(), "unit");
}

#[test]
fn type_equality_compares_tags() {
    let all = samples();
    for (i, (a, name)) in all.iter().enumerate() {
        for (j, (b, _)) in all.iter().enumerate() {
            assert_eq!(a.ty_eq(b), i == j);
            assert_eq!(a.ty_eq_name(b), if i == j { Some(*name) } else { None });
        }
    }
    assert!(Value::Int(1).ty_eq(&Value::Int(2)));
}

#[test]
fn cast_takes_the_payload_or_hands_the_value_back() {
    assert_eq!(Value::Int(5).cast::<i64>(), Ok(5));
    assert_eq!(Value::Int(5).cast::<bool>(), Err(Value::Int(5)));
    assert_eq!(Value::Bool(true).cast::<bool>(), Ok(true));
    assert_eq!(Value::Unit.cast::<()>(), Ok(()));
    assert_eq!(text("a").cast::<Shared<String>>(), Ok(Shared::new("a".to_string())));
    assert_eq!(text("a").cast::<i64>(), Err(text("a")));
    assert_eq!(
        Value::Fn(FnRef::new(Ref::new(2))).cast::<FnRef>(),
        Ok(FnRef::new(Ref::new(2)))
    );
    assert_eq!(
        Value::Float(Float(7)).cast::<Float>(),
        Ok(Float(7))
    );
    assert_eq!(Value::Int(5).cast_ref::<i64>(), Ok(&5));
    assert_eq!(Value::Int(5).cast_ref::<()>(), Err(&Value::Int(5)));
}

#[test]
fn runtime_cast_reports_a_type_error() {
    assert_eq!(Value::Bool(true).rt_cast::<bool>("<if_cond>"), Ok(true));
    assert_eq!(
        Value::Int(1).rt_cast::<bool>("<if_cond>"),
        Err(RuntimeError::TypeError {
            ident: "<if_cond>".to_string(),
            expected: "bool".to_string(),
            found: "int".to_string(),
        })
    );
    assert_eq!(
        text("x").rt_cast_ref::<i64>("<neg>").err(),
        Some(RuntimeError::TypeError {
            ident: "<neg>".to_string(),
            expected: "int".to_string(),
            found: "str".to_string(),
        })
    );
    assert_eq!(Value::Int(3).rt_cast_ref::<i64>("<neg>"), Ok(&3));
    assert_eq!(
        <i64 as FromValue>::from_value("arg", Value::Unit),
        Err(RuntimeError::TypeError {
            ident: "arg".to_string(),
            expected: "int".to_string(),
            found: "unit".to_string(),
        })
    );
    assert_eq!(<bool as FromValue>::from_value("arg", Value::Bool(false)), Ok(false));
}

#[test]
fn values_from_variants_and_literals() {
    assert_eq!(Value::new(5i64), Value::Int(5));
    assert_eq!(Value::new(true), Value::Bool(true));
    assert_eq!(Value::new(()), Value::Unit);
    assert_eq!(Value::new(Shared::new("t".to_string())), text("t"));
    assert_eq!(Value::from(3i64), Value::Int(3));
    assert_eq!(Value::from(false), Value::Bool(false));
    let span = Span::new(1, 2);
    let lit = |kind| Literal { kind, span };
    assert_eq!(Value::from(&lit(LiteralKind::Number(233))), Value::Int(233));
    assert_eq!(Value::from_literal(&lit(LiteralKind::Bool(true))), Value::Bool(true));
    assert_eq!(
        Value::from_literal(&lit(LiteralKind::String("mian".to_string()))),
        text("mian")
    );
    assert_eq!(
        Value::from_literal(&lit(LiteralKind::Float(Float(114.514f64.to_bits())))),
        Value::Float(Float(114.514f64.to_bits()))
    );
}

#[test]
fn clone_shares_text() {
    let first = text("shared");
    let copy = first.clone();
    assert_eq!(first, copy);
    match (&first, &copy) {
        (Value::Str(a), Value::Str(b)) => assert!(std::rc::Rc::ptr_eq(&a.0, &b.0)),
        _ => panic!("both are text"),
    }
}

#[test]
fn runtime_error_messages() {
    assert_eq!(
        RuntimeError::IdentNotFound("x".to_string()).message(),
        "Identifier `x` not found"
    );
    assert_eq!(
        RuntimeError::type_error("<neg>", "int", "bool").message(),
        "Type of `<neg>` mismatched: expect `int`, found `bool`"
    );
    assert_eq!(
        RuntimeError::ArgumentError { ident: "add".to_string(), expected: 2, found: 10 }.message(),
        "Expected 2 arguments to call `add`, found 10"
    );
    assert_eq!(
        RuntimeError::NullRefError(Ref::new(12)).message(),
        "Ref not found: `Ref(12)`"
    );
    assert_eq!(
        RuntimeError::MaxRecursionExceeded.message(),
        "Max recursion depth exceeded"
    );
    assert_eq!(RuntimeError::DivisionByZero.message(), "Division by zero");
    assert_eq!(
        RuntimeError::IterationLimitExceeded.message(),
        "Loop iteration limit exceeded"
    );
    assert_eq!(
        RuntimeError::Unsupported("for loop".to_string()).message(),
        "Unsupported construct: for loop"
    );
}

#[test]
fn other_error_messages() {
    assert_eq!(
        CommandError::Command("not found".to_string()).message(),
        "Command execution error: not found"
    );
    assert_eq!(CommandError::CodingError.message(), "Command output is not UTF-8");
    assert_eq!(
        Error::from(RuntimeError::DivisionByZero),
        Error::Runtime(RuntimeError::DivisionByZero)
    );
    assert_eq!(
        Error::from(CommandError::CodingError),
        Error::Command(CommandError::CodingError)
    );
    assert_eq!(
        Error::Runtime(RuntimeError::DivisionByZero).message(),
        "Division by zero"
    );
    assert_eq!(
        Error::Command(CommandError::CodingError).message(),
        "Command output is not UTF-8"
    );
    assert_eq!(Error::Parse("expected item".to_string()).message(), "expected item");
}

#[test]
fn decimal_text_of_numbers() {
    assert_eq!(decimal(0), "0");
    assert_eq!(decimal(7), "7");
    assert_eq!(decimal(10), "10");
    assert_eq!(decimal(16384), "16384");
    assert_eq!(decimal(usize::MAX), usize::MAX.to_string());
}

#[test]
fn operator_symbols_and_labels() {
    let symbols = [
        (BinOpKind::Add, "+"),
        (BinOpKind::Sub, "-"),
        (BinOpKind::Mul, "*"),
        (BinOpKind::Div, "/"),
        (BinOpKind::Eq, "=="),
        (BinOpKind::Neq, "!="),
        (BinOpKind::Lt, "<"),
        (BinOpKind::Le, "<="),
        (BinOpKind::Gt, ">"),
        (BinOpKind::Ge, ">="),
        (BinOpKind::And, "&&"),
        (BinOpKind::Or, "||"),
    ];
    for (kind, symbol) in symbols {
        assert_eq!(kind.as_str(), symbol);
        assert_eq!(label("right", kind), format!("<right of ({})>", symbol));
        assert_eq!(label("left", kind), format!("<left of ({})>", symbol));
    }
}

#[test]
fn operators_on_values() {
    assert_eq!(apply_int_op(BinOpKind::Add, 2, 3), Ok(Value::Int(5)));
    assert_eq!(apply_int_op(BinOpKind::Div, 9, 0), Err(RuntimeError::DivisionByZero));
    assert_eq!(apply_int_op(BinOpKind::Ge, 3, 3), Ok(Value::Bool(true)));
    assert_eq!(apply_un_op(UnOpKind::Neg, Value::Int(2)), Ok(Value::Int(-2)));
    assert_eq!(apply_un_op(UnOpKind::Not, Value::Bool(false)), Ok(Value::Bool(true)));
    let one = Float(1.0f64.to_bits());
    let two = Float(2.0f64.to_bits());
    assert!(matches!(
        plan_bin_op(BinOpKind::Mul, Value::Float(one), Value::Float(two)),
        Plan::Arith { kind: BinOpKind::Mul, left, right } if left == one && right == two
    ));
    assert!(matches!(
        plan_bin_op(BinOpKind::Le, Value::Float(one), Value::Float(two)),
        Plan::Compare { kind: BinOpKind::Le, left, right } if left == one && right == two
    ));
    assert!(matches!(
        plan_bin_op(BinOpKind::Eq, Value::Float(one), Value::Float(one)),
        Plan::Compare { kind: BinOpKind::Eq, .. }
    ));
    assert!(matches!(
        plan_bin_op(BinOpKind::Eq, Value::Fn(FnRef::new(Ref::new(1))), Value::Fn(FnRef::new(Ref::new(1)))),
        Plan::Done(Ok(Value::Bool(true)))
    ));
    assert!(matches!(
        plan_bin_op(BinOpKind::Sub, Value::Int(5), Value::Int(7)),
        Plan::Done(Ok(Value::Int(-2)))
    ));
}

#[test]
fn shared_handles_share() {
    let a = Shared::new(5);
    let b = a.clone();
    assert_eq!(*a, 5);
    assert_eq!(*b, 5);
    assert!(std::rc::Rc::ptr_eq(&a.0, &b.0));
    assert_eq!(*Shared::from("x".to_string()), "x");
    assert_eq!(*7u8.shared(), 7);
    assert_eq!(5u8.ok::<()>(), Ok(5));
    assert_eq!(5u8.err::<()>(), Err(5));
}

#[test]
fn locked_values_can_be_replaced_through_shared_borrows() {
    let lock = Locked::new(1u32);
    assert_eq!(lock.get_with(|v: &u32| *v + 1), 2);
    lock.update(|v: u32| v + 10);
    assert_eq!(lock.get_with(|v: &u32| *v), 11);
    let handle = lock.get();
    assert_eq!(*handle.borrow(), 11);
    handle.release_read();
    let (value, handle) = lock.get_mut();
    handle.release_write(value * 2);
    assert_eq!(lock.get_with(|v: &u32| *v), 22);
}

#[test]
fn shared_values_are_seen_through_every_handle() {
    let first = Value::Int(1).share();
    let second = first.clone();
    let (old, handle) = first.get_mut();
    assert_eq!(old, Value::Int(1));
    handle.release_write(Value::Bool(true));
    let handle = second.get();
    assert_eq!(*handle.borrow(), Value::Bool(true));
    handle.release_read();
    let fourth = Value::new_shared(5i64);
    let handle = fourth.get();
    assert_eq!(*handle.borrow(), Value::Int(5));
    handle.release_read();
    let third = SharedValue::new_shared(Value::Unit);
    let handle = third.get();
    assert_eq!(*handle.borrow(), Value::Unit);
    handle.release_read();
}

#[test]
fn diagnostic_texts_of_syntax() {
    let span = Span::new(0, 0);
    let ident = |name: &str| Ident { name: name.to_string(), span };
    assert_eq!(ident("a").to_text(), "Ident(a)");
    let def = |params: &[&str]| FnDef {
        span,
        ident: ident("test"),
        params: params.iter().map(|p| ident(p)).collect(),
        body: Block { span, items: Vec::new() },
    };
    assert_eq!(def(&[]).to_text(), "fn Ident(test)()");
    assert_eq!(def(&["a"]).to_text(), "fn Ident(test)(Ident(a))");
    assert_eq!(def(&["a", "b"]).to_text(), "fn Ident(test)(Ident(a), Ident(b))");
    assert_eq!(Ref::new(1) + 2, Ref::new(3));
    assert_eq!(Ref::new(1) + Ref::new(4), Ref::new(5));
    assert_eq!(Ref::from(9), Ref::new(9));
    assert_eq!(FnRef::from(Ref::new(9)), FnRef::new(Ref::new(9)));
    assert_eq!(*FnRef::new(Ref::new(9)), Ref::new(9));
}

#[test]
fn display_forms_of_values() {
    assert_eq!(Value::Int(0).to_text(), Some("0".to_string()));
    assert_eq!(Value::Int(42).to_text(), Some("42".to_string()));
    assert_eq!(Value::Int(-7).to_text(), Some("-7".to_string()));
    assert_eq!(Value::Int(i64::MAX).to_text(), Some(i64::MAX.to_string()));
    assert_eq!(Value::Int(i64::MIN).to_text(), Some(i64::MIN.to_string()));
    assert_eq!(Value::Bool(true).to_text(), Some("true".to_string()));
    assert_eq!(Value::Bool(false).to_text(), Some("false".to_string()));
    assert_eq!(text("a b").to_text(), Some("a b".to_string()));
    assert_eq!(
        Value::Fn(FnRef::new(Ref::new(3))).to_text(),
        Some("FnRef(Ref(3))".to_string())
    );
    assert_eq!(Value::Unit.to_text(), Some("()".to_string()));
    assert_eq!(Value::Float(Float(1.5f64.to_bits())).to_text(), None);
}
