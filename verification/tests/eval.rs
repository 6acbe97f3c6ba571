use std::cell::RefCell;
use std::rc::Rc;

use rush_interpreter::ast::{
    Assign, BinOpExpr, BinOpKind, Block, Exec, Expr, ExprKind, Float, FnCall, FnDef, For, Ident,
    If, Item, ItemKind, Literal, LiteralKind, Span, Stmt, Tree, UnOpExpr, UnOpKind, While,
};
use rush_interpreter::context::Context;
use rush_interpreter::engine::Engine;
use rush_interpreter::error::{CommandError, CommandResult, Error, RuntimeError, RuntimeResult};
use rush_interpreter::func::VariadicFn;
use rush_interpreter::refs::{FnRef, Ref};
use rush_interpreter::shared::Shared;
use rush_interpreter::trace::Platform;
use rush_interpreter::value::Value;

struct Host {
    commands: Vec<String>,
}

fn host() -> Host {
    Host { commands: Vec::new() }
}

impl Platform for Host {
    fn run_command(&mut self, command: &str) -> CommandResult<String> {
        self.commands.push(command.to_string());
        if command == "missing" {
            Err(CommandError::Command("No such file or directory".to_string()))
        } else {
            Ok(format!("ran {}", command))
        }
    }

    fn float_arith(&mut self, kind: BinOpKind, left: Float, right: Float) -> Float {
        let (l, r) = (f64::from_bits(left.0), f64::from_bits(right.0));
        let out = match kind {
            BinOpKind::Add => l + r,
            BinOpKind::Sub => l - r,
            BinOpKind::Mul => l * r,
            _ => l / r,
        };
        Float(out.to_bits())
    }

    fn float_compare(&mut self, kind: BinOpKind, left: Float, right: Float) -> bool {
        let (l, r) = (f64::from_bits(left.0), f64::from_bits(right.0));
        match kind {
            BinOpKind::Eq => l == r,
            BinOpKind::Neq => l != r,
            BinOpKind::Lt => l < r,
            BinOpKind::Le => l <= r,
            BinOpKind::Gt => l > r,
            _ => l >= r,
        }
    }
}

fn sp() -> Span {
    Span::new(0, 0)
}

fn id(name: &str) -> Ident {
    Ident { name: name.to_string(), span: sp() }
}

fn expr(kind: ExprKind) -> Expr {
    Expr { kind, span: sp() }
}

fn lit(kind: LiteralKind) -> Expr {
    expr(ExprKind::Literal(Literal { kind, span: sp() }))
}

fn num(n: i64) -> Expr {
    lit(LiteralKind::Number(n))
}

fn flt(x: f64) -> Expr {
    lit(LiteralKind::Float(Float(x.to_bits())))
}

fn truth(b: bool) -> Expr {
    lit(LiteralKind::Bool(b))
}

fn text(s: &str) -> Expr {
    lit(LiteralKind::String(s.to_string()))
}

fn var(name: &str) -> Expr {
    expr(ExprKind::Ident(id(name)))
}

fn bin(left: Expr, kind: BinOpKind, right: Expr) -> Expr {
    expr(ExprKind::BinOp(BinOpExpr {
        left: Box::new(left),
        right: Box::new(right),
        kind,
        span: sp(),
    }))
}

fn un(kind: UnOpKind, inner: Expr) -> Expr {
    expr(ExprKind::UnOp(UnOpExpr { expr: Box::new(inner), kind, span: sp() }))
}

fn call(name: &str, args: Vec<Expr>) -> Expr {
    expr(ExprKind::FnCall(FnCall { ident: id(name), args, span: sp() }))
}

fn block(items: Vec<Item>) -> Block {
    Block { span: sp(), items }
}

fn item(kind: ItemKind) -> Item {
    Item { span: sp(), kind }
}

fn let_(name: &str, value: Expr) -> Item {
    item(ItemKind::Stmt(Stmt { span: sp(), ident: id(name), expr: value }))
}

fn set(name: &str, value: Expr) -> Item {
    item(ItemKind::Assign(Assign { span: sp(), ident: id(name), expr: value }))
}

fn run(e: Expr) -> Item {
    item(ItemKind::Expr(e))
}

fn if_(cond: Expr, then_block: Vec<Item>, else_block: Option<Vec<Item>>) -> Item {
    item(ItemKind::If(If {
        span: sp(),
        cond,
        then_block: block(then_block),
        else_block: else_block.map(block),
    }))
}

fn while_(cond: Expr, body: Vec<Item>) -> Item {
    item(ItemKind::While(While { span: sp(), expr: cond, block: block(body) }))
}

fn def(name: &str, params: &[&str], body: Vec<Item>) -> Item {
    item(ItemKind::FnDef(FnDef {
        span: sp(),
        ident: id(name),
        params: params.iter().map(|p| id(p)).collect(),
        body: block(body),
    }))
}

fn tree(items: Vec<Item>) -> Tree {
    Tree { span: sp(), items }
}

fn show(v: &Value) -> String {
    match v {
        Value::Int(n) => format!("{}", n),
        Value::Float(f) => format!("{}", f64::from_bits(f.0)),
        Value::Bool(b) => format!("{}", b),
        Value::Str(s) => s.to_string(),
        Value::Fn(r) => r.to_text(),
        Value::Unit => "()".to_string(),
    }
}

type Printed = Rc<RefCell<Vec<String>>>;

fn printer(out: &Printed) -> VariadicFn<impl Fn(Vec<Value>) -> RuntimeResult<Value>> {
    let out = out.clone();
    VariadicFn::new(move |args: Vec<Value>| {
        let line: Vec<String> = args.iter().map(show).collect();
        out.borrow_mut().push(line.join(" "));
        Ok(Value::Unit)
    })
}

fn engine(out: &Printed) -> Engine {
    Engine::new()
        .with_fn_raw("print", printer(out))
        .with_fn("add", |a: i64, b: i64| Ok(Value::Int(a + b)))
}

fn type_error(ident: &str, expected: &str, found: &str) -> Error {
    Error::Runtime(RuntimeError::TypeError {
        ident: ident.to_string(),
        expected: expected.to_string(),
        found: found.to_string(),
    })
}

fn value_of(ctx: &Context<Host>, name: &str) -> Value {
    ctx.search(name).unwrap().value()
}

#[test]
fn integer_sum_is_printed() {
    let out = Printed::default();
    let program = tree(vec![
        let_("a", num(3)),
        let_("b", num(4)),
        run(call("print", vec![bin(var("a"), BinOpKind::Add, var("b"))])),
    ]);
    assert_eq!(engine(&out).execute(program, host()), Ok(()));
    assert_eq!(*out.borrow(), vec!["7".to_string()]);
}

#[test]
fn int_plus_float_is_a_type_error() {
    let out = Printed::default();
    let program = tree(vec![
        let_("a", num(1)),
        let_("b", flt(2.0)),
        run(call("print", vec![bin(var("a"), BinOpKind::Add, var("b"))])),
    ]);
    assert_eq!(
        engine(&out).execute(program, host()),
        Err(type_error("<right of (+)>", "int", "float"))
    );
    assert!(out.borrow().is_empty());
}

fn countdown(from: i64) -> Tree {
    tree(vec![
        def(
            "rec",
            &["n"],
            vec![if_(
                bin(var("n"), BinOpKind::Eq, num(0)),
                vec![],
                Some(vec![run(call("rec", vec![bin(var("n"), BinOpKind::Sub, num(1))]))]),
            )],
        ),
        run(call("rec", vec![num(from)])),
    ])
}

#[test]
fn recursive_countdown_succeeds() {
    let out = Printed::default();
    assert_eq!(engine(&out).execute(countdown(5), host()), Ok(()));
}

#[test]
fn recursion_beyond_the_depth_limit_fails() {
    let mut ctx = Context::new(host());
    for _ in 0..16380 {
        assert_eq!(ctx.enter_scope("block"), Ok(()));
    }
    assert_eq!(ctx.depth(), 16380);
    assert_eq!(
        ctx.run(countdown(5)),
        Err(Error::Runtime(RuntimeError::MaxRecursionExceeded))
    );
}

#[test]
fn scope_stack_stops_at_the_depth_limit() {
    let mut ctx = Context::new(host());
    for _ in 0..16383 {
        assert_eq!(ctx.enter_scope("block"), Ok(()));
    }
    assert_eq!(ctx.depth(), 16383);
    assert_eq!(ctx.enter_scope("block"), Err(RuntimeError::MaxRecursionExceeded));
    assert_eq!(ctx.depth(), 16383);
}

#[test]
fn block_bindings_end_with_the_block() {
    let out = Printed::default();
    let program = tree(vec![
        let_("a", num(1)),
        run(expr(ExprKind::Block(block(vec![
            let_("a", num(2)),
            run(call("print", vec![var("a")])),
        ])))),
        run(call("print", vec![var("a")])),
    ]);
    assert_eq!(engine(&out).execute(program, host()), Ok(()));
    assert_eq!(*out.borrow(), vec!["2".to_string(), "1".to_string()]);
}

#[test]
fn typed_host_function_gets_its_arguments() {
    let out = Printed::default();
    let program = tree(vec![run(call("print", vec![call("add", vec![num(10), num(32)])]))]);
    assert_eq!(engine(&out).execute(program, host()), Ok(()));
    assert_eq!(*out.borrow(), vec!["42".to_string()]);
}

#[test]
fn typed_host_function_rejects_a_wrong_type() {
    let out = Printed::default();
    let program = tree(vec![run(call("print", vec![call("add", vec![num(10), text("hi")])]))]);
    assert_eq!(
        engine(&out).execute(program, host()),
        Err(type_error("ExternalFn(add) Arg#1", "int", "str"))
    );
}

#[test]
fn typed_host_function_rejects_a_wrong_count() {
    let out = Printed::default();
    let program = tree(vec![run(call("add", vec![num(10)]))]);
    assert_eq!(
        engine(&out).execute(program, host()),
        Err(Error::Runtime(RuntimeError::ArgumentError {
            ident: "add".to_string(),
            expected: 2,
            found: 1,
        }))
    );
}

#[test]
fn while_condition_must_be_a_truth_value() {
    let out = Printed::default();
    let program = tree(vec![while_(num(1), vec![])]);
    assert_eq!(
        engine(&out).execute(program, host()),
        Err(type_error("<while_cond>", "bool", "int"))
    );
}

#[test]
fn if_condition_must_be_a_truth_value() {
    let mut ctx = Context::new(host());
    assert_eq!(
        ctx.eval_item(&if_(text("yes"), vec![], None)),
        Err(type_error("<if_cond>", "bool", "str"))
    );
}

#[test]
fn if_without_else_yields_unit_on_false() {
    let mut ctx = Context::new(host());
    let it = if_(truth(false), vec![let_("x", num(1))], None);
    assert_eq!(ctx.eval_item(&it), Ok(Value::Unit));
    assert_eq!(ctx.depth(), 0);
}

#[test]
fn if_takes_the_branch_of_its_condition() {
    let mut ctx = Context::new(host());
    ctx.bind("x", Value::Int(0));
    let pick = |c: bool| {
        if_(c.then_some(truth(true)).unwrap_or(truth(false)), vec![set("x", num(1))], Some(vec![set("x", num(2))]))
    };
    assert_eq!(ctx.eval_item(&pick(true)), Ok(Value::Unit));
    assert_eq!(value_of(&ctx, "x"), Value::Int(1));
    assert_eq!(ctx.eval_item(&pick(false)), Ok(Value::Unit));
    assert_eq!(value_of(&ctx, "x"), Value::Int(2));
}

#[test]
fn while_loop_counts_down() {
    let mut ctx = Context::new(host());
    let program = tree(vec![
        let_("n", num(10)),
        let_("sum", num(0)),
        while_(
            bin(var("n"), BinOpKind::Gt, num(0)),
            vec![
                set("sum", bin(var("sum"), BinOpKind::Add, var("n"))),
                set("n", bin(var("n"), BinOpKind::Sub, num(1))),
            ],
        ),
    ]);
    assert_eq!(ctx.run(program), Ok(Value::Unit));
    assert_eq!(value_of(&ctx, "sum"), Value::Int(55));
    assert_eq!(value_of(&ctx, "n"), Value::Int(0));
    assert_eq!(ctx.depth(), 0);
}

#[test]
fn loop_that_exceeds_its_limit_fails() {
    let mut ctx = Context::with_loop_limit(host(), 3);
    let program = tree(vec![
        let_("n", num(0)),
        while_(truth(true), vec![set("n", bin(var("n"), BinOpKind::Add, num(1)))]),
    ]);
    assert_eq!(
        ctx.run(program),
        Err(Error::Runtime(RuntimeError::IterationLimitExceeded))
    );
    assert_eq!(value_of(&ctx, "n"), Value::Int(3));
}

#[test]
fn loop_within_its_limit_succeeds() {
    let mut ctx = Context::with_loop_limit(host(), 3);
    let program = tree(vec![
        let_("n", num(0)),
        while_(
            bin(var("n"), BinOpKind::Lt, num(3)),
            vec![set("n", bin(var("n"), BinOpKind::Add, num(1)))],
        ),
    ]);
    assert_eq!(ctx.run(program), Ok(Value::Unit));
    assert_eq!(value_of(&ctx, "n"), Value::Int(3));
}

#[test]
fn for_loops_are_rejected() {
    let mut ctx = Context::new(host());
    let it = item(ItemKind::For(For {
        span: sp(),
        ident: id("i"),
        expr: num(3),
        block: block(vec![]),
    }));
    assert_eq!(
        ctx.eval_item(&it),
        Err(Error::Runtime(RuntimeError::Unsupported("for loop".to_string())))
    );
}

#[test]
fn literals_evaluate_to_values_of_their_kind() {
    let mut ctx = Context::new(host());
    let cases = vec![
        (num(-5), Value::Int(-5), "int"),
        (flt(114.514), Value::Float(Float(114.514f64.to_bits())), "float"),
        (truth(true), Value::Bool(true), "bool"),
        (text("mian"), Value::Str(Shared::new("mian".to_string())), "str"),
    ];
    for (e, expected, name) in cases {
        let v = ctx.eval_expr(&e).unwrap();
        assert_eq!(v, expected);
        assert_eq!(v.ty_name(), name);
    }
    assert_eq!(ctx.eval_expr(&expr(ExprKind::Unit)), Ok(Value::Unit));
}

#[test]
fn let_then_read_gives_the_literal_back() {
    let mut ctx = Context::new(host());
    assert_eq!(ctx.eval_item(&let_("x", text("hello"))), Ok(Value::Unit));
    assert_eq!(
        ctx.eval_expr(&var("x")),
        Ok(Value::Str(Shared::new("hello".to_string())))
    );
}

#[test]
fn reading_a_variable_twice_gives_equal_values() {
    let mut ctx = Context::new(host());
    ctx.bind("x", Value::Int(9));
    let first = ctx.eval_expr(&var("x")).unwrap();
    let second = ctx.eval_expr(&var("x")).unwrap();
    assert_eq!(first, second);
    assert_eq!(first, Value::Int(9));
}

#[test]
fn assigning_twice_is_assigning_once() {
    let mut ctx = Context::new(host());
    ctx.bind("a", Value::Int(0));
    assert_eq!(ctx.eval_item(&set("a", num(7))), Ok(Value::Unit));
    let once = value_of(&ctx, "a");
    assert_eq!(ctx.eval_item(&set("a", num(7))), Ok(Value::Unit));
    assert_eq!(value_of(&ctx, "a"), once);
    assert_eq!(once, Value::Int(7));
}

#[test]
fn assignment_may_change_the_type() {
    let mut ctx = Context::new(host());
    ctx.bind("a", Value::Int(0));
    assert_eq!(ctx.eval_item(&set("a", text("now text"))), Ok(Value::Unit));
    assert_eq!(value_of(&ctx, "a").ty_name(), "str");
}

#[test]
fn assignment_reaches_the_nearest_enclosing_variable() {
    let mut ctx = Context::new(host());
    let program = tree(vec![
        let_("a", num(1)),
        let_("b", num(1)),
        run(expr(ExprKind::Block(block(vec![
            let_("a", num(2)),
            set("a", num(3)),
            set("b", num(4)),
        ])))),
    ]);
    assert_eq!(ctx.run(program), Ok(Value::Unit));
    assert_eq!(value_of(&ctx, "a"), Value::Int(1));
    assert_eq!(value_of(&ctx, "b"), Value::Int(4));
}

#[test]
fn assigning_an_unknown_name_fails() {
    let mut ctx = Context::new(host());
    assert_eq!(
        ctx.eval_item(&set("ghost", num(1))),
        Err(Error::Runtime(RuntimeError::IdentNotFound("ghost".to_string())))
    );
}

#[test]
fn reading_an_unknown_name_fails() {
    let mut ctx = Context::new(host());
    assert_eq!(
        ctx.eval_expr(&var("nothing")),
        Err(Error::Runtime(RuntimeError::IdentNotFound("nothing".to_string())))
    );
}

#[test]
fn a_later_binding_shadows_an_earlier_one() {
    let mut ctx = Context::new(host());
    let first = ctx.bind("x", Value::Int(1));
    let second = ctx.bind("x", Value::Int(2));
    assert_ne!(first, second);
    assert_eq!(value_of(&ctx, "x"), Value::Int(2));
    assert_eq!(ctx.get(first).unwrap().value(), Value::Int(1));
    assert_eq!(ctx.get(second).unwrap().value(), Value::Int(2));
    assert_eq!(ctx.get(Ref::new(77)).err(), Some(RuntimeError::NullRefError(Ref::new(77))));
}

fn eval(e: Expr) -> Result<Value, Error> {
    Context::new(host()).eval_expr(&e)
}

#[test]
fn integer_arithmetic_wraps_and_truncates() {
    assert_eq!(eval(bin(num(3), BinOpKind::Add, num(4))), Ok(Value::Int(7)));
    assert_eq!(eval(bin(num(3), BinOpKind::Sub, num(4))), Ok(Value::Int(-1)));
    assert_eq!(eval(bin(num(6), BinOpKind::Mul, num(7))), Ok(Value::Int(42)));
    assert_eq!(eval(bin(num(7), BinOpKind::Div, num(2))), Ok(Value::Int(3)));
    assert_eq!(eval(bin(num(-7), BinOpKind::Div, num(2))), Ok(Value::Int(-3)));
    assert_eq!(eval(bin(num(7), BinOpKind::Div, num(-2))), Ok(Value::Int(-3)));
    assert_eq!(eval(bin(num(-7), BinOpKind::Div, num(-2))), Ok(Value::Int(3)));
    assert_eq!(
        eval(bin(num(i64::MAX), BinOpKind::Add, num(1))),
        Ok(Value::Int(i64::MIN))
    );
    assert_eq!(
        eval(bin(num(i64::MIN), BinOpKind::Sub, num(1))),
        Ok(Value::Int(i64::MAX))
    );
    assert_eq!(
        eval(bin(num(i64::MAX), BinOpKind::Mul, num(2))),
        Ok(Value::Int(-2))
    );
    assert_eq!(
        eval(bin(num(i64::MIN), BinOpKind::Div, num(-1))),
        Ok(Value::Int(i64::MIN))
    );
}

#[test]
fn division_by_zero_is_an_error() {
    assert_eq!(
        eval(bin(num(1), BinOpKind::Div, num(0))),
        Err(Error::Runtime(RuntimeError::DivisionByZero))
    );
}

#[test]
fn integers_are_ordered() {
    assert_eq!(eval(bin(num(1), BinOpKind::Lt, num(2))), Ok(Value::Bool(true)));
    assert_eq!(eval(bin(num(2), BinOpKind::Lt, num(2))), Ok(Value::Bool(false)));
    assert_eq!(eval(bin(num(2), BinOpKind::Le, num(2))), Ok(Value::Bool(true)));
    assert_eq!(eval(bin(num(3), BinOpKind::Gt, num(2))), Ok(Value::Bool(true)));
    assert_eq!(eval(bin(num(1), BinOpKind::Ge, num(2))), Ok(Value::Bool(false)));
}

#[test]
fn floats_go_through_the_platform() {
    assert_eq!(
        eval(bin(flt(1.5), BinOpKind::Add, flt(2.25))),
        Ok(Value::Float(Float(3.75f64.to_bits())))
    );
    assert_eq!(
        eval(bin(flt(1.0), BinOpKind::Div, flt(4.0))),
        Ok(Value::Float(Float(0.25f64.to_bits())))
    );
    assert_eq!(eval(bin(flt(1.5), BinOpKind::Lt, flt(2.25))), Ok(Value::Bool(true)));
    assert_eq!(eval(bin(flt(0.0), BinOpKind::Eq, flt(-0.0))), Ok(Value::Bool(true)));
    assert_eq!(
        eval(bin(flt(f64::NAN), BinOpKind::Eq, flt(f64::NAN))),
        Ok(Value::Bool(false))
    );
    assert_eq!(
        eval(bin(flt(f64::NAN), BinOpKind::Neq, flt(f64::NAN))),
        Ok(Value::Bool(true))
    );
}

#[test]
fn equality_compares_payloads_of_one_type() {
    assert_eq!(eval(bin(num(2), BinOpKind::Eq, num(2))), Ok(Value::Bool(true)));
    assert_eq!(eval(bin(num(2), BinOpKind::Neq, num(2))), Ok(Value::Bool(false)));
    assert_eq!(eval(bin(text("a"), BinOpKind::Eq, text("a"))), Ok(Value::Bool(true)));
    assert_eq!(eval(bin(text("a"), BinOpKind::Eq, text("b"))), Ok(Value::Bool(false)));
    assert_eq!(eval(bin(truth(true), BinOpKind::Neq, truth(false))), Ok(Value::Bool(true)));
    assert_eq!(
        eval(bin(expr(ExprKind::Unit), BinOpKind::Eq, expr(ExprKind::Unit))),
        Ok(Value::Bool(true))
    );
}

#[test]
fn equality_across_types_is_a_type_error() {
    assert_eq!(
        eval(bin(num(1), BinOpKind::Eq, text("1"))),
        Err(type_error("<right of (==)>", "int", "str"))
    );
    assert_eq!(
        eval(bin(truth(true), BinOpKind::Neq, num(1))),
        Err(type_error("<right of (!=)>", "bool", "int"))
    );
}

#[test]
fn arithmetic_on_other_types_is_a_type_error() {
    assert_eq!(
        eval(bin(text("a"), BinOpKind::Add, text("b"))),
        Err(type_error("<right of (+)>", "str", "str"))
    );
    assert_eq!(
        eval(bin(truth(true), BinOpKind::Lt, truth(false))),
        Err(type_error("<right of (<)>", "bool", "bool"))
    );
    assert_eq!(
        eval(bin(flt(1.0), BinOpKind::Mul, num(2))),
        Err(type_error("<right of (*)>", "float", "int"))
    );
}

#[test]
fn logic_needs_truth_values_on_both_sides() {
    assert_eq!(eval(bin(truth(true), BinOpKind::And, truth(false))), Ok(Value::Bool(false)));
    assert_eq!(eval(bin(truth(true), BinOpKind::And, truth(true))), Ok(Value::Bool(true)));
    assert_eq!(eval(bin(truth(false), BinOpKind::Or, truth(true))), Ok(Value::Bool(true)));
    assert_eq!(eval(bin(truth(false), BinOpKind::Or, truth(false))), Ok(Value::Bool(false)));
    assert_eq!(
        eval(bin(num(1), BinOpKind::And, truth(true))),
        Err(type_error("<left of (&&)>", "bool", "int"))
    );
    assert_eq!(
        eval(bin(truth(true), BinOpKind::And, num(1))),
        Err(type_error("<right of (&&)>", "bool", "int"))
    );
    assert_eq!(
        eval(bin(text("x"), BinOpKind::Or, truth(true))),
        Err(type_error("<left of (||)>", "bool", "str"))
    );
    assert_eq!(
        eval(bin(truth(true), BinOpKind::Or, num(1))),
        Err(type_error("<right of (||)>", "bool", "int"))
    );
}

#[test]
fn left_operand_is_evaluated_first() {
    assert_eq!(
        eval(bin(var("first"), BinOpKind::Add, var("second"))),
        Err(Error::Runtime(RuntimeError::IdentNotFound("first".to_string())))
    );
    assert_eq!(
        eval(bin(num(1), BinOpKind::Add, var("second"))),
        Err(Error::Runtime(RuntimeError::IdentNotFound("second".to_string())))
    );
}

#[test]
fn unary_operators_check_their_operand() {
    assert_eq!(eval(un(UnOpKind::Neg, num(5))), Ok(Value::Int(-5)));
    assert_eq!(eval(un(UnOpKind::Neg, num(i64::MIN))), Ok(Value::Int(i64::MIN)));
    assert_eq!(eval(un(UnOpKind::Not, truth(true))), Ok(Value::Bool(false)));
    assert_eq!(
        eval(un(UnOpKind::Neg, truth(true))),
        Err(type_error("<neg>", "int", "bool"))
    );
    assert_eq!(
        eval(un(UnOpKind::Not, num(0))),
        Err(type_error("<not>", "bool", "int"))
    );
}

#[test]
fn command_output_becomes_text() {
    let mut ctx = Context::new(host());
    let e = expr(ExprKind::Exec(Exec { span: sp(), cmd: "ls -al".to_string() }));
    assert_eq!(
        ctx.eval_expr(&e),
        Ok(Value::Str(Shared::new("ran ls -al".to_string())))
    );
    assert_eq!(ctx.platform().commands, vec!["ls -al".to_string()]);
}

#[test]
fn command_failure_is_passed_on() {
    let e = expr(ExprKind::Exec(Exec { span: sp(), cmd: "missing".to_string() }));
    assert_eq!(
        eval(e),
        Err(Error::Command(CommandError::Command(
            "No such file or directory".to_string()
        )))
    );
}

#[test]
fn block_value_is_unit() {
    let mut ctx = Context::new(host());
    let e = expr(ExprKind::Block(block(vec![run(num(5))])));
    assert_eq!(ctx.eval_expr(&e), Ok(Value::Unit));
    assert_eq!(ctx.depth(), 0);
}

#[test]
fn expression_item_keeps_its_value_and_definition_item_does_nothing() {
    let mut ctx = Context::new(host());
    assert_eq!(ctx.eval_item(&run(num(5))), Ok(Value::Int(5)));
    assert_eq!(ctx.eval_item(&def("f", &[], vec![])), Ok(Value::Unit));
    assert_eq!(
        ctx.eval_expr(&call("f", vec![])),
        Err(Error::Runtime(RuntimeError::IdentNotFound("f".to_string())))
    );
}

#[test]
fn definitions_are_hoisted() {
    let out = Printed::default();
    let program = tree(vec![
        run(call("later", vec![num(1)])),
        def("later", &["x"], vec![run(call("print", vec![var("x")]))]),
    ]);
    assert_eq!(engine(&out).execute(program, host()), Ok(()));
    assert_eq!(*out.borrow(), vec!["1".to_string()]);
}

#[test]
fn script_call_checks_its_arity() {
    let out = Printed::default();
    let program = tree(vec![
        def("two", &["a", "b"], vec![]),
        run(call("two", vec![num(1)])),
    ]);
    assert_eq!(
        engine(&out).execute(program, host()),
        Err(Error::Runtime(RuntimeError::ArgumentError {
            ident: "two".to_string(),
            expected: 2,
            found: 1,
        }))
    );
}

#[test]
fn script_call_yields_unit_and_leaves_its_scope() {
    let mut ctx = Context::new(host());
    let program = tree(vec![
        def("f", &["a"], vec![let_("inner", var("a")), run(num(99))]),
        let_("r", call("f", vec![num(1)])),
    ]);
    assert_eq!(ctx.run(program), Ok(Value::Unit));
    assert_eq!(value_of(&ctx, "r"), Value::Unit);
    assert_eq!(ctx.depth(), 0);
    assert!(ctx.search("inner").is_err());
    assert!(ctx.search("a").is_err());
}

#[test]
fn calling_a_value_that_is_no_function_fails() {
    let mut ctx = Context::new(host());
    ctx.bind("x", Value::Int(1));
    assert_eq!(
        ctx.eval_expr(&call("x", vec![])),
        Err(type_error("x", "fn", "int"))
    );
    assert_eq!(
        ctx.eval_expr(&call("unknown", vec![])),
        Err(Error::Runtime(RuntimeError::IdentNotFound("unknown".to_string())))
    );
}

#[test]
fn calling_a_dangling_reference_fails() {
    let mut ctx = Context::new(host());
    ctx.bind("f", Value::Fn(FnRef::new(Ref::new(999))));
    assert_eq!(
        ctx.eval_expr(&call("f", vec![])),
        Err(Error::Runtime(RuntimeError::NullRefError(Ref::new(999))))
    );
}

#[test]
fn host_function_gets_arguments_in_order_under_its_name() {
    let seen: Rc<RefCell<Vec<(String, Vec<Value>)>>> = Rc::default();
    let log = seen.clone();
    let hook = VariadicFn::new(move |args: Vec<Value>| {
        log.borrow_mut().push(("called".to_string(), args));
        Ok(Value::Int(1))
    });
    let mut ctx = Engine::new().with_fn_raw("probe", hook).start(host());
    let e = call("probe", vec![num(1), text("two"), truth(true)]);
    assert_eq!(ctx.eval_expr(&e), Ok(Value::Int(1)));
    assert_eq!(
        *seen.borrow(),
        vec![(
            "called".to_string(),
            vec![
                Value::Int(1),
                Value::Str(Shared::new("two".to_string())),
                Value::Bool(true)
            ]
        )]
    );
}

#[test]
fn host_function_error_is_passed_on() {
    let hook = VariadicFn::new(|_args: Vec<Value>| {
        Err(RuntimeError::IdentNotFound("from the host".to_string()))
    });
    let mut ctx = Engine::new().with_fn_raw("fail", hook).start(host());
    assert_eq!(
        ctx.eval_expr(&call("fail", vec![])),
        Err(Error::Runtime(RuntimeError::IdentNotFound("from the host".to_string())))
    );
}

#[test]
fn registering_a_name_again_replaces_the_function() {
    let out = Printed::default();
    let e = Engine::new()
        .with_fn("f", || Ok(Value::Int(1)))
        .with_fn_raw("print", printer(&out))
        .with_fn("f", || Ok(Value::Int(2)));
    let program = tree(vec![run(call("print", vec![call("f", vec![])]))]);
    assert_eq!(e.execute(program, host()), Ok(()));
    assert_eq!(*out.borrow(), vec!["2".to_string()]);
}

#[test]
fn successful_run_ends_in_the_global_scope() {
    let mut ctx = Context::new(host());
    assert_eq!(ctx.run(countdown(3)), Ok(Value::Unit));
    assert_eq!(ctx.depth(), 0);
}

#[test]
fn nested_definitions_are_not_registered() {
    let mut ctx = Context::new(host());
    let program = tree(vec![
        run(expr(ExprKind::Block(block(vec![def("inner", &[], vec![])])))),
        def("outer", &[], vec![def("local", &[], vec![]), run(call("local", vec![]))]),
        run(call("inner", vec![])),
    ]);
    assert_eq!(
        ctx.run(program),
        Err(Error::Runtime(RuntimeError::IdentNotFound("inner".to_string())))
    );
    let mut ctx = Context::new(host());
    let program = tree(vec![
        def("outer", &[], vec![def("local", &[], vec![]), run(call("local", vec![]))]),
        run(call("outer", vec![])),
    ]);
    assert_eq!(
        ctx.run(program),
        Err(Error::Runtime(RuntimeError::IdentNotFound("local".to_string())))
    );
}

#[test]
fn a_later_definition_shadows_an_earlier_one_of_the_same_name() {
    let out = Printed::default();
    let program = tree(vec![
        def("f", &[], vec![run(call("print", vec![num(1)]))]),
        def("f", &[], vec![run(call("print", vec![num(2)]))]),
        run(call("f", vec![])),
    ]);
    assert_eq!(engine(&out).execute(program, host()), Ok(()));
    assert_eq!(*out.borrow(), vec!["2".to_string()]);
}

#[test]
fn arguments_are_evaluated_from_left_to_right() {
    let out = Printed::default();
    let program = tree(vec![
        def("two", &["a", "b"], vec![]),
        run(call(
            "two",
            vec![call("print", vec![num(1)]), call("print", vec![num(2)])],
        )),
        run(call(
            "print",
            vec![call("print", vec![num(3)]), call("print", vec![num(4)])],
        )),
    ]);
    assert_eq!(engine(&out).execute(program, host()), Ok(()));
    assert_eq!(
        *out.borrow(),
        vec!["1".to_string(), "2".to_string(), "3".to_string(), "4".to_string(), "() ()".to_string()]
    );
}

#[test]
fn script_arguments_see_the_parameters_bound_before_them() {
    let out = Printed::default();
    let program = tree(vec![
        def("show", &["a", "b"], vec![run(call("print", vec![var("a"), var("b")]))]),
        let_("a", num(1)),
        run(call("show", vec![num(2), var("a")])),
    ]);
    assert_eq!(engine(&out).execute(program, host()), Ok(()));
    assert_eq!(*out.borrow(), vec!["2 2".to_string()]);
}

#[test]
fn host_arguments_are_evaluated_in_the_scope_of_the_call() {
    let out = Printed::default();
    let program = tree(vec![
        let_("a", num(1)),
        run(call("print", vec![num(2), var("a")])),
    ]);
    assert_eq!(engine(&out).execute(program, host()), Ok(()));
    assert_eq!(*out.borrow(), vec!["2 1".to_string()]);
}

#[test]
fn failed_run_keeps_what_was_done_before() {
    let out = Printed::default();
    let program = tree(vec![
        run(call("print", vec![text("before")])),
        run(var("missing")),
        run(call("print", vec![text("after")])),
    ]);
    assert_eq!(
        engine(&out).execute(program, host()),
        Err(Error::Runtime(RuntimeError::IdentNotFound("missing".to_string())))
    );
    assert_eq!(*out.borrow(), vec!["before".to_string()]);
}

#[test]
fn spare_scopes_are_emptied_before_reuse() {
    let mut ctx = Context::new(host());
    let first = expr(ExprKind::Block(block(vec![let_("inner", num(1))])));
    assert_eq!(ctx.eval_expr(&first), Ok(Value::Unit));
    assert!(ctx.search("inner").is_err());
    let second = expr(ExprKind::Block(block(vec![run(var("inner"))])));
    assert_eq!(
        ctx.eval_expr(&second),
        Err(Error::Runtime(RuntimeError::IdentNotFound("inner".to_string())))
    );
}

#[test]
fn scope_names_follow_blocks_and_calls() {
    let mut ctx = Context::new(host());
    assert_eq!(ctx.current().to_text(), "Scope(global)");
    assert_eq!(ctx.enter_scope("block"), Ok(()));
    assert_eq!(ctx.current().to_text(), "Scope(block)");
    assert_eq!(ctx.global().to_text(), "Scope(global)");
    assert_eq!(ctx.depth(), 1);
    ctx.pop_scope();
    assert_eq!(ctx.depth(), 0);
    assert_eq!(ctx.enter_scope("rec"), Ok(()));
    assert_eq!(ctx.current().to_text(), "Scope(rec)");
    assert!(ctx.current().is_empty());
}

#[test]
fn source_text_goes_through_the_given_parser() {
    let out = Printed::default();
    let parse = |src: &str| -> Result<Tree, String> {
        if src == "print(1);" {
            Ok(tree(vec![run(call("print", vec![num(1)]))]))
        } else {
            Err(format!("cannot read `{}`", src))
        }
    };
    assert_eq!(engine(&out).execute_source("print(1);", parse, host()), Ok(()));
    assert_eq!(*out.borrow(), vec!["1".to_string()]);
    assert_eq!(
        engine(&out).execute_source("???", parse, host()),
        Err(Error::Parse("cannot read `???`".to_string()))
    );
    assert_eq!(*out.borrow(), vec!["1".to_string()]);
}

#[test]
fn traced_run_gives_the_same_result() {
    let out = Printed::default();
    let program = tree(vec![
        let_("a", num(3)),
        let_("b", num(4)),
        run(call("print", vec![bin(var("a"), BinOpKind::Add, var("b"))])),
    ]);
    let (result, _trace) = engine(&out).execute_traced(program, host());
    assert_eq!(result, Ok(()));
    assert_eq!(*out.borrow(), vec!["7".to_string()]);
    let program = tree(vec![run(call("add", vec![num(10), text("hi")]))]);
    let (result, _trace) = engine(&out).execute_traced(program, host());
    assert_eq!(result, Err(type_error("ExternalFn(add) Arg#1", "int", "str")));
}
