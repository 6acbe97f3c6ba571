use rush_interpreter::ast::{
    BinOpExpr, BinOpKind, Block, Expr, ExprKind, FnDef, Ident, Item, ItemKind, Literal,
    LiteralKind, Span, Stmt,
};
use rush_interpreter::hash::{hash_definition, HASH_PRIME, HASH_SEED};

fn ident(name: &str, at: usize) -> Ident {
    Ident { name: name.to_string(), span: Span::new(at, at + name.len()) }
}

fn definition(name: &str, params: &[&str], body: Vec<Item>, at: usize) -> FnDef {
    FnDef {
        span: Span::new(at, at + 1),
        ident: ident(name, at),
        params: params.iter().map(|p| ident(p, at)).collect(),
        body: Block { span: Span::new(at, at + 1), items: body },
    }
}

fn number(n: i64) -> Expr {
    Expr {
        kind: ExprKind::Literal(Literal { kind: LiteralKind::Number(n), span: Span::new(0, 0) }),
        span: Span::new(0, 0),
    }
}

fn binding(name: &str, value: Expr) -> Item {
    Item {
        span: Span::new(0, 0),
        kind: ItemKind::Stmt(Stmt { span: Span::new(0, 0), ident: ident(name, 0), expr: value }),
    }
}

fn sum(left: Expr, right: Expr) -> Expr {
    Expr {
        kind: ExprKind::BinOp(BinOpExpr {
            left: Box::new(left),
            right: Box::new(right),
            kind: BinOpKind::Add,
            span: Span::new(0, 0),
        }),
        span: Span::new(0, 0),
    }
}

fn step(h: u64, word: u64) -> u64 {
    (h ^ word).wrapping_mul(HASH_PRIME)
}

fn step_text(mut h: u64, text: &str) -> u64 {
    for b in text.bytes() {
        h = step(h, b as u64);
    }
    step(h, 0xff)
}

#[test]
fn hash_of_an_empty_function_is_the_fold_of_its_name() {
    let def = definition("f", &[], vec![], 0);
    let expected = step(step(step_text(HASH_SEED, "f"), 0), 0);
    assert_eq!(hash_definition(&def), expected);
}

#[test]
fn hash_folds_parameters_and_body() {
    let def = definition("go", &["a"], vec![binding("x", number(-1))], 0);
    let mut h = step_text(HASH_SEED, "go");
    h = step(h, 1);
    h = step_text(h, "a");
    h = step(h, 1);
    h = step(h, 2);
    h = step_text(h, "x");
    h = step(h, 2);
    h = step(step(h, 3), (-1i64) as u64);
    assert_eq!(hash_definition(&def), h);
}

#[test]
fn hash_does_not_depend_on_spans() {
    let body = || vec![binding("x", sum(number(1), number(2)))];
    assert_eq!(
        hash_definition(&definition("f", &["a", "b"], body(), 0)),
        hash_definition(&definition("f", &["a", "b"], body(), 100))
    );
}

#[test]
fn hash_tells_different_definitions_apart() {
    let base = hash_definition(&definition("f", &["a"], vec![binding("x", number(1))], 0));
    let others = vec![
        definition("g", &["a"], vec![binding("x", number(1))], 0),
        definition("f", &["b"], vec![binding("x", number(1))], 0),
        definition("f", &["a", "a"], vec![binding("x", number(1))], 0),
        definition("f", &["a"], vec![binding("y", number(1))], 0),
        definition("f", &["a"], vec![binding("x", number(2))], 0),
        definition("f", &["a"], vec![binding("x", sum(number(1), number(0)))], 0),
        definition("f", &["a"], vec![], 0),
    ];
    for other in others {
        assert_ne!(hash_definition(&other), base);
    }
}
