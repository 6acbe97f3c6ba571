//! A stable 64-bit content hash of function definitions.
//!
//! The hash folds a pre-order walk of the definition into an accumulator with
//! the FNV-1a step. It depends on names, literals, operators and the shape of
//! the tree, and on nothing else: spans do not enter it, so the same text
//! hashes the same wherever it stands.

use vstd::prelude::*;
use vstd::utf8::encode_utf8;
use crate::ast::{
    BinOpKind, Block, Expr, ExprKind, FnDef, Ident, Item, ItemKind, Literal, LiteralKind,
    UnOpKind,
};

verus! {

broadcast use vstd::std_specs::vec::group_vec_axioms;

/// The accumulator before anything is folded in.
pub const HASH_SEED: u64 = 0xcbf29ce484222325;

/// The multiplier of the folding step.
pub const HASH_PRIME: u64 = 0x00000100000001b3;

/// One folding step: xor the word in, then multiply, both in 64 bits.
pub open spec fn mix(h: u64, word: u64) -> u64 {
    (h ^ word).wrapping_mul(HASH_PRIME)
}

/// Folds bytes in, first byte first.
pub open spec fn hash_bytes(h: u64, bytes: Seq<u8>, from: nat) -> u64
    decreases bytes.len() - from,
{
    if from >= bytes.len() {
        h
    } else {
        hash_bytes(mix(h, bytes[from as int] as u64), bytes, from + 1)
    }
}

/// Folds a piece of text in: its UTF-8 bytes, then a terminator.
pub open spec fn hash_text(h: u64, text: Seq<char>) -> u64 {
    mix(hash_bytes(h, encode_utf8(text), 0), 0xff)
}

/// Folds a list of names in: its length, then each name.
pub open spec fn hash_idents(h: u64, idents: Seq<Ident>, from: nat) -> u64
    decreases idents.len() - from,
{
    if from >= idents.len() {
        h
    } else {
        hash_idents(hash_text(h, idents[from as int].name@), idents, from + 1)
    }
}

pub open spec fn bin_op_code(kind: BinOpKind) -> u64 {
    match kind {
        BinOpKind::Add => 1,
        BinOpKind::Sub => 2,
        BinOpKind::Mul => 3,
        BinOpKind::Div => 4,
        BinOpKind::Eq => 5,
        BinOpKind::Neq => 6,
        BinOpKind::Lt => 7,
        BinOpKind::Le => 8,
        BinOpKind::Gt => 9,
        BinOpKind::Ge => 10,
        BinOpKind::And => 11,
        BinOpKind::Or => 12,
    }
}

pub open spec fn un_op_code(kind: UnOpKind) -> u64 {
    match kind {
        UnOpKind::Neg => 1,
        UnOpKind::Not => 2,
    }
}

pub open spec fn hash_literal(h: u64, kind: LiteralKind) -> u64 {
    match kind {
        LiteralKind::String(s) => hash_text(mix(h, 1), s@),
        LiteralKind::Bool(b) => mix(mix(h, 2), if b { 1 } else { 0 }),
        LiteralKind::Number(n) => mix(mix(h, 3), n as u64),
        LiteralKind::Float(f) => mix(mix(h, 4), f.0),
    }
}

pub open spec fn hash_expr(h: u64, expr: Expr) -> u64
    decreases expr, 0nat,
{
    match expr.kind {
        ExprKind::Ident(ident) => hash_text(mix(h, 1), ident.name@),
        ExprKind::Literal(lit) => hash_literal(mix(h, 2), lit.kind),
        ExprKind::FnCall(call) => hash_exprs(
            mix(hash_text(mix(h, 3), call.ident.name@), call.args.len() as u64),
            call.args,
            0,
        ),
        ExprKind::Exec(exec) => hash_text(mix(h, 4), exec.cmd@),
        ExprKind::Block(block) => hash_block(mix(h, 5), block),
        ExprKind::BinOp(op) => hash_expr(
            hash_expr(mix(mix(h, 6), bin_op_code(op.kind)), *op.left),
            *op.right,
        ),
        ExprKind::UnOp(op) => hash_expr(mix(mix(h, 7), un_op_code(op.kind)), *op.expr),
        ExprKind::Unit => mix(h, 8),
    }
}

pub open spec fn hash_exprs(h: u64, exprs: Vec<Expr>, from: nat) -> u64
    decreases exprs, exprs.len() - from,
{
    if from >= exprs.len() {
        h
    } else {
        hash_exprs(hash_expr(h, exprs[from as int]), exprs, from + 1)
    }
}

pub open spec fn hash_block(h: u64, block: Block) -> u64
    decreases block, 0nat,
{
    hash_items(mix(h, block.items.len() as u64), block.items, 0)
}

pub open spec fn hash_items(h: u64, items: Vec<Item>, from: nat) -> u64
    decreases items, items.len() - from,
{
    if from >= items.len() {
        h
    } else {
        hash_items(hash_item(h, items[from as int]), items, from + 1)
    }
}

pub open spec fn hash_item(h: u64, item: Item) -> u64
    decreases item, 0nat,
{
    match item.kind {
        ItemKind::FnDef(def) => hash_fn_def(mix(h, 1), def),
        ItemKind::Stmt(stmt) => hash_expr(hash_text(mix(h, 2), stmt.ident.name@), stmt.expr),
        ItemKind::Assign(assign) => hash_expr(
            hash_text(mix(h, 3), assign.ident.name@),
            assign.expr,
        ),
        ItemKind::If(cond) => {
            let h1 = hash_block(hash_expr(mix(h, 4), cond.cond), cond.then_block);
            match cond.else_block {
                Some(block) => hash_block(mix(h1, 1), block),
                None => mix(h1, 0),
            }
        },
        ItemKind::For(each) => hash_block(
            hash_expr(hash_text(mix(h, 5), each.ident.name@), each.expr),
            each.block,
        ),
        ItemKind::While(each) => hash_block(hash_expr(mix(h, 6), each.expr), each.block),
        ItemKind::Expr(expr) => hash_expr(mix(h, 7), expr),
    }
}

pub open spec fn hash_fn_def(h: u64, def: FnDef) -> u64
    decreases def, 0nat,
{
    hash_block(
        hash_idents(mix(hash_text(h, def.ident.name@), def.params.len() as u64), def.params@, 0),
        def.body,
    )
}

/// The content hash of a function definition.
pub open spec fn content_hash(def: FnDef) -> u64 {
    hash_fn_def(HASH_SEED, def)
}

fn fold(h: u64, word: u64) -> (r: u64)
    ensures
        r == mix(h, word),
{
    (h ^ word).wrapping_mul(HASH_PRIME)
}

fn fold_text(h: u64, text: &str) -> (r: u64)
    ensures
        r == hash_text(h, text@),
{
    let bytes = text.as_bytes();
    let mut acc = h;
    let mut i: usize = 0;
    while i < bytes.len()
        invariant
            i <= bytes.len(),
            hash_bytes(h, bytes@, 0) == hash_bytes(acc, bytes@, i as nat),
        decreases bytes.len() - i,
    {
        acc = fold(acc, bytes[i] as u64);
        i = i + 1;
    }
    fold(acc, 0xff)
}

fn fold_idents(h: u64, idents: &Vec<Ident>) -> (r: u64)
    ensures
        r == hash_idents(h, idents@, 0),
{
    let mut acc = h;
    let mut i: usize = 0;
    while i < idents.len()
        invariant
            i <= idents.len(),
            hash_idents(h, idents@, 0) == hash_idents(acc, idents@, i as nat),
        decreases idents.len() - i,
    {
        acc = fold_text(acc, idents[i].name.as_str());
        i = i + 1;
    }
    acc
}

fn bin_op_word(kind: BinOpKind) -> (r: u64)
    ensures
        r == bin_op_code(kind),
{
    match kind {
        BinOpKind::Add => 1,
        BinOpKind::Sub => 2,
        BinOpKind::Mul => 3,
        BinOpKind::Div => 4,
        BinOpKind::Eq => 5,
        BinOpKind::Neq => 6,
        BinOpKind::Lt => 7,
        BinOpKind::Le => 8,
        BinOpKind::Gt => 9,
        BinOpKind::Ge => 10,
        BinOpKind::And => 11,
        BinOpKind::Or => 12,
    }
}

fn un_op_word(kind: UnOpKind) -> (r: u64)
    ensures
        r == un_op_code(kind),
{
    match kind {
        UnOpKind::Neg => 1,
        UnOpKind::Not => 2,
    }
}

fn fold_literal(h: u64, lit: &Literal) -> (r: u64)
    ensures
        r == hash_literal(h, lit.kind),
{
    match &lit.kind {
        LiteralKind::String(s) => fold_text(fold(h, 1), s.as_str()),
        LiteralKind::Bool(b) => fold(fold(h, 2), if *b { 1 } else { 0 }),
        LiteralKind::Number(n) => fold(fold(h, 3), *n as u64),
        LiteralKind::Float(f) => fold(fold(h, 4), f.0),
    }
}

fn fold_expr(h: u64, expr: &Expr) -> (r: u64)
    ensures
        r == hash_expr(h, *expr),
    decreases *expr, 0nat,
{
    match &expr.kind {
        ExprKind::Ident(ident) => fold_text(fold(h, 1), ident.name.as_str()),
        ExprKind::Literal(lit) => fold_literal(fold(h, 2), lit),
        ExprKind::FnCall(call) => {
            let h1 = fold(fold_text(fold(h, 3), call.ident.name.as_str()), call.args.len() as u64);
            fold_exprs(h1, &call.args)
        },
        ExprKind::Exec(exec) => fold_text(fold(h, 4), exec.cmd.as_str()),
        ExprKind::Block(block) => fold_block(fold(h, 5), block),
        ExprKind::BinOp(op) => {
            let h1 = fold_expr(fold(fold(h, 6), bin_op_word(op.kind)), &op.left);
            fold_expr(h1, &op.right)
        },
        ExprKind::UnOp(op) => fold_expr(fold(fold(h, 7), un_op_word(op.kind)), &op.expr),
        ExprKind::Unit => fold(h, 8),
    }
}

fn fold_exprs(h: u64, exprs: &Vec<Expr>) -> (r: u64)
    ensures
        r == hash_exprs(h, *exprs, 0),
    decreases *exprs, exprs.len(),
{
    let mut acc = h;
    let mut i: usize = 0;
    while i < exprs.len()
        invariant
            i <= exprs.len(),
            hash_exprs(h, *exprs, 0) == hash_exprs(acc, *exprs, i as nat),
        decreases exprs.len() - i,
    {
        acc = fold_expr(acc, &exprs[i]);
        i = i + 1;
    }
    acc
}

fn fold_block(h: u64, block: &Block) -> (r: u64)
    ensures
        r == hash_block(h, *block),
    decreases *block, 0nat,
{
    fold_items(fold(h, block.items.len() as u64), &block.items)
}

fn fold_items(h: u64, items: &Vec<Item>) -> (r: u64)
    ensures
        r == hash_items(h, *items, 0),
    decreases *items, items.len(),
{
    let mut acc = h;
    let mut i: usize = 0;
    while i < items.len()
        invariant
            i <= items.len(),
            hash_items(h, *items, 0) == hash_items(acc, *items, i as nat),
        decreases items.len() - i,
    {
        acc = fold_item(acc, &items[i]);
        i = i + 1;
    }
    acc
}

fn fold_item(h: u64, item: &Item) -> (r: u64)
    ensures
        r == hash_item(h, *item),
    decreases *item, 0nat,
{
    match &item.kind {
        ItemKind::FnDef(def) => fold_fn_def(fold(h, 1), def),
        ItemKind::Stmt(stmt) => fold_expr(
            fold_text(fold(h, 2), stmt.ident.name.as_str()),
            &stmt.expr,
        ),
        ItemKind::Assign(assign) => fold_expr(
            fold_text(fold(h, 3), assign.ident.name.as_str()),
            &assign.expr,
        ),
        ItemKind::If(cond) => {
            let h1 = fold_block(fold_expr(fold(h, 4), &cond.cond), &cond.then_block);
            match &cond.else_block {
                Some(block) => fold_block(fold(h1, 1), block),
                None => fold(h1, 0),
            }
        },
        ItemKind::For(each) => fold_block(
            fold_expr(fold_text(fold(h, 5), each.ident.name.as_str()), &each.expr),
            &each.block,
        ),
        ItemKind::While(each) => fold_block(fold_expr(fold(h, 6), &each.expr), &each.block),
        ItemKind::Expr(expr) => fold_expr(fold(h, 7), expr),
    }
}

fn fold_fn_def(h: u64, def: &FnDef) -> (r: u64)
    ensures
        r == hash_fn_def(h, *def),
    decreases *def, 0nat,
{
    let h1 = fold(fold_text(h, def.ident.name.as_str()), def.params.len() as u64);
    fold_block(fold_idents(h1, &def.params), &def.body)
}

/// Computes the content hash of a function definition.
pub fn hash_definition(def: &FnDef) -> (r: u64)
    ensures
        r == content_hash(*def),
{
    fold_fn_def(HASH_SEED, def)
}

} // verus!
