//! Laws of the language: statements that hold of every program, state and
//! host, proved from the model.

use vstd::prelude::*;
use crate::ast::{
    BinOpExpr, BinOpKind, Block, Expr, ExprKind, FnCall, Ident, Item, ItemKind, LiteralKind, Tree,
    While,
};
use crate::error::{ErrorView, RuntimeErrorView};
use crate::func::CallableView;
use crate::model::{
    bind_params, call_callable, call_native, eval_args, eval_bin_op, eval_block, eval_expr,
    eval_fn, eval_item, eval_items, eval_while, finish_bin_op, hoist, read_var, resolve_in,
    run_command, run_program, write_var, State,
};
use crate::scope::{last_named, ScopeView};
use crate::trace::HostAnswer;
use crate::value::{ValueView, lemma_literal_type};
use crate::var::VariableView;

verus! {

/// A literal evaluates, without touching the state, to a value whose type is
/// the one that the literal's kind names.
pub proof fn lemma_literal_has_its_type(st: State, room: nat, expr: Expr, ans: Seq<HostAnswer>)
    requires
        expr.kind is Literal,
    ensures
        eval_expr(st, room, expr, ans) == (
            st,
            Ok::<ValueView, ErrorView>(ValueView::of_literal(expr.kind->Literal_0.kind)),
        ),
        ValueView::of_literal(expr.kind->Literal_0.kind).ty_name() == (match expr.kind->Literal_0.kind {
            LiteralKind::Number(_) => "int"@,
            LiteralKind::Float(_) => "float"@,
            LiteralKind::Bool(_) => "bool"@,
            LiteralKind::String(_) => "str"@,
        }),
{
    lemma_literal_type(expr.kind->Literal_0.kind);
}

/// Reading a variable leaves the state as it is, so reading it again gives
/// the same value.
pub proof fn lemma_reading_twice_agrees(st: State, room: nat, expr: Expr, ans: Seq<HostAnswer>)
    requires
        expr.kind is Ident,
    ensures
        eval_expr(st, room, expr, ans).0 == st,
        eval_expr(eval_expr(st, room, expr, ans).0, room, expr, ans) == eval_expr(
            st,
            room,
            expr,
            ans,
        ),
{
}

/// A script function called with another number of arguments than it has
/// parameters fails with an argument error that names the function, and
/// nothing else happens.
pub proof fn lemma_script_arity_is_exact(
    st: State,
    room: nat,
    callable: CallableView,
    call: FnCall,
    ans: Seq<HostAnswer>,
)
    requires
        callable is Script,
        callable->def.params.len() != call.args.len(),
    ensures
        call_callable(st, room, callable, call, ans) == (
            st,
            Err::<ValueView, ErrorView>(
                ErrorView::Runtime(
                    RuntimeErrorView::ArgumentError {
                        ident: callable->def.ident.name@,
                        expected: callable->def.params.len(),
                        found: call.args.len(),
                    },
                ),
            ),
        ),
{
}

/// A variable that was just created in the current scope is what its name
/// resolves to.
pub proof fn lemma_bound_name_resolves(st: State, name: Seq<char>, value: ValueView)
    requires
        st.scopes.len() > 0,
    ensures
        st.bind(name, value).resolve(name) == Some(
            ((st.scopes.len() - 1) as int, st.scopes.last().vars.len() as int),
        ),
        read_var(st.bind(name, value), name) == (
            st.bind(name, value),
            Ok::<ValueView, ErrorView>(value),
        ),
{
    let after = st.bind(name, value);
    let top = after.scopes[after.scopes.len() - 1];
    assert(top.vars[top.vars.len() - 1].name == name);
    assert(last_named(top.vars, name, top.vars.len()) == Some((top.vars.len() - 1) as int));
    assert(resolve_in(after.scopes, name, after.scopes.len()) == Some(
        ((after.scopes.len() - 1) as int, (top.vars.len() - 1) as int),
    ));
}

/// Binding a literal to a name and then reading the name gives the
/// literal's value.
pub proof fn lemma_let_then_read(
    st: State,
    room: nat,
    binding: Item,
    reading: Expr,
    ans: Seq<HostAnswer>,
)
    requires
        st.scopes.len() > 0,
        binding.kind is Stmt,
        binding.kind->Stmt_0.expr.kind is Literal,
        reading.kind is Ident,
        reading.kind->Ident_0.name@ == binding.kind->Stmt_0.ident.name@,
    ensures
        eval_item(st, room, binding, ans).1 is Ok,
        eval_expr(eval_item(st, room, binding, ans).0, room, reading, ans).1 == Ok::<
            ValueView,
            ErrorView,
        >(ValueView::of_literal(binding.kind->Stmt_0.expr.kind->Literal_0.kind)),
{
    let stmt = binding.kind->Stmt_0;
    let value = ValueView::of_literal(stmt.expr.kind->Literal_0.kind);
    lemma_literal_has_its_type(st, room, stmt.expr, ans);
    assert(eval_item(st, room, binding, ans) == (
        st.bind(stmt.ident.name@, value),
        Ok::<ValueView, ErrorView>(ValueView::Unit),
    ));
    lemma_bound_name_resolves(st, stmt.ident.name@, value);
}

/// Replacing the value of a variable changes no name, so every name of the
/// scope stands for the variable it stood for.
pub proof fn lemma_assign_keeps_positions(
    scope: ScopeView,
    index: int,
    value: ValueView,
    name: Seq<char>,
    upto: nat,
)
    requires
        0 <= index < scope.vars.len(),
        upto <= scope.vars.len(),
    ensures
        last_named(scope.assign(index, value).vars, name, upto) == last_named(
            scope.vars,
            name,
            upto,
        ),
    decreases upto,
{
    if upto > 0 {
        lemma_assign_keeps_positions(scope, index, value, name, (upto - 1) as nat);
    }
}

/// What a name resolves to lies within the scopes and their variables.
pub proof fn lemma_resolution_is_in_range(scopes: Seq<ScopeView>, name: Seq<char>, upto: nat)
    requires
        upto <= scopes.len(),
    ensures
        resolve_in(scopes, name, upto) matches Some((s, i)) ==> 0 <= s < upto && 0 <= i
            < scopes[s].vars.len() && scopes[s].vars[i].name == name,
    decreases upto,
{
    if upto > 0 {
        lemma_position_is_in_range(scopes[upto - 1].vars, name, scopes[upto - 1].vars.len());
        lemma_resolution_is_in_range(scopes, name, (upto - 1) as nat);
    }
}

/// The position of a name lies within the variables, at a variable of that
/// name.
pub proof fn lemma_position_is_in_range(vars: Seq<VariableView>, name: Seq<char>, upto: nat)
    requires
        upto <= vars.len(),
    ensures
        last_named(vars, name, upto) matches Some(i) ==> 0 <= i < upto && vars[i].name == name,
    decreases upto,
{
    if upto > 0 {
        lemma_position_is_in_range(vars, name, (upto - 1) as nat);
    }
}

/// Replacing the value of a variable changes what no name resolves to.
pub proof fn lemma_assign_keeps_resolution(
    st: State,
    scope: int,
    index: int,
    value: ValueView,
    name: Seq<char>,
    upto: nat,
)
    requires
        0 <= scope < st.scopes.len(),
        0 <= index < st.scopes[scope].vars.len(),
        upto <= st.scopes.len(),
    ensures
        resolve_in(st.assign(scope, index, value).scopes, name, upto) == resolve_in(
            st.scopes,
            name,
            upto,
        ),
    decreases upto,
{
    if upto > 0 {
        lemma_assign_keeps_resolution(st, scope, index, value, name, (upto - 1) as nat);
        if upto - 1 == scope {
            lemma_assign_keeps_positions(
                st.scopes[scope],
                index,
                value,
                name,
                st.scopes[scope].vars.len(),
            );
        }
    }
}

/// Assignment is idempotent: assigning the same value to the same name
/// again changes nothing.
pub proof fn lemma_assign_is_idempotent(st: State, name: Seq<char>, value: ValueView)
    ensures
        write_var(write_var(st, name, value).0, name, value) == write_var(st, name, value),
        write_var(st, name, value).1 is Ok ==> read_var(write_var(st, name, value).0, name) == (
            write_var(st, name, value).0,
            Ok::<ValueView, ErrorView>(value),
        ),
{
    lemma_resolution_is_in_range(st.scopes, name, st.scopes.len());
    match st.resolve(name) {
        Some((s, i)) => {
            let once = st.assign(s, i, value);
            lemma_assign_keeps_resolution(st, s, i, value, name, st.scopes.len());
            assert(once.resolve(name) == Some((s, i)));
            assert(once.scopes[s].vars =~= once.scopes[s].assign(i, value).vars);
            assert(once.scopes =~= once.assign(s, i, value).scopes);
        },
        None => {},
    }
}

/// An expression that succeeds leaves the scope stack as deep as it found
/// it.
pub proof fn lemma_expr_keeps_depth(st: State, room: nat, expr: Expr, ans: Seq<HostAnswer>)
    requires
        st.scopes.len() > 0,
    ensures
        eval_expr(st, room, expr, ans).1 is Ok ==> eval_expr(st, room, expr, ans).0.scopes.len()
            == st.scopes.len(),
    decreases room, expr, 0nat,
{
    match expr.kind {
        ExprKind::FnCall(call) => lemma_fn_keeps_depth(st, room, call, ans),
        ExprKind::Block(block) => lemma_block_keeps_depth(st, room, block, ans),
        ExprKind::UnOp(op) => lemma_expr_keeps_depth(st, room, *op.expr, ans),
        ExprKind::BinOp(op) => lemma_bin_op_keeps_depth(st, room, op, ans),
        _ => {},
    }
}

/// A binary operation that succeeds leaves the scope stack as deep as it
/// found it.
pub proof fn lemma_bin_op_keeps_depth(st: State, room: nat, op: BinOpExpr, ans: Seq<HostAnswer>)
    requires
        st.scopes.len() > 0,
    ensures
        eval_bin_op(st, room, op, ans).1 is Ok ==> eval_bin_op(st, room, op, ans).0.scopes.len()
            == st.scopes.len(),
    decreases room, op, 0nat,
{
    lemma_expr_keeps_depth(st, room, *op.left, ans);
    let (s1, r1) = eval_expr(st, room, *op.left, ans);
    if r1 is Ok {
        lemma_expr_keeps_depth(s1, room, *op.right, ans);
    }
}

/// A block that succeeds leaves the scope stack as deep as it found it.
pub proof fn lemma_block_keeps_depth(st: State, room: nat, block: Block, ans: Seq<HostAnswer>)
    requires
        st.scopes.len() > 0,
    ensures
        eval_block(st, room, block, ans).1 is Ok ==> eval_block(st, room, block, ans).0.scopes.len()
            == st.scopes.len(),
    decreases room, block, 0nat,
{
    if room > 0 {
        lemma_items_keep_depth(st.push_scope("block"@), (room - 1) as nat, block.items, 0, ans);
    }
}

/// Items that succeed leave the scope stack as deep as they found it.
pub proof fn lemma_items_keep_depth(
    st: State,
    room: nat,
    items: Vec<Item>,
    from: nat,
    ans: Seq<HostAnswer>,
)
    requires
        st.scopes.len() > 0,
    ensures
        eval_items(st, room, items, from, ans).1 is Ok ==> eval_items(
            st,
            room,
            items,
            from,
            ans,
        ).0.scopes.len() == st.scopes.len(),
    decreases room, items, items.len() - from,
{
    if from < items.len() {
        lemma_item_keeps_depth(st, room, items[from as int], ans);
        let (s1, r1) = eval_item(st, room, items[from as int], ans);
        if r1 is Ok {
            lemma_items_keep_depth(s1, room, items, from + 1, ans);
        }
    }
}

/// An item that succeeds leaves the scope stack as deep as it found it.
pub proof fn lemma_item_keeps_depth(st: State, room: nat, item: Item, ans: Seq<HostAnswer>)
    requires
        st.scopes.len() > 0,
    ensures
        eval_item(st, room, item, ans).1 is Ok ==> eval_item(st, room, item, ans).0.scopes.len()
            == st.scopes.len(),
    decreases room, item, 0nat,
{
    match item.kind {
        ItemKind::Stmt(stmt) => lemma_expr_keeps_depth(st, room, stmt.expr, ans),
        ItemKind::Expr(expr) => lemma_expr_keeps_depth(st, room, expr, ans),
        ItemKind::Assign(assign) => {
            lemma_expr_keeps_depth(st, room, assign.expr, ans);
            let s1 = eval_expr(st, room, assign.expr, ans).0;
            lemma_resolution_is_in_range(s1.scopes, assign.ident.name@, s1.scopes.len());
        },
        ItemKind::If(cond) => {
            lemma_expr_keeps_depth(st, room, cond.cond, ans);
            let (s1, r1) = eval_expr(st, room, cond.cond, ans);
            if r1 is Ok {
                lemma_block_keeps_depth(s1, room, cond.then_block, ans);
                if cond.else_block is Some {
                    lemma_block_keeps_depth(s1, room, cond.else_block->Some_0, ans);
                }
            }
        },
        ItemKind::While(each) => lemma_while_keeps_depth(st, room, each, st.loop_limit as nat, ans),
        _ => {},
    }
}

/// A loop that succeeds leaves the scope stack as deep as it found it.
pub proof fn lemma_while_keeps_depth(
    st: State,
    room: nat,
    each: While,
    budget: nat,
    ans: Seq<HostAnswer>,
)
    requires
        st.scopes.len() > 0,
    ensures
        eval_while(st, room, each, budget, ans).1 is Ok ==> eval_while(
            st,
            room,
            each,
            budget,
            ans,
        ).0.scopes.len() == st.scopes.len(),
    decreases room, each, budget,
{
    lemma_expr_keeps_depth(st, room, each.expr, ans);
    let (s1, r1) = eval_expr(st, room, each.expr, ans);
    if r1 == Ok::<ValueView, ErrorView>(ValueView::Bool(true)) && budget > 0 {
        lemma_block_keeps_depth(s1, room, each.block, ans);
        let (s2, r2) = eval_block(s1, room, each.block, ans);
        if r2 is Ok {
            lemma_while_keeps_depth(s2, room, each, (budget - 1) as nat, ans);
        }
    }
}

/// A call that succeeds leaves the scope stack as deep as it found it.
pub proof fn lemma_fn_keeps_depth(st: State, room: nat, call: FnCall, ans: Seq<HostAnswer>)
    requires
        st.scopes.len() > 0,
    ensures
        eval_fn(st, room, call, ans).1 is Ok ==> eval_fn(st, room, call, ans).0.scopes.len()
            == st.scopes.len(),
    decreases room, call, 1nat,
{
    match st.resolve(call.ident.name@) {
        Some((s, i)) => match st.scopes[s].vars[i].value {
            ValueView::Fn(r) => match st.callable(r) {
                Some(callable) => lemma_call_keeps_depth(st, room, callable, call, ans),
                None => {},
            },
            _ => {},
        },
        None => {},
    }
}

/// A callable that succeeds leaves the scope stack as deep as it found it.
pub proof fn lemma_call_keeps_depth(
    st: State,
    room: nat,
    callable: CallableView,
    call: FnCall,
    ans: Seq<HostAnswer>,
)
    requires
        st.scopes.len() > 0,
    ensures
        call_callable(st, room, callable, call, ans).1 is Ok ==> call_callable(
            st,
            room,
            callable,
            call,
            ans,
        ).0.scopes.len() == st.scopes.len(),
    decreases room, call, 0nat,
{
    match callable {
        CallableView::Native { name, gives } => {
            lemma_args_keep_depth(st, room, call.args, 0, Seq::empty(), ans);
        },
        CallableView::Script { def, hash } => {
            if def.params.len() == call.args.len() && room > 0 {
                let s0 = st.push_scope(call.ident.name@);
                lemma_params_keep_depth(s0, (room - 1) as nat, def.params@, call.args, 0, ans);
                let (s1, r1) = bind_params(s0, (room - 1) as nat, def.params@, call.args, 0, ans);
                if r1 is Ok {
                    lemma_items_keep_depth(s1, (room - 1) as nat, def.body.items, 0, ans);
                }
            }
        },
    }
}

/// Arguments that succeed leave the scope stack as deep as they found it.
pub proof fn lemma_args_keep_depth(
    st: State,
    room: nat,
    args: Vec<Expr>,
    from: nat,
    done: Seq<ValueView>,
    ans: Seq<HostAnswer>,
)
    requires
        st.scopes.len() > 0,
    ensures
        eval_args(st, room, args, from, done, ans).1 is Ok ==> eval_args(
            st,
            room,
            args,
            from,
            done,
            ans,
        ).0.scopes.len() == st.scopes.len(),
    decreases room, args, args.len() - from,
{
    if from < args.len() {
        lemma_expr_keeps_depth(st, room, args[from as int], ans);
        let (s1, r1) = eval_expr(st, room, args[from as int], ans);
        if r1 is Ok {
            lemma_args_keep_depth(s1, room, args, from + 1, done.push(r1->Ok_0), ans);
        }
    }
}

/// Binding parameters, if it succeeds, leaves the scope stack as deep as it
/// found it.
pub proof fn lemma_params_keep_depth(
    st: State,
    room: nat,
    params: Seq<Ident>,
    args: Vec<Expr>,
    from: nat,
    ans: Seq<HostAnswer>,
)
    requires
        st.scopes.len() > 0,
    ensures
        bind_params(st, room, params, args, from, ans).1 is Ok ==> bind_params(
            st,
            room,
            params,
            args,
            from,
            ans,
        ).0.scopes.len() == st.scopes.len(),
    decreases room, args, args.len() - from,
{
    if from < args.len() {
        lemma_expr_keeps_depth(st, room, args[from as int], ans);
        let (s1, r1) = eval_expr(st, room, args[from as int], ans);
        if r1 is Ok {
            lemma_params_keep_depth(
                s1.bind(params[from as int].name@, r1->Ok_0),
                room,
                params,
                args,
                from + 1,
                ans,
            );
        }
    }
}

/// Registering the definitions of a program changes the depth of the scope
/// stack as little as it changes the trace.
pub proof fn lemma_hoist_keeps_depth(st: State, items: Vec<Item>, from: nat)
    requires
        st.scopes.len() > 0,
    ensures
        hoist(st, items, from).scopes.len() == st.scopes.len(),
        hoist(st, items, from).trace == st.trace,
    decreases items.len() - from,
{
    if from < items.len() {
        match items[from as int].kind {
            ItemKind::FnDef(def) => lemma_hoist_keeps_depth(st.define(def), items, from + 1),
            _ => lemma_hoist_keeps_depth(st, items, from + 1),
        }
    }
}

/// A program that runs to its end ends at the depth at which it began: run
/// from the global scope, it ends in the global scope.
pub proof fn lemma_run_keeps_depth(st: State, room: nat, tree: Tree, ans: Seq<HostAnswer>)
    requires
        st.scopes.len() > 0,
    ensures
        run_program(st, room, tree, ans).1 is Ok ==> run_program(st, room, tree, ans).0.scopes.len()
            == st.scopes.len(),
{
    lemma_hoist_keeps_depth(st, tree.items, 0);
    lemma_items_keep_depth(hoist(st, tree.items, 0), room, tree.items, 0, ans);
}

} // verus!
