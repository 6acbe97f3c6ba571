//! The meaning of programs, as mathematics.
//!
//! A [`State`] is the stack of live scopes, the reference counter and the
//! trace of exchanges with the host. Each function below takes a state, the
//! number of scopes that may still be entered (`room`), a piece of syntax and
//! the answers of the host, and gives the state afterwards together with the
//! value or the error. Whenever the host is needed, the next unused answer is
//! taken and the exchange is recorded in the trace.
//!
//! An error ends the run where it occurs: the state that comes with an error
//! is the state at that point, scopes entered on the way included.

use vstd::prelude::*;
use crate::ast::{
    BinOpExpr, BinOpKind, Block, Expr, ExprKind, FnCall, FnDef, Ident, Item, ItemKind, Tree,
    While,
};
use crate::hash::content_hash;
use crate::error::{lift_runtime, ErrorView, RuntimeErrorView};
use crate::func::{CallableView, Gives};
use crate::ops::{bin_op_plan, un_op, BinOpPlan};
use crate::refs::{FnRef, Ref, RefSource};
use crate::scope::ScopeView;
use crate::trace::{HostAnswer, HostCall, HostRequest};
use crate::value::ValueView;

verus! {

broadcast use vstd::std_specs::vec::group_vec_axioms;

/// The bound on the depth of the scope stack: the global scope has depth 0,
/// and the depth of every scope stays strictly below this bound.
pub const MAX_DEPTH: usize = 16384;

/// The greatest number of times that the body of one loop is run, unless a
/// context is given a lower limit.
pub const MAX_ITERATIONS: u64 = 0xffff_ffff_ffff_ffff;

/// The state of a run.
pub struct State {
    /// The live scopes, the global scope first and the current scope last.
    pub scopes: Seq<ScopeView>,
    /// The source of fresh references.
    pub refs: RefSource,
    /// The exchanges with the host so far.
    pub trace: Seq<HostCall>,
    /// The greatest number of times that the body of one loop is run.
    pub loop_limit: u64,
}

/// A state together with what an evaluation gave.
pub type Outcome = (State, Result<ValueView, ErrorView>);

/// The error outcome of a runtime failure.
pub open spec fn fail(st: State, e: RuntimeErrorView) -> Outcome {
    (st, Err(ErrorView::Runtime(e)))
}

/// The innermost of the first `upto` scopes that has a variable called
/// `name`, with the index of that variable.
pub open spec fn resolve_in(scopes: Seq<ScopeView>, name: Seq<char>, upto: nat) -> Option<
    (int, int),
>
    decreases upto,
{
    if upto == 0 {
        None
    } else {
        match scopes[upto - 1].position(name) {
            Some(i) => Some((upto - 1, i)),
            None => resolve_in(scopes, name, (upto - 1) as nat),
        }
    }
}

/// The innermost of the first `upto` scopes that has a variable identified by
/// `r`, with the index of that variable.
pub open spec fn resolve_ref_in(scopes: Seq<ScopeView>, r: Ref, upto: nat) -> Option<(int, int)>
    decreases upto,
{
    if upto == 0 {
        None
    } else {
        match scopes[upto - 1].position_of(r) {
            Some(i) => Some((upto - 1, i)),
            None => resolve_ref_in(scopes, r, (upto - 1) as nat),
        }
    }
}

/// The callable stored under `r` in the innermost of the first `upto` scopes
/// that has one.
pub open spec fn callable_in(scopes: Seq<ScopeView>, r: FnRef, upto: nat) -> Option<CallableView>
    decreases upto,
{
    if upto == 0 {
        None
    } else {
        match scopes[upto - 1].callable(r) {
            Some(c) => Some(c),
            None => callable_in(scopes, r, (upto - 1) as nat),
        }
    }
}

impl State {
    /// The state of a fresh interpreter: an empty global scope, the counter
    /// at zero, nothing asked of the host.
    pub open spec fn initial() -> State {
        State {
            scopes: seq![ScopeView::empty("global"@)],
            refs: RefSource { next: 0 },
            trace: Seq::empty(),
            loop_limit: MAX_ITERATIONS,
        }
    }

    /// The depth of the current scope.
    pub open spec fn depth(self) -> int {
        self.scopes.len() - 1
    }

    /// Where `name` resolves to: the innermost scope that has a variable of
    /// that name, and the index of the variable in it.
    pub open spec fn resolve(self, name: Seq<char>) -> Option<(int, int)> {
        resolve_in(self.scopes, name, self.scopes.len())
    }

    /// Where `r` resolves to.
    pub open spec fn resolve_ref(self, r: Ref) -> Option<(int, int)> {
        resolve_ref_in(self.scopes, r, self.scopes.len())
    }

    /// The callable that `r` names.
    pub open spec fn callable(self, r: FnRef) -> Option<CallableView> {
        callable_in(self.scopes, r, self.scopes.len())
    }

    /// The state with a new, empty current scope called `name`.
    pub open spec fn push_scope(self, name: Seq<char>) -> State {
        State { scopes: self.scopes.push(ScopeView::empty(name)), ..self }
    }

    /// The state without its current scope.
    pub open spec fn pop_scope(self) -> State {
        State { scopes: self.scopes.drop_last(), ..self }
    }

    /// The state with a new variable in the current scope.
    pub open spec fn bind(self, name: Seq<char>, value: ValueView) -> State {
        State {
            scopes: self.scopes.update(
                self.scopes.len() - 1,
                self.scopes.last().bind(name, Ref(self.refs.next), value),
            ),
            refs: self.refs.after(),
            ..self
        }
    }

    /// The state with the value of one variable replaced.
    pub open spec fn assign(self, scope: int, index: int, value: ValueView) -> State {
        State { scopes: self.scopes.update(scope, self.scopes[scope].assign(index, value)), ..self }
    }

    /// The state after `callable` has been registered under `name` in the
    /// scope at index `scope`: a fresh reference for the callable, and a new
    /// variable called `name` that holds it.
    pub open spec fn register(self, scope: int, name: Seq<char>, callable: CallableView) -> State {
        State {
            scopes: self.scopes.update(
                scope,
                self.scopes[scope].register(
                    name,
                    FnRef { fn_ref: Ref(self.refs.next) },
                    Ref(self.refs.after().next),
                    callable,
                ),
            ),
            refs: self.refs.after().after(),
            ..self
        }
    }

    /// The state after the script function `def` has been registered in the
    /// current scope.
    pub open spec fn define(self, def: FnDef) -> State {
        self.register(
            self.scopes.len() - 1,
            def.ident.name@,
            CallableView::Script { def, hash: content_hash(def) },
        )
    }

    /// The state after a host function that gives `gives` has been
    /// registered as `name` in the global scope.
    pub open spec fn provide(self, name: Seq<char>, gives: Gives) -> State {
        self.register(0, name, CallableView::Native { name, gives })
    }

    /// The answer that the host gives next.
    pub open spec fn next_answer(self, ans: Seq<HostAnswer>) -> HostAnswer {
        ans[self.trace.len() as int]
    }

    /// The state after `request` was put to the host and answered.
    pub open spec fn record(self, request: HostRequest, answer: HostAnswer) -> State {
        State { trace: self.trace.push(HostCall { request, answer }), ..self }
    }
}

/// The outcome of a binary operator whose operands are `l` and `r`.
pub open spec fn finish_bin_op(
    st: State,
    kind: BinOpKind,
    l: ValueView,
    r: ValueView,
    ans: Seq<HostAnswer>,
) -> Outcome {
    match bin_op_plan(kind, l, r) {
        BinOpPlan::Done(res) => (st, lift_runtime(res)),
        BinOpPlan::Arith { kind, left, right } => {
            let answer = st.next_answer(ans);
            (
                st.record(HostRequest::FloatArith { kind, left, right }, answer),
                Ok(ValueView::Float(answer.number())),
            )
        },
        BinOpPlan::Compare { kind, left, right } => {
            let answer = st.next_answer(ans);
            (
                st.record(HostRequest::FloatCompare { kind, left, right }, answer),
                Ok(ValueView::Bool(answer.flag())),
            )
        },
    }
}

/// The outcome of a shell-command substitution.
pub open spec fn run_command(st: State, command: Seq<char>, ans: Seq<HostAnswer>) -> Outcome {
    let answer = st.next_answer(ans);
    let st1 = st.record(HostRequest::Command { command }, answer);
    match answer.command() {
        Ok(text) => (st1, Ok(ValueView::Str(text))),
        Err(e) => (st1, Err(ErrorView::Command(e))),
    }
}

/// The outcome of calling the host function registered as `name` with the
/// evaluated arguments `args`.
pub open spec fn call_native(
    st: State,
    name: Seq<char>,
    gives: Gives,
    args: Seq<ValueView>,
    ans: Seq<HostAnswer>,
) -> Outcome {
    let answer = st.next_answer(ans);
    (st.record(HostRequest::Native { name, args, gives }, answer), lift_runtime(answer.native()))
}

/// The outcome of reading the variable `name`.
pub open spec fn read_var(st: State, name: Seq<char>) -> Outcome {
    match st.resolve(name) {
        Some((s, i)) => (st, Ok(st.scopes[s].vars[i].value)),
        None => fail(st, RuntimeErrorView::IdentNotFound(name)),
    }
}

/// The outcome of assigning `value` to the nearest variable called `name`.
pub open spec fn write_var(st: State, name: Seq<char>, value: ValueView) -> Outcome {
    match st.resolve(name) {
        Some((s, i)) => (st.assign(s, i, value), Ok(ValueView::Unit)),
        None => fail(st, RuntimeErrorView::IdentNotFound(name)),
    }
}

/// The outcome of an expression.
pub open spec fn eval_expr(st: State, room: nat, expr: Expr, ans: Seq<HostAnswer>) -> Outcome
    decreases room, expr, 0nat,
{
    match expr.kind {
        ExprKind::Unit => (st, Ok(ValueView::Unit)),
        ExprKind::Literal(lit) => (st, Ok(ValueView::of_literal(lit.kind))),
        ExprKind::Ident(ident) => read_var(st, ident.name@),
        ExprKind::FnCall(call) => eval_fn(st, room, call, ans),
        ExprKind::Block(block) => eval_block(st, room, block, ans),
        ExprKind::Exec(exec) => run_command(st, exec.cmd@, ans),
        ExprKind::UnOp(op) => {
            let (s1, r1) = eval_expr(st, room, *op.expr, ans);
            match r1 {
                Ok(v) => (s1, lift_runtime(un_op(op.kind, v))),
                Err(e) => (s1, Err(e)),
            }
        },
        ExprKind::BinOp(op) => eval_bin_op(st, room, op, ans),
    }
}

/// The outcome of a binary operation: the left operand, then the right
/// operand, then the operator.
pub open spec fn eval_bin_op(st: State, room: nat, op: BinOpExpr, ans: Seq<HostAnswer>) -> Outcome
    decreases room, op, 0nat,
{
    let (s1, r1) = eval_expr(st, room, *op.left, ans);
    match r1 {
        Ok(l) => {
            let (s2, r2) = eval_expr(s1, room, *op.right, ans);
            match r2 {
                Ok(r) => finish_bin_op(s2, op.kind, l, r, ans),
                Err(e) => (s2, Err(e)),
            }
        },
        Err(e) => (s1, Err(e)),
    }
}

/// The outcome of a block: a fresh scope called `block`, the items in order,
/// and the scope left again. The value of a block is the unit value.
pub open spec fn eval_block(st: State, room: nat, block: Block, ans: Seq<HostAnswer>) -> Outcome
    decreases room, block, 0nat,
{
    if room == 0 {
        fail(st, RuntimeErrorView::MaxRecursionExceeded)
    } else {
        let (s1, r1) = eval_items(st.push_scope("block"@), (room - 1) as nat, block.items, 0, ans);
        match r1 {
            Ok(_) => (s1.pop_scope(), Ok(ValueView::Unit)),
            Err(e) => (s1, Err(e)),
        }
    }
}

/// The outcome of the items from index `from` on, in order. Their values are
/// dropped.
pub open spec fn eval_items(
    st: State,
    room: nat,
    items: Vec<Item>,
    from: nat,
    ans: Seq<HostAnswer>,
) -> Outcome
    decreases room, items, items.len() - from,
{
    if from >= items.len() {
        (st, Ok(ValueView::Unit))
    } else {
        let (s1, r1) = eval_item(st, room, items[from as int], ans);
        match r1 {
            Ok(_) => eval_items(s1, room, items, from + 1, ans),
            Err(e) => (s1, Err(e)),
        }
    }
}

/// The outcome of an item.
pub open spec fn eval_item(st: State, room: nat, item: Item, ans: Seq<HostAnswer>) -> Outcome
    decreases room, item, 0nat,
{
    match item.kind {
        ItemKind::FnDef(_) => (st, Ok(ValueView::Unit)),
        ItemKind::Stmt(stmt) => {
            let (s1, r1) = eval_expr(st, room, stmt.expr, ans);
            match r1 {
                Ok(v) => (s1.bind(stmt.ident.name@, v), Ok(ValueView::Unit)),
                Err(e) => (s1, Err(e)),
            }
        },
        ItemKind::Expr(expr) => eval_expr(st, room, expr, ans),
        ItemKind::Assign(assign) => {
            let (s1, r1) = eval_expr(st, room, assign.expr, ans);
            match r1 {
                Ok(v) => write_var(s1, assign.ident.name@, v),
                Err(e) => (s1, Err(e)),
            }
        },
        ItemKind::If(cond) => {
            let (s1, r1) = eval_expr(st, room, cond.cond, ans);
            match r1 {
                Ok(ValueView::Bool(true)) => eval_block(s1, room, cond.then_block, ans),
                Ok(ValueView::Bool(false)) => match cond.else_block {
                    Some(block) => eval_block(s1, room, block, ans),
                    None => (s1, Ok(ValueView::Unit)),
                },
                Ok(other) => fail(s1, other.mismatch("<if_cond>"@, "bool"@)),
                Err(e) => (s1, Err(e)),
            }
        },
        ItemKind::While(each) => eval_while(st, room, each, st.loop_limit as nat, ans),
        ItemKind::For(_) => fail(st, RuntimeErrorView::Unsupported("for loop"@)),
    }
}

/// The outcome of a loop that may still run its body `budget` times: the
/// condition, and while it is true, the body in a fresh scope and the loop
/// again.
pub open spec fn eval_while(
    st: State,
    room: nat,
    each: While,
    budget: nat,
    ans: Seq<HostAnswer>,
) -> Outcome
    decreases room, each, budget,
{
    let (s1, r1) = eval_expr(st, room, each.expr, ans);
    match r1 {
        Ok(ValueView::Bool(true)) => if budget == 0 {
            fail(s1, RuntimeErrorView::IterationLimitExceeded)
        } else {
            let (s2, r2) = eval_block(s1, room, each.block, ans);
            match r2 {
                Ok(_) => eval_while(s2, room, each, (budget - 1) as nat, ans),
                Err(e) => (s2, Err(e)),
            }
        },
        Ok(ValueView::Bool(false)) => (s1, Ok(ValueView::Unit)),
        Ok(other) => fail(s1, other.mismatch("<while_cond>"@, "bool"@)),
        Err(e) => (s1, Err(e)),
    }
}

/// The outcome of a call: the name must stand for a function reference, and
/// the reference for a callable.
pub open spec fn eval_fn(st: State, room: nat, call: FnCall, ans: Seq<HostAnswer>) -> Outcome
    decreases room, call, 1nat,
{
    match st.resolve(call.ident.name@) {
        None => fail(st, RuntimeErrorView::IdentNotFound(call.ident.name@)),
        Some((s, i)) => match st.scopes[s].vars[i].value {
            ValueView::Fn(r) => match st.callable(r) {
                Some(callable) => call_callable(st, room, callable, call, ans),
                None => fail(st, RuntimeErrorView::NullRefError(r.fn_ref)),
            },
            other => fail(st, other.mismatch(call.ident.name@, "fn"@)),
        },
    }
}

/// The outcome of calling `callable` at the call site `call`.
///
/// A host function gets the arguments, evaluated left to right in the
/// caller's scope, and its answer is the outcome. A script function must be
/// given as many arguments as it has parameters. A scope named after the call
/// site's identifier is entered; each argument in turn is evaluated with that
/// scope as the current one and bound to its parameter; the body's items are
/// evaluated; the scope is left. The value of the call is the unit value.
pub open spec fn call_callable(
    st: State,
    room: nat,
    callable: CallableView,
    call: FnCall,
    ans: Seq<HostAnswer>,
) -> Outcome
    decreases room, call, 0nat,
{
    match callable {
        CallableView::Native { name, gives } => {
            let (s1, r1) = eval_args(st, room, call.args, 0, Seq::empty(), ans);
            match r1 {
                Ok(args) => call_native(s1, name, gives, args, ans),
                Err(e) => (s1, Err(e)),
            }
        },
        CallableView::Script { def, hash } => if def.params.len() != call.args.len() {
            fail(
                st,
                RuntimeErrorView::ArgumentError {
                    ident: def.ident.name@,
                    expected: def.params.len(),
                    found: call.args.len(),
                },
            )
        } else if room == 0 {
            fail(st, RuntimeErrorView::MaxRecursionExceeded)
        } else {
            let (s1, r1) = bind_params(
                st.push_scope(call.ident.name@),
                (room - 1) as nat,
                def.params@,
                call.args,
                0,
                ans,
            );
            match r1 {
                Ok(_) => {
                    let (s2, r2) = eval_items(s1, (room - 1) as nat, def.body.items, 0, ans);
                    match r2 {
                        Ok(_) => (s2.pop_scope(), Ok(ValueView::Unit)),
                        Err(e) => (s2, Err(e)),
                    }
                },
                Err(e) => (s1, Err(e)),
            }
        },
    }
}

/// The outcome of evaluating the arguments from index `from` on, left to
/// right, given the values `done` of the arguments before.
pub open spec fn eval_args(
    st: State,
    room: nat,
    args: Vec<Expr>,
    from: nat,
    done: Seq<ValueView>,
    ans: Seq<HostAnswer>,
) -> (State, Result<Seq<ValueView>, ErrorView>)
    decreases room, args, args.len() - from,
{
    if from >= args.len() {
        (st, Ok(done))
    } else {
        let (s1, r1) = eval_expr(st, room, args[from as int], ans);
        match r1 {
            Ok(v) => eval_args(s1, room, args, from + 1, done.push(v), ans),
            Err(e) => (s1, Err(e)),
        }
    }
}

/// The outcome of binding the parameters from index `from` on: each argument
/// is evaluated in the current scope and bound to its parameter there.
pub open spec fn bind_params(
    st: State,
    room: nat,
    params: Seq<Ident>,
    args: Vec<Expr>,
    from: nat,
    ans: Seq<HostAnswer>,
) -> Outcome
    decreases room, args, args.len() - from,
{
    if from >= args.len() {
        (st, Ok(ValueView::Unit))
    } else {
        let (s1, r1) = eval_expr(st, room, args[from as int], ans);
        match r1 {
            Ok(v) => bind_params(s1.bind(params[from as int].name@, v), room, params, args, from + 1, ans),
            Err(e) => (s1, Err(e)),
        }
    }
}

/// The state after every function definition among the items from index
/// `from` on has been registered in the current scope, in source order.
/// Definitions nested in blocks or bodies are not looked at.
pub open spec fn hoist(st: State, items: Vec<Item>, from: nat) -> State
    decreases items.len() - from,
{
    if from >= items.len() {
        st
    } else {
        match items[from as int].kind {
            ItemKind::FnDef(def) => hoist(st.define(def), items, from + 1),
            _ => hoist(st, items, from + 1),
        }
    }
}

/// A host function as an engine provides it: the name it is registered
/// under and what it gives.
pub struct Provided {
    pub name: Seq<char>,
    pub gives: Gives,
}

/// The state after the host functions `provided[from]`, and so on, have been
/// registered in the global scope, in order.
pub open spec fn seed(st: State, provided: Seq<Provided>, from: nat) -> State
    decreases provided.len() - from,
{
    if from >= provided.len() {
        st
    } else {
        seed(
            st.provide(provided[from as int].name, provided[from as int].gives),
            provided,
            from + 1,
        )
    }
}

/// The outcome of a program: its top-level function definitions are
/// registered first, so that a call may stand before the definition; then its
/// items are evaluated from top to bottom.
pub open spec fn run_program(st: State, room: nat, tree: Tree, ans: Seq<HostAnswer>) -> Outcome {
    eval_items(hoist(st, tree.items, 0), room, tree.items, 0, ans)
}

/// The first `upto` items without the function definitions among them.
pub open spec fn statements(items: Vec<Item>, upto: nat) -> Seq<Item>
    decreases upto,
{
    if upto == 0 {
        Seq::empty()
    } else if items[upto - 1].kind is FnDef {
        statements(items, (upto - 1) as nat)
    } else {
        statements(items, (upto - 1) as nat).push(items[upto - 1])
    }
}

/// The statements of a shorter prefix are a prefix of the statements of a
/// longer one.
pub proof fn lemma_statements_grow(items: Vec<Item>, a: nat, b: nat)
    requires
        a <= b,
    ensures
        statements(items, a).len() <= statements(items, b).len(),
        forall|k: int|
            0 <= k < statements(items, a).len() ==> statements(items, a)[k] == statements(
                items,
                b,
            )[k],
    decreases b - a,
{
    if a < b {
        lemma_statements_grow(items, a, (b - 1) as nat);
    }
}

/// Function definitions evaluate to nothing, so evaluating a list of items
/// and evaluating its statements come to the same.
pub proof fn lemma_statements_suffice(
    st: State,
    room: nat,
    items: Vec<Item>,
    from: nat,
    rest: Vec<Item>,
    ans: Seq<HostAnswer>,
)
    requires
        from <= items.len(),
        rest@ == statements(items, items.len() as nat),
    ensures
        eval_items(st, room, items, from, ans) == eval_items(
            st,
            room,
            rest,
            statements(items, from).len(),
            ans,
        ),
    decreases items.len() - from,
{
    let k = statements(items, from).len();
    lemma_statements_grow(items, from, items.len() as nat);
    if from < items.len() {
        lemma_statements_grow(items, from + 1, items.len() as nat);
        let item = items[from as int];
        if item.kind is FnDef {
            assert(eval_item(st, room, item, ans) == (
                st,
                Ok::<ValueView, ErrorView>(ValueView::Unit),
            ));
            lemma_statements_suffice(st, room, items, from + 1, rest, ans);
        } else {
            assert(statements(items, from + 1) == statements(items, from).push(item));
            assert(rest[k as int] == item);
            let (s1, r1) = eval_item(st, room, item, ans);
            if r1 is Ok {
                lemma_statements_suffice(s1, room, items, from + 1, rest, ans);
            }
        }
    } else {
        assert(k == rest.len());
    }
}

} // verus!
