//! The evaluator: a scope stack and the functions that run syntax against it.

use vstd::prelude::*;
use std::ops::Deref;
use crate::ast::{
    BinOpExpr, BinOpKind, Block, Expr, ExprKind, FnCall, FnDef, Ident, Item, ItemKind, Tree, While,
};
use crate::error::{Error, ErrorView, EvalResult, RuntimeError, RuntimeErrorView, RuntimeResult};
use crate::func::{Callable, Hook};
use crate::model::{
    bind_params, call_callable, call_native, eval_args, eval_bin_op, eval_block, eval_expr,
    eval_fn, eval_item, eval_items, eval_while, finish_bin_op, read_var, run_command, write_var,
    hoist, lemma_statements_suffice, run_program, statements, State, MAX_DEPTH, MAX_ITERATIONS,
};
use crate::ops::{apply_un_op, plan_bin_op, Plan};
use crate::refs::{FnRef, Ref, RefSource};
use crate::scope::Scope;
use crate::shared::Shared;
use crate::trace::{
    agrees, answered, arg_views, command_answer, extends, honest, native_answer, stands_for, HostAnswer,
    HostCall, HostRequest, Platform,
};
use crate::value::{Value, ValueView};
use crate::var::Variable;

verus! {

broadcast use {vstd::std_specs::vec::group_vec_axioms, crate::trace::group_trace};

/// The state of a running program, on a platform `P`.
///
/// `scopes[0]` is the global scope and `scopes[depth]` the current one.
/// Scopes above the current one are spare: they are emptied before they are
/// used again, and nothing ever reads them.
pub struct Context<P: Platform> {
    scopes: Vec<Scope>,
    depth: usize,
    refs: RefSource,
    platform: P,
    loop_limit: u64,
    trace: Ghost<Seq<HostCall>>,
}

/// The view of an evaluation's result.
pub open spec fn outcome(r: EvalResult<Value>) -> Result<ValueView, ErrorView> {
    match r {
        Ok(v) => Ok(v@),
        Err(e) => Err(e@),
    }
}

impl<P: Platform> Context<P> {
    /// The current scope exists, its depth is below the limit, and every
    /// call of a host function in the trace was answered by that function.
    pub closed spec fn wf(&self) -> bool {
        &&& self.depth < self.scopes.len()
        &&& self.depth < MAX_DEPTH
        &&& honest(self.trace@)
    }

    /// In the trace of a well-formed context, every call of a host function
    /// was answered by that function.
    pub proof fn lemma_trace_is_honest(&self)
        requires
            self.wf(),
        ensures
            honest(self@.trace),
    {
    }

    /// The live scopes, the reference counter and the trace.
    pub closed spec fn view(&self) -> State {
        State {
            scopes: Seq::new((self.depth + 1) as nat, |i: int| self.scopes[i]@),
            refs: self.refs,
            trace: self.trace@,
            loop_limit: self.loop_limit,
        }
    }

    /// The number of scopes that can still be entered.
    pub open spec fn room(&self) -> nat {
        (MAX_DEPTH - self@.scopes.len()) as nat
    }

    /// A well-formed context has at least the global scope, and no more
    /// scopes than the depth limit allows.
    pub proof fn lemma_depth_in_range(&self)
        requires
            self.wf(),
        ensures
            1 <= self@.scopes.len() <= MAX_DEPTH,
    {
    }

    /// A fresh interpreter on `platform`: an empty global scope at depth 0.
    pub fn new(platform: P) -> (r: Self)
        ensures
            r.wf(),
            r@ == State::initial(),
    {
        Context::with_loop_limit(platform, MAX_ITERATIONS)
    }

    /// A fresh interpreter on `platform` in which the body of one loop is
    /// run at most `loop_limit` times.
    pub fn with_loop_limit(platform: P, loop_limit: u64) -> (r: Self)
        ensures
            r.wf(),
            r@ == (State { loop_limit, ..State::initial() }),
    {
        let mut scopes: Vec<Scope> = Vec::with_capacity(8);
        scopes.push(Scope::new_global());
        let r = Context {
            scopes,
            depth: 0,
            refs: RefSource::new(),
            platform,
            loop_limit,
            trace: Ghost(Seq::empty()),
        };
        assert(r@.scopes =~= State::initial().scopes);
        r
    }

    /// The platform of this interpreter.
    pub closed spec fn host(&self) -> P {
        self.platform
    }

    /// The platform of this interpreter.
    pub fn platform(&self) -> (r: &P)
        ensures
            *r == self.host(),
    {
        &self.platform
    }

    /// The depth of the current scope; the global scope has depth 0.
    pub fn depth(&self) -> (r: usize)
        requires
            self.wf(),
        ensures
            r == self@.depth(),
    {
        self.depth
    }

    /// The global scope.
    pub fn global(&self) -> (r: &Scope)
        requires
            self.wf(),
        ensures
            r@ == self@.scopes[0],
    {
        &self.scopes[0]
    }

    /// The current scope.
    pub fn current(&self) -> (r: &Scope)
        requires
            self.wf(),
        ensures
            r@ == self@.scopes.last(),
    {
        &self.scopes[self.depth]
    }

    /// Enters a new, empty scope called `name`, unless its depth would reach
    /// the bound: the depth of every scope stays strictly below `MAX_DEPTH`.
    pub fn enter_scope(&mut self, name: &str) -> (r: RuntimeResult<()>)
        requires
            old(self).wf(),
        ensures
            final(self).wf(),
            r is Ok <==> old(self)@.depth() + 1 < MAX_DEPTH,
            match r {
                Ok(_) => old(self).room() > 0 && final(self)@ == old(self)@.push_scope(name@),
                Err(e) => old(self).room() == 0 && e@ == RuntimeErrorView::MaxRecursionExceeded
                    && final(self)@ == old(self)@,
            },
    {
        if self.depth + 1 >= MAX_DEPTH {
            return Err(RuntimeError::MaxRecursionExceeded);
        }
        let new = self.depth + 1;
        if self.scopes.len() <= new {
            self.scopes.push(Scope::new(name));
        } else {
            self.scopes[new].clear(name);
        }
        self.depth = new;
        assert(self@.scopes =~= old(self)@.push_scope(name@).scopes);
        Ok(())
    }

    /// Leaves the current scope. Its variables and callables are gone.
    pub fn pop_scope(&mut self)
        requires
            old(self).wf(),
            old(self)@.depth() > 0,
        ensures
            final(self).wf(),
            final(self)@ == old(self)@.pop_scope(),
    {
        self.depth = self.depth - 1;
        assert(self@.scopes =~= old(self)@.pop_scope().scopes);
    }

    /// Creates a variable called `name` in the current scope.
    pub fn bind(&mut self, name: &str, value: Value) -> (r: Ref)
        requires
            old(self).wf(),
        ensures
            final(self).wf(),
            r == Ref(old(self)@.refs.next),
            final(self)@ == old(self)@.bind(name@, value@),
            final(self)@.scopes.len() == old(self)@.scopes.len(),
    {
        let depth = self.depth;
        let r = self.scopes[depth].new_var(&mut self.refs, name, value);
        assert(self@.scopes =~= old(self)@.bind(name@, value@).scopes);
        r
    }
}

impl<P: Platform> Context<P> {
    /// Where `name` resolves to: the index of the innermost scope that has a
    /// variable of that name, and the index of the variable in it.
    pub fn locate(&self, name: &String) -> (r: Option<(usize, usize)>)
        requires
            self.wf(),
        ensures
            match r {
                Some((s, i)) => self@.resolve(name@) == Some((s as int, i as int)) && s
                    < self@.scopes.len() && i < self@.scopes[s as int].vars.len(),
                None => self@.resolve(name@) is None,
            },
    {
        let mut s: usize = self.depth + 1;
        while s > 0
            invariant
                self.wf(),
                s <= self.depth + 1,
                self@.resolve(name@) == crate::model::resolve_in(self@.scopes, name@, s as nat),
            decreases s,
        {
            match self.scopes[s - 1].find(name) {
                Some(i) => {
                    return Some((s - 1, i));
                },
                None => {},
            }
            s = s - 1;
        }
        None
    }

    /// The nearest variable called `name`, from the current scope outward.
    pub fn search(&self, name: &str) -> (r: RuntimeResult<&Variable>)
        requires
            self.wf(),
        ensures
            match r {
                Ok(var) => self@.resolve(name@) matches Some((s, i)) && var@
                    == self@.scopes[s].vars[i],
                Err(e) => self@.resolve(name@) is None && e@ == RuntimeErrorView::IdentNotFound(
                    name@,
                ),
            },
    {
        let key = name.to_owned();
        match self.locate(&key) {
            Some((s, i)) => Ok(&self.scopes[s].vars[i]),
            None => Err(RuntimeError::IdentNotFound(key)),
        }
    }

    /// Replaces the value of the nearest variable called `name`.
    pub fn assign(&mut self, name: &String, value: Value) -> (r: RuntimeResult<()>)
        requires
            old(self).wf(),
        ensures
            final(self).wf(),
            match r {
                Ok(_) => write_var(old(self)@, name@, value@) == (
                    final(self)@,
                    Ok::<ValueView, ErrorView>(ValueView::Unit),
                ),
                Err(e) => write_var(old(self)@, name@, value@) == (
                    final(self)@,
                    Err::<ValueView, ErrorView>(ErrorView::Runtime(e@)),
                ),
            },
            final(self)@.scopes.len() == old(self)@.scopes.len(),
            final(self)@.trace == old(self)@.trace,
    {
        match self.locate(name) {
            Some((s, i)) => {
                self.scopes[s].vars[i].update(value);
                assert(self@.scopes =~= old(self)@.assign(s as int, i as int, value@).scopes) by {
                    assert(self.scopes[s as int]@.vars =~= old(self).scopes[s as int]@.assign(
                        i as int,
                        value@,
                    ).vars);
                }
                Ok(())
            },
            None => Err(RuntimeError::IdentNotFound(name.clone())),
        }
    }

    /// The variable that `var_ref` identifies, from the current scope
    /// outward.
    pub fn get(&self, var_ref: Ref) -> (r: RuntimeResult<&Variable>)
        requires
            self.wf(),
        ensures
            match r {
                Ok(var) => self@.resolve_ref(var_ref) matches Some((s, i)) && var@
                    == self@.scopes[s].vars[i],
                Err(e) => self@.resolve_ref(var_ref) is None && e@
                    == RuntimeErrorView::NullRefError(var_ref),
            },
    {
        let mut s: usize = self.depth + 1;
        while s > 0
            invariant
                self.wf(),
                s <= self.depth + 1,
                self@.resolve_ref(var_ref) == crate::model::resolve_ref_in(
                    self@.scopes,
                    var_ref,
                    s as nat,
                ),
            decreases s,
        {
            match self.scopes[s - 1].search(&var_ref) {
                Ok(var) => {
                    return Ok(var);
                },
                Err(_) => {},
            }
            s = s - 1;
        }
        Err(RuntimeError::NullRefError(var_ref))
    }

    /// A handle to the callable that `fn_ref` names, from the current scope
    /// outward.
    pub fn get_fn(&self, fn_ref: FnRef) -> (r: RuntimeResult<Shared<Callable>>)
        requires
            self.wf(),
        ensures
            match r {
                Ok(callable) => self@.callable(fn_ref) == Some(callable@@),
                Err(e) => self@.callable(fn_ref) is None && e@ == RuntimeErrorView::NullRefError(
                    fn_ref.fn_ref,
                ),
            },
    {
        let mut s: usize = self.depth + 1;
        while s > 0
            invariant
                self.wf(),
                s <= self.depth + 1,
                self@.callable(fn_ref) == crate::model::callable_in(
                    self@.scopes,
                    fn_ref,
                    s as nat,
                ),
            decreases s,
        {
            match self.scopes[s - 1].get_fn(fn_ref) {
                Ok(callable) => {
                    return Ok(callable);
                },
                Err(_) => {},
            }
            s = s - 1;
        }
        Err(RuntimeError::NullRefError(fn_ref.inner()))
    }
}

impl<P: Platform> Context<P> {
    /// Reads the nearest variable called `name`: a copy of its value.
    pub fn read(&self, name: &String) -> (r: EvalResult<Value>)
        requires
            self.wf(),
        ensures
            read_var(self@, name@) == (self@, outcome(r)),
    {
        match self.locate(name) {
            Some((s, i)) => Ok(self.scopes[s].vars[i].value()),
            None => Err(Error::Runtime(RuntimeError::IdentNotFound(name.clone()))),
        }
    }

    /// Runs a shell command on the platform and yields its output as text.
    pub fn exec(&mut self, command: &String) -> (r: EvalResult<Value>)
        requires
            old(self).wf(),
        ensures
            final(self).wf(),
            extends(final(self)@.trace, old(self)@.trace),
            final(self)@.scopes == old(self)@.scopes,
            forall|ans: Seq<HostAnswer>| #[trigger]
                agrees(ans, final(self)@.trace) ==> run_command(old(self)@, command@, ans) == (
                    final(self)@,
                    outcome(r),
                ),
    {
        let answer = self.platform.run_command(command.as_str());
        self.trace = Ghost(
            self.trace@.push(
                HostCall {
                    request: HostRequest::Command { command: command@ },
                    answer: command_answer(answer),
                },
            ),
        );
        match answer {
            Ok(text) => Ok(Value::Str(Shared::new(text))),
            Err(e) => Err(Error::Command(e)),
        }
    }

    /// Applies a binary operator to two values. Integer, truth-value and
    /// equality operations are decided here; operations on two
    /// floating-point numbers are handed to the platform.
    pub fn apply_bin_op(&mut self, kind: BinOpKind, left: Value, right: Value) -> (r: EvalResult<
        Value,
    >)
        requires
            old(self).wf(),
        ensures
            final(self).wf(),
            extends(final(self)@.trace, old(self)@.trace),
            final(self)@.scopes == old(self)@.scopes,
            forall|ans: Seq<HostAnswer>| #[trigger]
                agrees(ans, final(self)@.trace) ==> finish_bin_op(
                    old(self)@,
                    kind,
                    left@,
                    right@,
                    ans,
                ) == (final(self)@, outcome(r)),
    {
        match plan_bin_op(kind, left, right) {
            Plan::Done(Ok(v)) => Ok(v),
            Plan::Done(Err(e)) => Err(Error::Runtime(e)),
            Plan::Arith { kind, left, right } => {
                let number = self.platform.float_arith(kind, left, right);
                self.trace = Ghost(
                    self.trace@.push(
                        HostCall {
                            request: HostRequest::FloatArith { kind, left, right },
                            answer: HostAnswer::Number(number),
                        },
                    ),
                );
                Ok(Value::Float(number))
            },
            Plan::Compare { kind, left, right } => {
                let flag = self.platform.float_compare(kind, left, right);
                self.trace = Ghost(
                    self.trace@.push(
                        HostCall {
                            request: HostRequest::FloatCompare { kind, left, right },
                            answer: HostAnswer::Flag(flag),
                        },
                    ),
                );
                Ok(Value::Bool(flag))
            },
        }
    }

    /// Evaluates an expression.
    pub fn eval_expr(&mut self, expr: &Expr) -> (r: EvalResult<Value>)
        requires
            old(self).wf(),
        ensures
            final(self).wf(),
            extends(final(self)@.trace, old(self)@.trace),
            r is Ok ==> final(self)@.scopes.len() == old(self)@.scopes.len(),
            forall|ans: Seq<HostAnswer>| #[trigger]
                agrees(ans, final(self)@.trace) ==> eval_expr(
                    old(self)@,
                    old(self).room(),
                    *expr,
                    ans,
                ) == (final(self)@, outcome(r)),
        decreases old(self).room(), *expr, 0nat,
    {
        match &expr.kind {
            ExprKind::Unit => Ok(Value::Unit),
            ExprKind::Literal(lit) => Ok(Value::from_literal(lit)),
            ExprKind::Ident(ident) => self.read(&ident.name),
            ExprKind::FnCall(call) => self.eval_fn(call),
            ExprKind::Block(block) => self.eval_block(block),
            ExprKind::Exec(exec) => self.exec(&exec.cmd),
            ExprKind::UnOp(op) => {
                match self.eval_expr(&op.expr) {
                    Ok(v) => match apply_un_op(op.kind, v) {
                        Ok(out) => Ok(out),
                        Err(e) => Err(Error::Runtime(e)),
                    },
                    Err(e) => Err(e),
                }
            },
            ExprKind::BinOp(op) => self.eval_bin_op(op),
        }
    }

    /// Evaluates a binary operation: the left operand, then the right
    /// operand, then the operator.
    pub fn eval_bin_op(&mut self, bin_op: &BinOpExpr) -> (r: EvalResult<Value>)
        requires
            old(self).wf(),
        ensures
            final(self).wf(),
            extends(final(self)@.trace, old(self)@.trace),
            r is Ok ==> final(self)@.scopes.len() == old(self)@.scopes.len(),
            forall|ans: Seq<HostAnswer>| #[trigger]
                agrees(ans, final(self)@.trace) ==> eval_bin_op(
                    old(self)@,
                    old(self).room(),
                    *bin_op,
                    ans,
                ) == (final(self)@, outcome(r)),
        decreases old(self).room(), *bin_op, 0nat,
    {
        let left = match self.eval_expr(&bin_op.left) {
            Ok(v) => v,
            Err(e) => {
                return Err(e);
            },
        };
        let right = match self.eval_expr(&bin_op.right) {
            Ok(v) => v,
            Err(e) => {
                return Err(e);
            },
        };
        self.apply_bin_op(bin_op.kind, left, right)
    }

    /// Evaluates a block in a fresh scope called `block`. Bindings made in
    /// the block end with it; the value of a block is the unit value.
    pub fn eval_block(&mut self, block: &Block) -> (r: EvalResult<Value>)
        requires
            old(self).wf(),
        ensures
            final(self).wf(),
            extends(final(self)@.trace, old(self)@.trace),
            r is Ok ==> final(self)@.scopes.len() == old(self)@.scopes.len(),
            forall|ans: Seq<HostAnswer>| #[trigger]
                agrees(ans, final(self)@.trace) ==> eval_block(
                    old(self)@,
                    old(self).room(),
                    *block,
                    ans,
                ) == (final(self)@, outcome(r)),
        decreases old(self).room(), *block, 0nat,
    {
        match self.enter_scope("block") {
            Ok(_) => {},
            Err(e) => {
                return Err(Error::Runtime(e));
            },
        }
        match self.eval_items(&block.items) {
            Ok(_) => {},
            Err(e) => {
                return Err(e);
            },
        }
        self.pop_scope();
        Ok(Value::Unit)
    }

    /// Evaluates items in order and drops their values.
    pub fn eval_items(&mut self, items: &Vec<Item>) -> (r: EvalResult<Value>)
        requires
            old(self).wf(),
        ensures
            final(self).wf(),
            r matches Ok(v) ==> v@ == ValueView::Unit,
            extends(final(self)@.trace, old(self)@.trace),
            r is Ok ==> final(self)@.scopes.len() == old(self)@.scopes.len(),
            forall|ans: Seq<HostAnswer>| #[trigger]
                agrees(ans, final(self)@.trace) ==> eval_items(
                    old(self)@,
                    old(self).room(),
                    *items,
                    0,
                    ans,
                ) == (final(self)@, outcome(r)),
        decreases old(self).room(), *items, items.len(),
    {
        let mut i: usize = 0;
        while i < items.len()
            invariant
                i <= items.len(),
                self.wf(),
                self@.scopes.len() == old(self)@.scopes.len(),
                extends(self@.trace, old(self)@.trace),
                forall|ans: Seq<HostAnswer>| #[trigger]
                    agrees(ans, self@.trace) ==> eval_items(
                        old(self)@,
                        old(self).room(),
                        *items,
                        0,
                        ans,
                    ) == eval_items(self@, self.room(), *items, i as nat, ans),
            decreases items.len() - i,
        {
            match self.eval_item(&items[i]) {
                Ok(_) => {},
                Err(e) => {
                    return Err(e);
                },
            }
            i = i + 1;
        }
        Ok(Value::Unit)
    }

    /// Evaluates an item.
    pub fn eval_item(&mut self, item: &Item) -> (r: EvalResult<Value>)
        requires
            old(self).wf(),
        ensures
            final(self).wf(),
            extends(final(self)@.trace, old(self)@.trace),
            r is Ok ==> final(self)@.scopes.len() == old(self)@.scopes.len(),
            forall|ans: Seq<HostAnswer>| #[trigger]
                agrees(ans, final(self)@.trace) ==> eval_item(
                    old(self)@,
                    old(self).room(),
                    *item,
                    ans,
                ) == (final(self)@, outcome(r)),
        decreases old(self).room(), *item, 0nat,
    {
        match &item.kind {
            ItemKind::FnDef(_) => Ok(Value::Unit),
            ItemKind::Stmt(stmt) => {
                match self.eval_expr(&stmt.expr) {
                    Ok(v) => {
                        self.bind(stmt.ident.name.as_str(), v);
                        Ok(Value::Unit)
                    },
                    Err(e) => Err(e),
                }
            },
            ItemKind::Expr(expr) => self.eval_expr(expr),
            ItemKind::Assign(assign) => {
                match self.eval_expr(&assign.expr) {
                    Ok(v) => match self.assign(&assign.ident.name, v) {
                        Ok(_) => Ok(Value::Unit),
                        Err(e) => Err(Error::Runtime(e)),
                    },
                    Err(e) => Err(e),
                }
            },
            ItemKind::If(cond) => {
                let v = match self.eval_expr(&cond.cond) {
                    Ok(v) => v,
                    Err(e) => {
                        return Err(e);
                    },
                };
                match v.rt_cast::<bool>("<if_cond>") {
                    Ok(true) => self.eval_block(&cond.then_block),
                    Ok(false) => match &cond.else_block {
                        Some(block) => self.eval_block(block),
                        None => Ok(Value::Unit),
                    },
                    Err(e) => Err(Error::Runtime(e)),
                }
            },
            ItemKind::While(each) => self.eval_while(each),
            ItemKind::For(_) => Err(
                Error::Runtime(RuntimeError::Unsupported("for loop".to_owned())),
            ),
        }
    }

    /// Evaluates a loop: the condition, and while it is true, the body in a
    /// fresh scope.
    pub fn eval_while(&mut self, each: &While) -> (r: EvalResult<Value>)
        requires
            old(self).wf(),
        ensures
            final(self).wf(),
            extends(final(self)@.trace, old(self)@.trace),
            r is Ok ==> final(self)@.scopes.len() == old(self)@.scopes.len(),
            forall|ans: Seq<HostAnswer>| #[trigger]
                agrees(ans, final(self)@.trace) ==> eval_while(
                    old(self)@,
                    old(self).room(),
                    *each,
                    old(self)@.loop_limit as nat,
                    ans,
                ) == (final(self)@, outcome(r)),
        decreases old(self).room(), *each, 0nat,
    {
        let mut budget: u64 = self.loop_limit;
        loop
            invariant
                self.wf(),
                self@.scopes.len() == old(self)@.scopes.len(),
                extends(self@.trace, old(self)@.trace),
                forall|ans: Seq<HostAnswer>| #[trigger]
                    agrees(ans, self@.trace) ==> eval_while(
                        old(self)@,
                        old(self).room(),
                        *each,
                        old(self)@.loop_limit as nat,
                        ans,
                    ) == eval_while(self@, self.room(), *each, budget as nat, ans),
            decreases budget,
        {
            let v = match self.eval_expr(&each.expr) {
                Ok(v) => v,
                Err(e) => {
                    return Err(e);
                },
            };
            match v.rt_cast::<bool>("<while_cond>") {
                Ok(true) => {},
                Ok(false) => {
                    return Ok(Value::Unit);
                },
                Err(e) => {
                    return Err(Error::Runtime(e));
                },
            }
            if budget == 0 {
                return Err(Error::Runtime(RuntimeError::IterationLimitExceeded));
            }
            match self.eval_block(&each.block) {
                Ok(_) => {},
                Err(e) => {
                    return Err(e);
                },
            }
            budget = budget - 1;
        }
    }

    /// Evaluates a call: resolves the name to a function reference and the
    /// reference to a callable, and calls it.
    pub fn eval_fn(&mut self, fn_call: &FnCall) -> (r: EvalResult<Value>)
        requires
            old(self).wf(),
        ensures
            final(self).wf(),
            extends(final(self)@.trace, old(self)@.trace),
            r is Ok ==> final(self)@.scopes.len() == old(self)@.scopes.len(),
            forall|ans: Seq<HostAnswer>| #[trigger]
                agrees(ans, final(self)@.trace) ==> eval_fn(
                    old(self)@,
                    old(self).room(),
                    *fn_call,
                    ans,
                ) == (final(self)@, outcome(r)),
        decreases old(self).room(), *fn_call, 1nat,
    {
        let fn_ref = match self.locate(&fn_call.ident.name) {
            Some((s, i)) => {
                match self.scopes[s].vars[i].value_ref().cast_ref::<FnRef>() {
                    Ok(fn_ref) => *fn_ref,
                    Err(found) => {
                        return Err(
                            Error::Runtime(
                                RuntimeError::type_error(
                                    fn_call.ident.name.as_str(),
                                    "fn",
                                    found.ty_name(),
                                ),
                            ),
                        );
                    },
                }
            },
            None => {
                return Err(
                    Error::Runtime(RuntimeError::IdentNotFound(fn_call.ident.name.clone())),
                );
            },
        };
        let callable = match self.get_fn(fn_ref) {
            Ok(callable) => callable,
            Err(e) => {
                return Err(Error::Runtime(e));
            },
        };
        callable.deref().call(self, fn_call)
    }

    /// Evaluates the arguments of a call from left to right.
    pub fn eval_args(&mut self, args: &Vec<Expr>) -> (r: EvalResult<Vec<Value>>)
        requires
            old(self).wf(),
        ensures
            final(self).wf(),
            extends(final(self)@.trace, old(self)@.trace),
            r is Ok ==> final(self)@.scopes.len() == old(self)@.scopes.len(),
            forall|ans: Seq<HostAnswer>| #[trigger]
                agrees(ans, final(self)@.trace) ==> eval_args(
                    old(self)@,
                    old(self).room(),
                    *args,
                    0,
                    Seq::empty(),
                    ans,
                ) == (
                    final(self)@,
                    match r {
                        Ok(values) => Ok::<Seq<ValueView>, ErrorView>(arg_views(values@)),
                        Err(e) => Err::<Seq<ValueView>, ErrorView>(e@),
                    },
                ),
        decreases old(self).room(), *args, args.len(),
    {
        let mut values: Vec<Value> = Vec::with_capacity(args.len());
        let mut i: usize = 0;
        assert(arg_views(values@) =~= Seq::empty());
        while i < args.len()
            invariant
                i <= args.len(),
                self.wf(),
                self@.scopes.len() == old(self)@.scopes.len(),
                extends(self@.trace, old(self)@.trace),
                forall|ans: Seq<HostAnswer>| #[trigger]
                    agrees(ans, self@.trace) ==> eval_args(
                        old(self)@,
                        old(self).room(),
                        *args,
                        0,
                        Seq::empty(),
                        ans,
                    ) == eval_args(self@, self.room(), *args, i as nat, arg_views(values@), ans),
            decreases args.len() - i,
        {
            let ghost before = arg_views(values@);
            match self.eval_expr(&args[i]) {
                Ok(v) => {
                    values.push(v);
                    assert(arg_views(values@) =~= before.push(v@));
                },
                Err(e) => {
                    return Err(e);
                },
            }
            i = i + 1;
        }
        Ok(values)
    }

    /// Calls a host function with evaluated arguments and records the
    /// exchange.
    pub fn call_native(&mut self, native: &crate::func::NativeFn, args: Vec<Value>) -> (r:
        EvalResult<Value>)
        requires
            old(self).wf(),
        ensures
            final(self).wf(),
            extends(final(self)@.trace, old(self)@.trace),
            final(self)@.scopes == old(self)@.scopes,
            forall|ans: Seq<HostAnswer>| #[trigger]
                agrees(ans, final(self)@.trace) ==> call_native(
                    old(self)@,
                    native.name@,
                    native.gives(),
                    arg_views(args@),
                    ans,
                ) == (final(self)@, outcome(r)),
    {
        let ghost handed = args@;
        let answer = native.call(args);
        let ghost exchange = HostCall {
            request: HostRequest::Native {
                name: native.name@,
                args: arg_views(handed),
                gives: native.gives(),
            },
            answer: native_answer(answer),
        };
        proof {
            assert(stands_for(
                exchange.request->gives,
                exchange.request->name,
                exchange.request->args,
                exchange.answer,
                handed,
                answer,
            ));
            assert(answered(exchange));
        }
        self.trace = Ghost(self.trace@.push(exchange));
        match answer {
            Ok(v) => Ok(v),
            Err(e) => Err(Error::Runtime(e)),
        }
    }

    /// Binds the parameters of a script function in the current scope: each
    /// argument in turn is evaluated and bound to its parameter.
    pub fn bind_params(&mut self, params: &Vec<Ident>, args: &Vec<Expr>) -> (r: EvalResult<Value>)
        requires
            old(self).wf(),
            params.len() == args.len(),
        ensures
            final(self).wf(),
            extends(final(self)@.trace, old(self)@.trace),
            r is Ok ==> final(self)@.scopes.len() == old(self)@.scopes.len(),
            forall|ans: Seq<HostAnswer>| #[trigger]
                agrees(ans, final(self)@.trace) ==> bind_params(
                    old(self)@,
                    old(self).room(),
                    params@,
                    *args,
                    0,
                    ans,
                ) == (final(self)@, outcome(r)),
        decreases old(self).room(), *args, args.len(),
    {
        let mut i: usize = 0;
        while i < args.len()
            invariant
                i <= args.len(),
                params.len() == args.len(),
                self.wf(),
                self@.scopes.len() == old(self)@.scopes.len(),
                extends(self@.trace, old(self)@.trace),
                forall|ans: Seq<HostAnswer>| #[trigger]
                    agrees(ans, self@.trace) ==> bind_params(
                        old(self)@,
                        old(self).room(),
                        params@,
                        *args,
                        0,
                        ans,
                    ) == bind_params(self@, self.room(), params@, *args, i as nat, ans),
            decreases args.len() - i,
        {
            match self.eval_expr(&args[i]) {
                Ok(v) => {
                    self.bind(params[i].name.as_str(), v);
                },
                Err(e) => {
                    return Err(e);
                },
            }
            i = i + 1;
        }
        Ok(Value::Unit)
    }
}

impl Callable {
    /// Calls the callable at the call site `fn_call`.
    ///
    /// A host function gets the arguments, evaluated left to right, under the
    /// name it was registered with; what it returns is the result. A script
    /// function must be given as many arguments as it has parameters; its
    /// body runs in a scope of its own, and the call yields the unit value.
    pub fn call<P: Platform>(&self, ctx: &mut Context<P>, fn_call: &FnCall) -> (r: EvalResult<
        Value,
    >)
        requires
            old(ctx).wf(),
        ensures
            final(ctx).wf(),
            extends(final(ctx)@.trace, old(ctx)@.trace),
            r is Ok ==> final(ctx)@.scopes.len() == old(ctx)@.scopes.len(),
            forall|ans: Seq<HostAnswer>| #[trigger]
                agrees(ans, final(ctx)@.trace) ==> call_callable(
                    old(ctx)@,
                    old(ctx).room(),
                    self@,
                    *fn_call,
                    ans,
                ) == (final(ctx)@, outcome(r)),
        decreases old(ctx).room(), *fn_call, 0nat,
    {
        match self {
            Callable::Native(native) => {
                let args = match ctx.eval_args(&fn_call.args) {
                    Ok(args) => args,
                    Err(e) => {
                        return Err(e);
                    },
                };
                ctx.call_native(native, args)
            },
            Callable::Script(script) => {
                let def = &script.def;
                if def.params.len() != fn_call.args.len() {
                    return Err(
                        Error::Runtime(
                            RuntimeError::ArgumentError {
                                ident: def.ident.name.clone(),
                                expected: def.params.len(),
                                found: fn_call.args.len(),
                            },
                        ),
                    );
                }
                match ctx.enter_scope(fn_call.ident.name.as_str()) {
                    Ok(_) => {},
                    Err(e) => {
                        return Err(Error::Runtime(e));
                    },
                }
                match ctx.bind_params(&def.params, &fn_call.args) {
                    Ok(_) => {},
                    Err(e) => {
                        return Err(e);
                    },
                }
                match ctx.eval_items(&def.body.items) {
                    Ok(_) => {},
                    Err(e) => {
                        return Err(e);
                    },
                }
                ctx.pop_scope();
                Ok(Value::Unit)
            },
        }
    }
}

impl<P: Platform> Context<P> {
    /// Registers a script function in the current scope.
    pub fn define(&mut self, def: FnDef)
        requires
            old(self).wf(),
        ensures
            final(self).wf(),
            final(self)@ == old(self)@.define(def),
    {
        let depth = self.depth;
        self.scopes[depth].register_script_fn(&mut self.refs, def);
        assert(self@.scopes =~= old(self)@.define(def).scopes);
    }

    /// Registers the host function `func` as `name` in the global scope.
    pub fn provide(&mut self, name: &str, func: Hook)
        requires
            old(self).wf(),
        ensures
            final(self).wf(),
            final(self)@ == old(self)@.provide(name@, func.behaviour()),
    {
        self.scopes[0].register_boxed_external_fn(&mut self.refs, name, func);
        assert(self@.scopes =~= old(self)@.provide(name@, func.behaviour()).scopes);
    }

    /// Runs a program: registers its top-level function definitions in the
    /// current scope, then evaluates its items from top to bottom.
    pub fn run(&mut self, tree: Tree) -> (r: EvalResult<Value>)
        requires
            old(self).wf(),
        ensures
            final(self).wf(),
            r matches Ok(v) ==> v@ == ValueView::Unit,
            extends(final(self)@.trace, old(self)@.trace),
            r is Ok ==> final(self)@.scopes.len() == old(self)@.scopes.len(),
            forall|ans: Seq<HostAnswer>| #[trigger]
                agrees(ans, final(self)@.trace) ==> run_program(
                    old(self)@,
                    old(self).room(),
                    tree,
                    ans,
                ) == (final(self)@, outcome(r)),
    {
        let ghost items = tree.items;
        let mut rest: Vec<Item> = Vec::new();
        for item in it: tree.items
            invariant
                it.seq() == items@,
                self.wf(),
                self@.scopes.len() == old(self)@.scopes.len(),
                self@.trace == old(self)@.trace,
                hoist(old(self)@, items, 0) == hoist(self@, items, it.index() as nat),
                rest@ == statements(items, it.index() as nat),
        {
            assert(item == items[it.index() as int]);
            let Item { span, kind } = item;
            match kind {
                ItemKind::FnDef(def) => {
                    self.define(def);
                },
                other => {
                    rest.push(Item { span, kind: other });
                },
            }
        }
        let ghost hoisted = self@;
        let res = self.eval_items(&rest);
        proof {
            assert forall|ans: Seq<HostAnswer>| #[trigger] agrees(ans, self@.trace) implies run_program(
                old(self)@,
                old(self).room(),
                tree,
                ans,
            ) == (self@, outcome(res)) by {
                lemma_statements_suffice(hoisted, old(self).room(), items, 0, rest, ans);
            }
        }
        res
    }
}

} // verus!
