//! One activation frame: the variables and the callables that belong to it.

use vstd::prelude::*;
use vstd::string::StringExecFns;
use std::collections::BTreeMap;
use crate::ast::FnDef;
use crate::error::{RuntimeError, RuntimeErrorView, RuntimeResult};
use crate::func::{gives_of, Callable, CallableView, Hook, IntoHook};
use crate::hash::{content_hash, hash_definition};
use crate::refs::{FnRef, Ref, RefSource};
use crate::shared::Shared;
use crate::value::{Value, ValueView};
use crate::var::{Variable, VariableView};

verus! {

broadcast use {vstd::std_specs::btree::group_btree_axioms, vstd::laws_cmp::group_laws_cmp};

/// A scope of a running program.
///
/// Variables are kept in the order in which they were created. A lookup by
/// name finds the variable that was created last under that name, so binding
/// a name again shadows the earlier binding and is never an error.
pub struct Scope {
    pub name: String,
    pub fns: BTreeMap<usize, Shared<Callable>>,
    pub vars: Vec<Variable>,
}

/// The mathematical content of a [`Scope`].
pub struct ScopeView {
    /// The name shown in diagnostics: `global`, `block`, or a function name.
    pub name: Seq<char>,
    /// The variables, oldest first.
    pub vars: Seq<VariableView>,
    /// The callables, keyed by the integer of their reference.
    pub fns: Map<usize, CallableView>,
}

/// The index of the last of the first `upto` variables that is called `name`.
pub open spec fn last_named(vars: Seq<VariableView>, name: Seq<char>, upto: nat) -> Option<int>
    decreases upto,
{
    if upto == 0 {
        None
    } else if vars[upto - 1].name == name {
        Some(upto - 1)
    } else {
        last_named(vars, name, (upto - 1) as nat)
    }
}

/// The index of the last of the first `upto` variables that is identified by
/// `r`.
pub open spec fn last_with_ref(vars: Seq<VariableView>, r: Ref, upto: nat) -> Option<int>
    decreases upto,
{
    if upto == 0 {
        None
    } else if vars[upto - 1].var_ref == r {
        Some(upto - 1)
    } else {
        last_with_ref(vars, r, (upto - 1) as nat)
    }
}

impl ScopeView {
    /// A scope called `name` without variables and callables.
    pub open spec fn empty(name: Seq<char>) -> ScopeView {
        ScopeView { name, vars: Seq::empty(), fns: Map::empty() }
    }

    /// The index of the variable that `name` stands for.
    pub open spec fn position(self, name: Seq<char>) -> Option<int> {
        last_named(self.vars, name, self.vars.len())
    }

    /// The index of the variable that `r` identifies.
    pub open spec fn position_of(self, r: Ref) -> Option<int> {
        last_with_ref(self.vars, r, self.vars.len())
    }

    /// The scope with one more variable.
    pub open spec fn bind(self, name: Seq<char>, r: Ref, value: ValueView) -> ScopeView {
        ScopeView { vars: self.vars.push(VariableView { name, var_ref: r, value }), ..self }
    }

    /// The scope with the value of the variable at `index` replaced.
    pub open spec fn assign(self, index: int, value: ValueView) -> ScopeView {
        ScopeView {
            vars: self.vars.update(index, VariableView { value, ..self.vars[index] }),
            ..self
        }
    }

    /// The scope with `callable` stored under `r`.
    pub open spec fn install(self, r: FnRef, callable: CallableView) -> ScopeView {
        ScopeView { fns: self.fns.insert(r.fn_ref.0, callable), ..self }
    }

    /// The scope after `callable` has been registered under `name`, with the
    /// references `fn_ref` for the callable and `var_ref` for the variable
    /// that holds it.
    pub open spec fn register(
        self,
        name: Seq<char>,
        fn_ref: FnRef,
        var_ref: Ref,
        callable: CallableView,
    ) -> ScopeView {
        self.bind(name, var_ref, ValueView::Fn(fn_ref)).install(fn_ref, callable)
    }

    /// The callable stored under `r`, if there is one.
    pub open spec fn callable(self, r: FnRef) -> Option<CallableView> {
        if self.fns.contains_key(r.fn_ref.0) {
            Some(self.fns[r.fn_ref.0])
        } else {
            None
        }
    }

    /// Every callable of the scope is the value of some variable of the
    /// scope.
    pub open spec fn fns_bound(self) -> bool {
        forall|k: usize| #[trigger]
            self.fns.contains_key(k) ==> exists|i: int|
                0 <= i < self.vars.len() && (#[trigger] self.vars[i]).value == ValueView::Fn(
                    FnRef { fn_ref: Ref(k) },
                )
    }
}

/// An empty scope has no callable that is not bound to a variable.
pub proof fn lemma_empty_scope_is_bound(name: Seq<char>)
    ensures
        ScopeView::empty(name).fns_bound(),
{
}

/// Creating a variable keeps every callable of a scope bound to a variable:
/// the earlier variables stay, shadowed or not.
pub proof fn lemma_bind_keeps_bound(scope: ScopeView, name: Seq<char>, r: Ref, value: ValueView)
    requires
        scope.fns_bound(),
    ensures
        scope.bind(name, r, value).fns_bound(),
{
    let after = scope.bind(name, r, value);
    assert forall|k: usize| #[trigger] after.fns.contains_key(k) implies exists|i: int|
        0 <= i < after.vars.len() && (#[trigger] after.vars[i]).value == ValueView::Fn(
            FnRef { fn_ref: Ref(k) },
        ) by {
        assert(scope.fns.contains_key(k));
        let i = choose|i: int|
            0 <= i < scope.vars.len() && (#[trigger] scope.vars[i]).value == ValueView::Fn(
                FnRef { fn_ref: Ref(k) },
            );
        assert(after.vars[i] == scope.vars[i]);
    }
}

impl View for Scope {
    type V = ScopeView;

    open spec fn view(&self) -> ScopeView {
        ScopeView {
            name: self.name@,
            vars: self.vars@.map_values(|v: Variable| v@),
            fns: self.fns@.map_values(|c: Shared<Callable>| c@@),
        }
    }
}

impl Scope {
    /// An empty scope called `name`.
    pub fn new(name: &str) -> (r: Self)
        ensures
            r@ == ScopeView::empty(name@),
    {
        let r = Scope { name: name.to_owned(), fns: BTreeMap::new(), vars: Vec::new() };
        assert(r@.vars =~= Seq::empty());
        assert(r@.fns =~= Map::empty());
        r
    }

    /// Empties the scope and gives it a new name, so that it can be used
    /// again. No reference is handed out and none is taken back.
    pub fn clear(&mut self, name: &str)
        ensures
            final(self)@ == ScopeView::empty(name@),
    {
        self.fns.clear();
        self.vars.clear();
        self.name = name.to_owned();
        assert(self@.vars =~= Seq::empty());
        assert(self@.fns =~= Map::empty());
    }

    /// An empty scope called `global`.
    pub fn new_global() -> (r: Self)
        ensures
            r@ == ScopeView::empty("global"@),
    {
        Scope::new("global")
    }

    /// Whether the scope is called `global`.
    pub fn is_global(&self) -> (r: bool)
        ensures
            r == (self@.name == "global"@),
    {
        let global = "global".to_owned();
        self.name == global
    }

    /// The number of variables, shadowed ones included.
    pub fn len(&self) -> (r: usize)
        ensures
            r == self@.vars.len(),
    {
        self.vars.len()
    }

    /// Whether the scope has no variable.
    pub fn is_empty(&self) -> (r: bool)
        ensures
            r == (self@.vars.len() == 0),
    {
        self.vars.len() == 0
    }

    /// The text `Scope(name)` used in diagnostics.
    pub fn to_text(&self) -> (r: String)
        ensures
            r@ == "Scope("@ + self@.name + ")"@,
    {
        let mut out = String::from_str("Scope(");
        out.append(self.name.as_str());
        out.append(")");
        out
    }

    /// Creates a variable called `name` that holds `val`, and returns its
    /// reference, which is fresh from `refs`.
    pub fn new_var(&mut self, refs: &mut RefSource, name: &str, val: Value) -> (r: Ref)
        ensures
            r == Ref(old(refs).next),
            *final(refs) == old(refs).after(),
            final(self)@ == old(self)@.bind(name@, r, val@),
            old(self)@.fns_bound() ==> final(self)@.fns_bound(),
    {
        let r = refs.fresh();
        self.vars.push(Variable::new(name.to_owned(), r, val));
        assert(self@.vars =~= old(self)@.vars.push(
            VariableView { name: name@, var_ref: r, value: val@ },
        ));
        proof {
            if old(self)@.fns_bound() {
                lemma_bind_keeps_bound(old(self)@, name@, r, val@);
            }
        }
        r
    }

    fn install(&mut self, fn_ref: FnRef, callable: Callable)
        ensures
            final(self)@ == old(self)@.install(fn_ref, callable@),
    {
        self.fns.insert(fn_ref.fn_ref.0, Shared::new(callable));
        assert(self@.fns =~= old(self)@.fns.insert(fn_ref.fn_ref.0, callable@));
    }

    /// Registers a script function: a fresh reference for the callable, a
    /// new variable under the function's name that holds that reference, and
    /// the definition with its content hash stored under the reference.
    pub fn register_script_fn(&mut self, refs: &mut RefSource, def: FnDef)
        ensures
            *final(refs) == old(refs).after().after(),
            final(self)@ == old(self)@.register(
                def.ident.name@,
                FnRef { fn_ref: Ref(old(refs).next) },
                Ref(old(refs).after().next),
                CallableView::Script { def, hash: content_hash(def) },
            ),
            old(self)@.fns_bound() ==> final(self)@.fns_bound(),
    {
        let hash = hash_definition(&def);
        let fn_ref = FnRef::new(refs.fresh());
        self.new_var(refs, def.ident.name.as_str(), Value::Fn(fn_ref));
        self.install(fn_ref, Callable::script(def, hash));
        proof {
            if old(self)@.fns_bound() {
                Self::lemma_register_keeps_bound(
                    old(self)@,
                    def.ident.name@,
                    fn_ref,
                    Ref(old(refs).after().next),
                    CallableView::Script { def, hash },
                );
            }
        }
    }

    /// Registers a host function under `name`: a fresh reference for the
    /// callable, a new variable called `name` that holds that reference, and
    /// the hook stored under the reference, which gives what `func` gives.
    pub fn register_external_fn<E: IntoHook + 'static>(
        &mut self,
        refs: &mut RefSource,
        name: &str,
        func: E,
    )
        ensures
            *final(refs) == old(refs).after().after(),
            final(self)@ == old(self)@.register(
                name@,
                FnRef { fn_ref: Ref(old(refs).next) },
                Ref(old(refs).after().next),
                CallableView::Native { name: name@, gives: gives_of(func) },
            ),
            old(self)@.fns_bound() ==> final(self)@.fns_bound(),
    {
        let fn_ref = FnRef::new(refs.fresh());
        let callable = Callable::native(func, name);
        self.new_var(refs, name, Value::Fn(fn_ref));
        self.install(fn_ref, callable);
        proof {
            if old(self)@.fns_bound() {
                Self::lemma_register_keeps_bound(
                    old(self)@,
                    name@,
                    fn_ref,
                    Ref(old(refs).after().next),
                    CallableView::Native { name: name@, gives: gives_of(func) },
                );
            }
        }
    }

    /// Registers a host function under `name`, as
    /// [`Scope::register_external_fn`] does.
    pub fn register_native_fn<E: IntoHook + 'static>(
        &mut self,
        refs: &mut RefSource,
        name: &str,
        func: E,
    )
        ensures
            *final(refs) == old(refs).after().after(),
            final(self)@ == old(self)@.register(
                name@,
                FnRef { fn_ref: Ref(old(refs).next) },
                Ref(old(refs).after().next),
                CallableView::Native { name: name@, gives: gives_of(func) },
            ),
            old(self)@.fns_bound() ==> final(self)@.fns_bound(),
    {
        self.register_external_fn(refs, name, func)
    }

    /// Registers an already boxed host function under `name`, as
    /// [`Scope::register_external_fn`] does.
    pub fn register_boxed_external_fn(
        &mut self,
        refs: &mut RefSource,
        name: &str,
        func: Hook,
    )
        ensures
            *final(refs) == old(refs).after().after(),
            final(self)@ == old(self)@.register(
                name@,
                FnRef { fn_ref: Ref(old(refs).next) },
                Ref(old(refs).after().next),
                CallableView::Native { name: name@, gives: func.behaviour() },
            ),
            old(self)@.fns_bound() ==> final(self)@.fns_bound(),
    {
        let fn_ref = FnRef::new(refs.fresh());
        let callable = Callable::native_boxed(func, name);
        self.new_var(refs, name, Value::Fn(fn_ref));
        self.install(fn_ref, callable);
        proof {
            if old(self)@.fns_bound() {
                Self::lemma_register_keeps_bound(
                    old(self)@,
                    name@,
                    fn_ref,
                    Ref(old(refs).after().next),
                    CallableView::Native { name: name@, gives: func.behaviour() },
                );
            }
        }
    }

    /// Registering a callable keeps every callable of the scope bound to a
    /// variable.
    pub proof fn lemma_register_keeps_bound(
        scope: ScopeView,
        name: Seq<char>,
        fn_ref: FnRef,
        var_ref: Ref,
        callable: CallableView,
    )
        requires
            scope.fns_bound(),
        ensures
            scope.register(name, fn_ref, var_ref, callable).fns_bound(),
    {
        let after = scope.register(name, fn_ref, var_ref, callable);
        assert forall|k: usize| #[trigger] after.fns.contains_key(k) implies exists|i: int|
            0 <= i < after.vars.len() && (#[trigger] after.vars[i]).value == ValueView::Fn(
                FnRef { fn_ref: Ref(k) },
            ) by {
            if k == fn_ref.fn_ref.0 {
                assert(after.vars[scope.vars.len() as int].value == ValueView::Fn(fn_ref));
            } else {
                assert(scope.fns.contains_key(k));
                let i = choose|i: int|
                    0 <= i < scope.vars.len() && (#[trigger] scope.vars[i]).value == ValueView::Fn(
                        FnRef { fn_ref: Ref(k) },
                    );
                assert(after.vars[i] == scope.vars[i]);
            }
        }
    }

    /// A handle to the callable stored under `fn_ref`.
    pub fn get_fn(&self, fn_ref: FnRef) -> (r: RuntimeResult<Shared<Callable>>)
        ensures
            match r {
                Ok(callable) => self@.callable(fn_ref) == Some(callable@@),
                Err(e) => self@.callable(fn_ref) is None && e@ == RuntimeErrorView::NullRefError(
                    fn_ref.fn_ref,
                ),
            },
    {
        let key = fn_ref.fn_ref.0;
        match self.fns.get(&key) {
            Some(callable) => Ok(callable.clone()),
            None => Err(RuntimeError::NullRefError(fn_ref.inner())),
        }
    }

    /// The index of the variable that `name` stands for.
    pub fn find(&self, name: &String) -> (r: Option<usize>)
        ensures
            match r {
                Some(i) => self@.position(name@) == Some(i as int) && i < self.vars.len(),
                None => self@.position(name@) is None,
            },
    {
        let mut i: usize = self.vars.len();
        while i > 0
            invariant
                i <= self.vars.len(),
                self@.position(name@) == last_named(self@.vars, name@, i as nat),
            decreases i,
        {
            if self.vars[i - 1].name_eq(name) {
                return Some(i - 1);
            }
            i = i - 1;
        }
        None
    }

    /// The variable that `val_ref` identifies.
    pub fn search(&self, val_ref: &Ref) -> (r: RuntimeResult<&Variable>)
        ensures
            match r {
                Ok(var) => self@.position_of(*val_ref) matches Some(i) && 0 <= i < self.vars.len()
                    && *var == self.vars[i],
                Err(e) => self@.position_of(*val_ref) is None && e@
                    == RuntimeErrorView::NullRefError(*val_ref),
            },
    {
        let mut i: usize = self.vars.len();
        while i > 0
            invariant
                i <= self.vars.len(),
                self@.position_of(*val_ref) == last_with_ref(self@.vars, *val_ref, i as nat),
            decreases i,
        {
            if self.vars[i - 1].ref_eq(val_ref) {
                return Ok(&self.vars[i - 1]);
            }
            i = i - 1;
        }
        Err(RuntimeError::NullRefError(*val_ref))
    }

    /// The variable that `name` stands for.
    pub fn get(&self, name: &str) -> (r: RuntimeResult<&Variable>)
        ensures
            match r {
                Ok(var) => self@.position(name@) matches Some(i) && 0 <= i < self.vars.len() && *var
                    == self.vars[i],
                Err(e) => self@.position(name@) is None && e@ == RuntimeErrorView::IdentNotFound(
                    name@,
                ),
            },
    {
        let key = name.to_owned();
        match self.find(&key) {
            Some(i) => Ok(&self.vars[i]),
            None => Err(RuntimeError::IdentNotFound(key)),
        }
    }

    /// The variable that `name` stands for, for writing. Whatever is written
    /// through the borrow, the scope afterwards differs from the scope before
    /// in that one variable only.
    pub fn get_mut(&mut self, name: &str) -> (r: RuntimeResult<&mut Variable>)
        ensures
            match r {
                Ok(var) => old(self)@.position(name@) matches Some(i) && 0 <= i < old(self).vars.len()
                    && *var == old(self).vars[i]
                    && final(self).vars@ == old(self).vars@.update(i, *final(var))
                    && final(self).name == old(self).name && final(self).fns == old(self).fns,
                Err(e) => old(self)@.position(name@) is None && e@
                    == RuntimeErrorView::IdentNotFound(name@) && *final(self) == *old(self),
            },
    {
        let key = name.to_owned();
        match self.find(&key) {
            Some(i) => Ok(&mut self.vars[i]),
            None => Err(RuntimeError::IdentNotFound(key)),
        }
    }
}

} // verus!
