//! Callables: functions defined in a script and functions provided by the
//! host.

use vstd::prelude::*;
use vstd::rwlock::RwLockPredicate;
use vstd::string::StringExecFns;
use crate::ast::FnDef;
use crate::error::RuntimeResult;
use crate::shared::Locked;
use crate::value::Value;

verus! {

/// The arguments of a call, already evaluated, in source order.
pub type FnCallArg = Vec<Value>;

/// What a host function can give: whether the result is one that it can
/// return when it is called under the name with the arguments.
pub type Gives = spec_fn(Seq<char>, Seq<Value>, RuntimeResult<Value>) -> bool;

/// A function provided by the host.
///
/// The interpreter promises what it hands to `call`: the name the hook was
/// registered under and the evaluated arguments in source order. What comes
/// back is the host's business and is passed on as it is. What the host says
/// of it, it says in `gives`.
pub trait ExternalFn {
    /// `r` is a result that the hook can return when it is called as `name`
    /// with `args`, now or after any number of calls.
    spec fn gives(&self, name: Seq<char>, args: Seq<Value>, r: RuntimeResult<Value>) -> bool;

    /// Calls the hook. The result is one that the hook could give before the
    /// call, and the hook comes to give nothing that it could not give
    /// before.
    fn call(&mut self, name: &str, args: FnCallArg) -> (r: RuntimeResult<Value>)
        ensures
            old(self).gives(name@, args@, r),
            forall|n: Seq<char>, a: Seq<Value>, s: RuntimeResult<Value>| #[trigger]
                final(self).gives(n, a, s) ==> old(self).gives(n, a, s),
    ;
}

/// What the hook `e` gives.
pub open spec fn gives_of<E: ExternalFn>(e: E) -> Gives {
    |n: Seq<char>, a: Seq<Value>, s: RuntimeResult<Value>| e.gives(n, a, s)
}

/// A boxed host function.
pub struct Hook {
    pub func: Box<dyn ExternalFn>,
}

impl Hook {
    /// What the boxed hook gives.
    pub open spec fn behaviour(self) -> Gives {
        |n: Seq<char>, a: Seq<Value>, s: RuntimeResult<Value>| self.func.gives(n, a, s)
    }
}

/// A host function that can be boxed.
pub trait IntoHook: ExternalFn + Sized {
    /// Boxes the hook. The boxed hook gives what this hook gives.
    fn into_hook(self) -> (hook: Hook)
        ensures
            forall|n: Seq<char>, a: Seq<Value>, s: RuntimeResult<Value>| #[trigger]
                hook.func.gives(n, a, s) <==> self.gives(n, a, s),
    ;
}

/// The lock predicate of a hook slot: the hook in it gives nothing but what
/// is allowed.
pub struct Bound {
    pub allowed: Gives,
}

impl RwLockPredicate<Hook> for Bound {
    open spec fn inv(self, v: Hook) -> bool {
        forall|n: Seq<char>, a: Seq<Value>, s: RuntimeResult<Value>| #[trigger]
            v.func.gives(n, a, s) ==> (self.allowed)(n, a, s)
    }
}

/// A host function that takes the whole argument vector as it is, with no
/// check of arity or types.
pub struct VariadicFn<F: Fn(FnCallArg) -> RuntimeResult<Value>> {
    func: F,
}

impl<F: Fn(FnCallArg) -> RuntimeResult<Value>> VariadicFn<F> {
    /// The function accepts every argument vector.
    #[verifier::type_invariant]
    spec fn total(self) -> bool {
        forall|args: FnCallArg| call_requires(self.func, (args,))
    }

    /// The wrapped function.
    pub closed spec fn func(self) -> F {
        self.func
    }

    /// Wraps a function that accepts every argument vector.
    pub fn new(func: F) -> (r: Self)
        requires
            forall|args: FnCallArg| call_requires(func, (args,)),
        ensures
            r.func() == func,
    {
        VariadicFn { func }
    }
}

impl<F: Fn(FnCallArg) -> RuntimeResult<Value> + 'static> ExternalFn for VariadicFn<F> {
    /// It gives what the function can return on some vector that holds the
    /// arguments.
    open spec fn gives(&self, name: Seq<char>, args: Seq<Value>, r: RuntimeResult<Value>) -> bool {
        exists|v: FnCallArg| v@ == args && call_ensures(self.func(), (v,), r)
    }

    /// Passes `args` to the function and returns what it returns.
    fn call(&mut self, name: &str, args: FnCallArg) -> (r: RuntimeResult<Value>)
        ensures
            call_ensures(old(self).func(), (args,), r),
            final(self).func() == old(self).func(),
    {
        proof {
            use_type_invariant(&*self);
        }
        (self.func)(args)
    }
}

impl<F: Fn(FnCallArg) -> RuntimeResult<Value> + 'static> IntoHook for VariadicFn<F> {
    fn into_hook(self) -> (hook: Hook) {
        Hook { func: Box::new(self) }
    }
}

/// A host function together with the name it was registered under. The hook
/// sits behind a lock, so it can keep state of its own although callables are
/// shared.
pub struct NativeFn {
    pub ptr: Locked<Hook, Bound>,
    pub name: String,
}

impl NativeFn {
    /// What the host function gives: what the hook it was made of gave at
    /// that time.
    pub open spec fn gives(&self) -> Gives {
        self.ptr.pred().allowed
    }

    /// Registers `ptr` under `name`.
    pub fn new<E: IntoHook + 'static>(ptr: E, name: &str) -> (r: Self)
        ensures
            r.name@ == name@,
            r.gives() == gives_of(ptr),
    {
        let ghost allowed = gives_of(ptr);
        let hook = ptr.into_hook();
        NativeFn { ptr: Locked::guarded(hook, Ghost(Bound { allowed })), name: name.to_owned() }
    }

    /// Registers an already boxed hook under `name`.
    pub fn new_boxed(ptr: Hook, name: &str) -> (r: Self)
        ensures
            r.name@ == name@,
            r.gives() == ptr.behaviour(),
    {
        let ghost allowed = ptr.behaviour();
        NativeFn { ptr: Locked::guarded(ptr, Ghost(Bound { allowed })), name: name.to_owned() }
    }

    /// The name the hook was registered under.
    pub fn name(&self) -> (r: &str)
        ensures
            r@ == self.name@,
    {
        self.name.as_str()
    }

    /// Renders the host function as `NativeFn(name)`.
    pub fn to_text(&self) -> (r: String)
        ensures
            r@ == "NativeFn("@ + self.name@ + ")"@,
    {
        let mut out = String::from_str("NativeFn(");
        out.append(self.name.as_str());
        out.append(")");
        out
    }

    /// Calls the hook with its registered name and `args`, and returns what
    /// the hook returned: a result that the host function gives for that
    /// name and those arguments.
    pub fn call(&self, args: FnCallArg) -> (r: RuntimeResult<Value>)
        ensures
            (self.gives())(self.name@, args@, r),
    {
        let (mut hook, handle) = self.ptr.get_mut();
        let r = hook.func.call(self.name.as_str(), args);
        handle.release_write(hook);
        r
    }
}

impl PartialEq for NativeFn {
    /// Host functions are told apart by the name they were registered under.
    fn eq(&self, other: &Self) -> (r: bool)
    {
        self.name == other.name
    }
}

impl vstd::std_specs::cmp::PartialEqSpecImpl for NativeFn {
    open spec fn obeys_eq_spec() -> bool {
        true
    }

    open spec fn eq_spec(&self, other: &Self) -> bool {
        self.name@ == other.name@
    }
}

/// A function defined in a script, with the content hash of its definition.
#[derive(Debug, PartialEq)]
pub struct ScriptFn {
    pub def: FnDef,
    pub hash: u64,
}

impl ScriptFn {
    pub fn new(def: FnDef, hash: u64) -> (r: Self)
        ensures
            r.def == def,
            r.hash == hash,
    {
        ScriptFn { def, hash }
    }

    /// Renders the script function as `ScriptFn(` signature `)`.
    pub fn to_text(&self) -> (r: String)
        ensures
            r@ == "ScriptFn("@ + self.def.text() + ")"@,
    {
        let mut out = String::from_str("ScriptFn(");
        let signature = self.def.to_text();
        out.append(signature.as_str());
        out.append(")");
        out
    }
}

/// Something a script can call.
pub enum Callable {
    Native(NativeFn),
    Script(ScriptFn),
}

/// The mathematical content of a [`Callable`]: for a host function the name
/// it was registered under and what it gives, for a script function its
/// definition and hash.
pub enum CallableView {
    Native { name: Seq<char>, gives: Gives },
    Script { def: FnDef, hash: u64 },
}

impl View for Callable {
    type V = CallableView;

    open spec fn view(&self) -> CallableView {
        match self {
            Callable::Native(f) => CallableView::Native { name: f.name@, gives: f.gives() },
            Callable::Script(f) => CallableView::Script { def: f.def, hash: f.hash },
        }
    }
}

impl Callable {
    /// The callable for the host function `ptr`, registered under `name`.
    pub fn native<E: IntoHook + 'static>(ptr: E, name: &str) -> (r: Self)
        ensures
            r@ == (CallableView::Native { name: name@, gives: gives_of(ptr) }),
    {
        Callable::Native(NativeFn::new(ptr, name))
    }

    /// The callable for the boxed host function `ptr`, registered under
    /// `name`.
    pub fn native_boxed(ptr: Hook, name: &str) -> (r: Self)
        ensures
            r@ == (CallableView::Native { name: name@, gives: ptr.behaviour() }),
    {
        Callable::Native(NativeFn::new_boxed(ptr, name))
    }

    /// The callable for the script function `def` with content hash `hash`.
    pub fn script(def: FnDef, hash: u64) -> (r: Self)
        ensures
            r@ == (CallableView::Script { def, hash }),
    {
        Callable::Script(ScriptFn::new(def, hash))
    }
}

impl From<NativeFn> for Callable {
    fn from(native_fn: NativeFn) -> (r: Self)
    {
        Callable::Native(native_fn)
    }
}

impl vstd::std_specs::convert::FromSpecImpl<NativeFn> for Callable {
    open spec fn obeys_from_spec() -> bool {
        true
    }

    open spec fn from_spec(native_fn: NativeFn) -> Self {
        Callable::Native(native_fn)
    }
}

impl From<ScriptFn> for Callable {
    fn from(script_fn: ScriptFn) -> (r: Self)
    {
        Callable::Script(script_fn)
    }
}

impl vstd::std_specs::convert::FromSpecImpl<ScriptFn> for Callable {
    open spec fn obeys_from_spec() -> bool {
        true
    }

    open spec fn from_spec(script_fn: ScriptFn) -> Self {
        Callable::Script(script_fn)
    }
}

} // verus!
