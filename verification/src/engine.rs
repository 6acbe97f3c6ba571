//! The engine: collects host functions, then runs a program to completion in
//! a fresh context.

use vstd::prelude::*;
use crate::ast::Tree;
use crate::binder::{applied, ExtractFn, HostFn};
use crate::context::{outcome, Context};
use crate::error::{Error, ErrorView, RuntimeResult};
use crate::func::{gives_of, Gives, Hook, IntoHook};
use crate::model::{run_program, seed, Provided, State, MAX_DEPTH};
use crate::trace::{agrees, honest, HostAnswer, HostCall, Platform};
use crate::value::{Value, ValueView};

verus! {

/// A host function waiting to be registered.
pub struct Registration {
    pub name: String,
    pub func: Hook,
}

impl View for Registration {
    type V = Provided;

    open spec fn view(&self) -> Provided {
        Provided { name: self.name@, gives: self.func.behaviour() }
    }
}

impl Registration {
    /// The host function `func`, to be registered as `name`.
    pub fn new<E: IntoHook + 'static>(name: &str, func: E) -> (r: Self)
        ensures
            r@ == (Provided { name: name@, gives: gives_of(func) }),
    {
        let hook = func.into_hook();
        assert(hook.behaviour() =~= gives_of(func));
        Registration { name: name.to_owned(), func: hook }
    }
}

/// The builder of a run. Host functions are registered by name; a name that
/// is registered again gets the new function and keeps its place.
pub struct Engine {
    fns: Vec<Registration>,
}

/// The index of the host function called `name` among the first `upto`.
pub open spec fn index_of(provided: Seq<Provided>, name: Seq<char>, upto: nat) -> Option<int>
    decreases upto,
{
    if upto == 0 {
        None
    } else if provided[upto - 1].name == name {
        Some(upto - 1)
    } else {
        index_of(provided, name, (upto - 1) as nat)
    }
}

/// The host functions after `entry` has been registered: in the place of the
/// one of the same name if there was one, at the end if not.
pub open spec fn with_provided(provided: Seq<Provided>, entry: Provided) -> Seq<Provided> {
    match index_of(provided, entry.name, provided.len()) {
        Some(i) => provided.update(i, entry),
        None => provided.push(entry),
    }
}

/// What the typed host function `func` gives once it is wrapped: what
/// [`HostFn::apply`] makes of a call.
pub open spec fn typed<T, F: HostFn<T>>(func: F) -> Gives {
    |n: Seq<char>, a: Seq<Value>, s: RuntimeResult<Value>| applied::<T, F>(func, n, a, s)
}

/// What a program gives when it is run by an engine with the host functions
/// `provided`, if the host answers `ans`.
pub open spec fn program_result(provided: Seq<Provided>, tree: Tree, ans: Seq<HostAnswer>) -> Result<
    ValueView,
    ErrorView,
> {
    run_program(seed(State::initial(), provided, 0), (MAX_DEPTH - 1) as nat, tree, ans).1
}

/// The view of a run's result.
pub open spec fn verdict(r: Result<(), Error>) -> Result<ValueView, ErrorView> {
    match r {
        Ok(_) => Ok(ValueView::Unit),
        Err(e) => Err(e@),
    }
}

/// A run of `tree` by an engine with the host functions `provided` had the
/// exchanges `trace` with the host and ended in `r`.
///
/// Every call of a host function in the trace was answered by that function.
/// For every sequence of answers that begins with those of the trace, the
/// program, started in a fresh context with the host functions registered,
/// makes exactly the exchanges of the trace and ends in `r`; if it ends well,
/// it ends in the global scope.
pub open spec fn run_gives(
    provided: Seq<Provided>,
    tree: Tree,
    trace: Seq<HostCall>,
    r: Result<(), Error>,
) -> bool {
    &&& honest(trace)
    &&& forall|ans: Seq<HostAnswer>| #[trigger]
        agrees(ans, trace) ==> {
            let out = run_program(
                seed(State::initial(), provided, 0),
                (MAX_DEPTH - 1) as nat,
                tree,
                ans,
            );
            &&& out.0.trace == trace
            &&& out.1 == verdict(r)
            &&& r is Ok ==> out.0.scopes.len() == 1
        }
}

impl Engine {
    /// The registered host functions, in the order in which they will be
    /// registered in the global scope.
    pub closed spec fn provided(&self) -> Seq<Provided> {
        self.fns@.map_values(|r: Registration| r@)
    }

    /// An engine without host functions.
    pub fn new() -> (r: Self)
        ensures
            r.provided() == Seq::<Provided>::empty(),
    {
        let r = Engine { fns: Vec::new() };
        assert(r.provided() =~= Seq::empty());
        r
    }

    fn position(&self, name: &String) -> (r: Option<usize>)
        ensures
            match r {
                Some(i) => index_of(self.provided(), name@, self.provided().len()) == Some(
                    i as int,
                ) && i < self.fns.len(),
                None => index_of(self.provided(), name@, self.provided().len()) is None,
            },
    {
        let mut i: usize = self.fns.len();
        while i > 0
            invariant
                i <= self.fns.len(),
                index_of(self.provided(), name@, self.provided().len()) == index_of(
                    self.provided(),
                    name@,
                    i as nat,
                ),
            decreases i,
        {
            if self.fns[i - 1].name == *name {
                return Some(i - 1);
            }
            i = i - 1;
        }
        None
    }

    fn with_registration(self, reg: Registration) -> (r: Self)
        ensures
            r.provided() == with_provided(self.provided(), reg@),
    {
        let ghost before = self.provided();
        let found = self.position(&reg.name);
        let mut fns = self.fns;
        match found {
            Some(i) => {
                fns.set(i, reg);
                let r = Engine { fns };
                assert(r.provided() =~= before.update(i as int, reg@));
                r
            },
            None => {
                fns.push(reg);
                let r = Engine { fns };
                assert(r.provided() =~= before.push(reg@));
                r
            },
        }
    }

    /// Registers the host function `func` as `name`. It is called with the
    /// evaluated arguments as they are; no arity or type check is added.
    pub fn with_fn_raw<E: IntoHook + 'static>(self, name: &str, func: E) -> (r: Self)
        ensures
            r.provided() == with_provided(
                self.provided(),
                Provided { name: name@, gives: gives_of(func) },
            ),
    {
        self.with_registration(Registration::new(name, func))
    }

    /// Registers the typed host function `func` as `name`. Each call checks
    /// the number of arguments and the type of each before `func` is called.
    pub fn with_fn<T: 'static, F: HostFn<T> + 'static>(self, name: &str, func: F) -> (r: Self)
        requires
            func.total(),
        ensures
            r.provided() == with_provided(
                self.provided(),
                Provided { name: name@, gives: typed::<T, F>(func) },
            ),
    {
        let hook = ExtractFn::new(func);
        assert(gives_of(hook) =~= typed::<T, F>(func));
        self.with_fn_raw(name, hook)
    }

    /// A fresh context on `platform` whose global scope holds the registered
    /// host functions.
    pub fn start<P: Platform>(self, platform: P) -> (ctx: Context<P>)
        ensures
            ctx.wf(),
            ctx@ == seed(State::initial(), self.provided(), 0),
            ctx@.scopes.len() == 1,
    {
        let ghost provided = self.provided();
        let mut ctx = Context::new(platform);
        for reg in it: self.fns
            invariant
                it.seq() == self.fns@,
                provided == self.fns@.map_values(|r: Registration| r@),
                ctx.wf(),
                ctx@.scopes.len() == 1,
                seed(State::initial(), provided, 0) == seed(ctx@, provided, it.index() as nat),
        {
            assert(reg == self.fns@[it.index() as int]);
            let Registration { name, func } = reg;
            ctx.provide(name.as_str(), func);
        }
        ctx
    }

    /// Runs a program to completion on `platform` and hands back, with the
    /// result, the exchanges that the run had with the host: a fresh
    /// context, the host functions registered in its global scope, the
    /// program's top-level function definitions registered after them, then
    /// the items from top to bottom. The first error ends the run and is
    /// returned.
    pub fn execute_traced<P: Platform>(self, tree: Tree, platform: P) -> (r: (
        Result<(), Error>,
        Ghost<Seq<HostCall>>,
    ))
        ensures
            run_gives(self.provided(), tree, r.1@, r.0),
    {
        let mut ctx = self.start(platform);
        let res = ctx.run(tree);
        proof {
            ctx.lemma_trace_is_honest();
        }
        let ghost trace = ctx@.trace;
        match res {
            Ok(_) => (Ok(()), Ghost(trace)),
            Err(e) => (Err(e), Ghost(trace)),
        }
    }

    /// Runs a program to completion on `platform`, as
    /// [`Engine::execute_traced`] does, and returns the result alone. The
    /// exchanges that the run had with the host are some trace of which
    /// [`run_gives`] holds.
    pub fn execute<P: Platform>(self, tree: Tree, platform: P) -> (r: Result<(), Error>)
        ensures
            exists|trace: Seq<HostCall>| run_gives(self.provided(), tree, trace, r),
    {
        let (r, Ghost(trace)) = self.execute_traced(tree, platform);
        assert(run_gives(self.provided(), tree, trace, r));
        r
    }
}

impl Engine {
    /// Parses `src` with `parse` and runs the program as [`Engine::execute`]
    /// does. If the parser rejects the text, nothing runs and its
    /// description is returned as a parse error.
    pub fn execute_source<P: Platform, F: FnOnce(&str) -> Result<Tree, String>>(
        self,
        src: &str,
        parse: F,
        platform: P,
    ) -> (r: Result<(), Error>)
        requires
            parse.requires((src,)),
        ensures
            exists|parsed: Result<Tree, String>|
                parse.ensures((src,), parsed) && match parsed {
                    Ok(tree) => exists|trace: Seq<HostCall>|
                        run_gives(self.provided(), tree, trace, r),
                    Err(reason) => r == Err::<(), Error>(Error::Parse(reason)),
                },
    {
        let parsed = parse(src);
        match parsed {
            Ok(tree) => {
                let r = self.execute(tree, platform);
                assert(parse.ensures((src,), Ok::<Tree, String>(tree)));
                r
            },
            Err(reason) => {
                assert(parse.ensures((src,), Err::<Tree, String>(reason)));
                Err(Error::Parse(reason))
            },
        }
    }
}

impl Default for Engine {
    fn default() -> (r: Self)
        ensures
            r.provided() == Seq::<Provided>::empty(),
    {
        Engine::new()
    }
}

} // verus!
