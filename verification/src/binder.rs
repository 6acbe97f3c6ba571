//! The host-function binder: wraps a typed host function of fixed arity into
//! the uniform shape of a host function, with a check of the number of
//! arguments and of the type of each.

use vstd::prelude::*;
use vstd::string::StringExecFns;
use std::marker::PhantomData;
use crate::error::{RuntimeError, RuntimeErrorView, RuntimeResult};
use crate::func::{ExternalFn, FnCallArg, Hook, IntoHook};
use crate::text::{decimal_text, push_decimal};
use crate::value::{FromValue, Value, ValueView};

verus! {

/// The label `ExternalFn(name) Arg#i` under which the argument at index `i`
/// of the host function `name` is reported.
pub open spec fn arg_label(name: Seq<char>, index: nat) -> Seq<char> {
    "ExternalFn("@ + name + ") Arg#"@ + decimal_text(index)
}

/// The error for a call of `name` with `found` arguments in place of
/// `expected`.
pub open spec fn arity_error(name: Seq<char>, expected: usize, found: usize) -> RuntimeErrorView {
    RuntimeErrorView::ArgumentError { ident: name, expected, found }
}

/// The call failed with the error `e`.
pub open spec fn fails_with<T>(r: RuntimeResult<T>, e: RuntimeErrorView) -> bool {
    match r {
        Err(x) => x@ == e,
        Ok(_) => false,
    }
}

/// The index of the first entry that is false.
pub open spec fn first_rejected(admitted: Seq<bool>) -> Option<int>
    decreases admitted.len(),
{
    if admitted.len() == 0 {
        None
    } else if !admitted[0] {
        Some(0)
    } else {
        match first_rejected(admitted.drop_first()) {
            Some(i) => Some(i + 1),
            None => None,
        }
    }
}

/// The number of arguments that are taken out before the taking ends: all of
/// them, or those up to and including the first that is rejected.
pub open spec fn taken(admitted: Seq<bool>) -> nat {
    match first_rejected(admitted) {
        Some(i) => (i + 1) as nat,
        None => admitted.len(),
    }
}

/// Builds the label of an argument.
pub fn label_arg(name: &str, index: usize) -> (r: String)
    ensures
        r@ == arg_label(name@, index as nat),
{
    let mut out = String::from_str("ExternalFn(");
    out.append(name);
    out.append(") Arg#");
    push_decimal(&mut out, index);
    out
}

fn wrong_arity(name: &str, expected: usize, found: usize) -> (r: RuntimeError)
    ensures
        r@ == arity_error(name@, expected, found),
{
    RuntimeError::ArgumentError { ident: name.to_owned(), expected, found }
}

/// The values in reverse order.
fn reversed(values: Vec<Value>) -> (r: Vec<Value>)
    ensures
        r@ == values@.reverse(),
{
    let mut rest = values;
    let mut out: Vec<Value> = Vec::with_capacity(rest.len());
    while rest.len() > 0
        invariant
            rest.len() + out.len() == values.len(),
            rest@ == values@.subrange(0, rest.len() as int),
            forall|i: int| 0 <= i < out.len() ==> out[i] == values[values.len() - 1 - i],
        decreases rest.len(),
    {
        match rest.pop() {
            Some(v) => {
                out.push(v);
            },
            None => {},
        }
        assert(rest@ =~= values@.subrange(0, rest.len() as int));
    }
    assert(out@ =~= values@.reverse());
    out
}

/// A list of parameter types: `()` for none, `(H, T)` for the type `H`
/// followed by the list `T`, and `(H0, H1, H2, H3, T)` for four types followed
/// by the list `T`.
pub trait Params: Sized {
    /// The number of parameters.
    spec fn count() -> nat;

    /// For each parameter in order, the canonical name of its type.
    spec fn wanted() -> Seq<Seq<char>>;

    /// For each parameter in order, whether its type admits the value at its
    /// index.
    spec fn admitted(values: Seq<Value>) -> Seq<bool>;

    /// For each parameter in order, the value it was taken out of.
    spec fn origins(self) -> Seq<Value>;

    /// The lists above are as long as the parameter list.
    proof fn lemma_lengths(values: Seq<Value>)
        requires
            values.len() == Self::count(),
        ensures
            Self::wanted().len() == Self::count(),
            Self::admitted(values).len() == Self::count(),
    ;

    /// Takes the parameters out of `rest`, which holds the arguments not yet
    /// taken, last argument first. The argument taken first has index
    /// `index` in the call.
    ///
    /// The first argument that is of another type than its parameter is a
    /// type error labelled with its index in the call. If there is none,
    /// each parameter is the payload of its argument. The arguments that
    /// were looked at are gone from `rest`; those after a rejected one stay.
    fn extract(name: &str, index: usize, rest: &mut Vec<Value>) -> (out: RuntimeResult<Self>)
        requires
            old(rest).len() == Self::count(),
            index + old(rest).len() <= usize::MAX,
        ensures
            taken(Self::admitted(old(rest)@.reverse())) <= old(rest).len(),
            final(rest)@ == old(rest)@.subrange(
                0,
                old(rest).len() - taken(Self::admitted(old(rest)@.reverse())),
            ),
            match first_rejected(Self::admitted(old(rest)@.reverse())) {
                Some(i) => 0 <= i < Self::count() && fails_with(
                    out,
                    old(rest)@.reverse()[i]@.mismatch(
                        arg_label(name@, (index + i) as nat),
                        Self::wanted()[i],
                    ),
                ),
                None => out is Ok && out->Ok_0.origins() == old(rest)@.reverse(),
            },
    ;
}

impl Params for () {
    open spec fn count() -> nat {
        0
    }

    open spec fn wanted() -> Seq<Seq<char>> {
        Seq::empty()
    }

    open spec fn admitted(values: Seq<Value>) -> Seq<bool> {
        Seq::empty()
    }

    open spec fn origins(self) -> Seq<Value> {
        Seq::empty()
    }

    proof fn lemma_lengths(values: Seq<Value>) {
    }

    fn extract(name: &str, index: usize, rest: &mut Vec<Value>) -> (out: RuntimeResult<Self>) {
        assert(rest@.reverse() =~= Seq::<Value>::empty());
        assert(rest@ =~= rest@.subrange(0, 0));
        Ok(())
    }
}

impl<H: FromValue, T: Params> Params for (H, T) {
    open spec fn count() -> nat {
        T::count() + 1
    }

    open spec fn wanted() -> Seq<Seq<char>> {
        seq![H::wanted()] + T::wanted()
    }

    open spec fn admitted(values: Seq<Value>) -> Seq<bool> {
        seq![H::admits(values[0]@)] + T::admitted(values.drop_first())
    }

    open spec fn origins(self) -> Seq<Value> {
        seq![self.0.origin()] + self.1.origins()
    }

    proof fn lemma_lengths(values: Seq<Value>) {
        T::lemma_lengths(values.drop_first());
    }

    fn extract(name: &str, index: usize, rest: &mut Vec<Value>) -> (out: RuntimeResult<Self>) {
        let ghost args = rest@.reverse();
        let ghost admitted = Self::admitted(args);
        let value = match rest.pop() {
            Some(value) => value,
            None => Value::Unit,
        };
        proof {
            T::lemma_lengths(args.drop_first());
            assert(value == args[0]);
            assert(rest@.reverse() =~= args.drop_first());
            assert(admitted.drop_first() =~= T::admitted(args.drop_first()));
            assert(admitted[0] == H::admits(args[0]@));
        }
        let head = match H::from_value(label_arg(name, index).as_str(), value) {
            Ok(head) => head,
            Err(e) => {
                return Err(e);
            },
        };
        let res = T::extract(name, index + 1, rest);
        proof {
            assert(taken(admitted) == taken(admitted.drop_first()) + 1);
            assert(rest@ =~= old(rest)@.subrange(0, old(rest).len() - taken(admitted)));
        }
        let tail = match res {
            Ok(tail) => tail,
            Err(e) => {
                proof {
                    let i = first_rejected(admitted.drop_first())->Some_0;
                    assert(args.drop_first()[i] == args[i + 1]);
                    assert(Self::wanted()[i + 1] == T::wanted()[i]);
                }
                return Err(e);
            },
        };
        proof {
            assert((head, tail).origins() =~= args);
        }
        Ok((head, tail))
    }
}

/// Four types followed by a list are the same list as the four types one
/// after the other followed by that list.
impl<H0: FromValue, H1: FromValue, H2: FromValue, H3: FromValue, T: Params> Params for (
    H0,
    H1,
    H2,
    H3,
    T,
) {
    open spec fn count() -> nat {
        <(H0, (H1, (H2, (H3, T)))) as Params>::count()
    }

    open spec fn wanted() -> Seq<Seq<char>> {
        <(H0, (H1, (H2, (H3, T)))) as Params>::wanted()
    }

    open spec fn admitted(values: Seq<Value>) -> Seq<bool> {
        <(H0, (H1, (H2, (H3, T)))) as Params>::admitted(values)
    }

    open spec fn origins(self) -> Seq<Value> {
        (self.0, (self.1, (self.2, (self.3, self.4)))).origins()
    }

    proof fn lemma_lengths(values: Seq<Value>) {
        <(H0, (H1, (H2, (H3, T)))) as Params>::lemma_lengths(values);
    }

    fn extract(name: &str, index: usize, rest: &mut Vec<Value>) -> (out: RuntimeResult<Self>) {
        match <(H0, (H1, (H2, (H3, T)))) as Params>::extract(name, index, rest) {
            Ok((h0, (h1, (h2, (h3, tail))))) => Ok((h0, h1, h2, h3, tail)),
            Err(e) => Err(e),
        }
    }
}

/// Takes the parameters `L` out of the arguments of a call of `name`.
pub fn extract_all<L: Params>(name: &str, args: FnCallArg) -> (out: RuntimeResult<L>)
    requires
        args.len() == L::count(),
    ensures
        match first_rejected(L::admitted(args@)) {
            Some(i) => 0 <= i < L::count() && fails_with(
                out,
                args[i]@.mismatch(arg_label(name@, i as nat), L::wanted()[i]),
            ),
            None => out is Ok && out->Ok_0.origins() == args@,
        },
{
    let mut rest = reversed(args);
    assert(rest@.reverse() =~= args@);
    L::extract(name, 0, &mut rest)
}

/// A host function whose parameters are the types of the tuple `Args`, each
/// of which can be taken out of a value.
pub trait HostFn<Args> {
    /// The parameter types as a list.
    type List: Params;

    /// The function accepts every tuple of arguments of its parameter types.
    spec fn total(&self) -> bool;

    /// `out` is what the function can return when it is given parameters
    /// taken out of `args`.
    spec fn passes(&self, args: Seq<Value>, out: RuntimeResult<Value>) -> bool;

    /// Calls the function with `args`.
    ///
    /// A wrong number of arguments is an argument error that names the
    /// function. Otherwise each argument is taken out as the type of its
    /// parameter, in order; the first that is of another type is a type
    /// error labelled `ExternalFn(name) Arg#i`. If all are of the right type,
    /// the function is called with them and its result returned.
    fn apply(&self, name: &str, args: FnCallArg) -> (out: RuntimeResult<Value>)
        requires
            self.total(),
        ensures
            args.len() != Self::List::count() ==> fails_with(
                out,
                arity_error(name@, Self::List::count() as usize, args.len()),
            ),
            args.len() == Self::List::count() ==> match first_rejected(
                Self::List::admitted(args@),
            ) {
                Some(i) => fails_with(
                    out,
                    args[i]@.mismatch(arg_label(name@, i as nat), Self::List::wanted()[i]),
                ),
                None => self.passes(args@, out),
            },
    ;
}

/// What [`HostFn::apply`] makes of a call of `f` as `name` with `args`: an
/// argument error on a wrong count, a type error for the first argument of
/// another type than its parameter, and else what the function returns on
/// the payloads.
pub open spec fn applied<Args, F: HostFn<Args>>(
    f: F,
    name: Seq<char>,
    args: Seq<Value>,
    out: RuntimeResult<Value>,
) -> bool {
    if args.len() != F::List::count() {
        fails_with(out, arity_error(name, F::List::count() as usize, args.len() as usize))
    } else {
        match first_rejected(F::List::admitted(args)) {
            Some(i) => fails_with(
                out,
                args[i]@.mismatch(arg_label(name, i as nat), F::List::wanted()[i]),
            ),
            None => f.passes(args, out),
        }
    }
}

/// A typed host function in the uniform shape of a host function.
pub struct ExtractFn<T, F: HostFn<T>> {
    func: F,
    marker: PhantomData<T>,
}

impl<T, F: HostFn<T>> ExtractFn<T, F> {
    #[verifier::type_invariant]
    spec fn wf(self) -> bool {
        self.func.total()
    }

    /// The wrapped function.
    pub closed spec fn func(self) -> F {
        self.func
    }

    /// Wraps a function that accepts every tuple of arguments of its
    /// parameter types.
    pub fn new(func: F) -> (r: Self)
        requires
            func.total(),
        ensures
            r.func() == func,
    {
        ExtractFn { func, marker: PhantomData }
    }
}

impl<T: 'static, F: HostFn<T> + 'static> ExternalFn for ExtractFn<T, F> {
    /// It gives what [`HostFn::apply`] makes of the call.
    open spec fn gives(&self, name: Seq<char>, args: Seq<Value>, r: RuntimeResult<Value>) -> bool {
        applied::<T, F>(self.func(), name, args, r)
    }

    /// Applies the wrapped function as [`HostFn::apply`] says.
    fn call(&mut self, name: &str, args: FnCallArg) -> (r: RuntimeResult<Value>)
        ensures
            call_ensures(F::apply, (&old(self).func(), name, args), r),
            final(self).func() == old(self).func(),
    {
        proof {
            use_type_invariant(&*self);
        }
        self.func.apply(name, args)
    }
}

impl<T: 'static, F: HostFn<T> + 'static> IntoHook for ExtractFn<T, F> {
    fn into_hook(self) -> (hook: Hook) {
        Hook { func: Box::new(self) }
    }
}

impl<Func: Fn() -> RuntimeResult<Value>> HostFn<()> for Func {
    type List = ();

    open spec fn total(&self) -> bool {
        call_requires(*self, ())
    }

    open spec fn passes(&self, args: Seq<Value>, out: RuntimeResult<Value>) -> bool {
        call_ensures(*self, (), out)
    }

    fn apply(&self, name: &str, args: FnCallArg) -> (out: RuntimeResult<Value>) {
        if args.len() != 0 {
            return Err(wrong_arity(name, 0, args.len()));
        }
        assert(first_rejected(Self::List::admitted(args@)) is None);
        self()
    }
}

impl<A: FromValue, Func: Fn(A) -> RuntimeResult<Value>> HostFn<(A,)> for Func {
    type List = (A, ());

    open spec fn total(&self) -> bool {
        forall|p0: A| call_requires(*self, (p0,))
    }

    open spec fn passes(&self, args: Seq<Value>, out: RuntimeResult<Value>) -> bool {
        exists|p0: A| (p0, ()).origins() == args && call_ensures(*self, (p0,), out)
    }

    fn apply(&self, name: &str, args: FnCallArg) -> (out: RuntimeResult<Value>) {
        if args.len() != 1 {
            return Err(wrong_arity(name, 1, args.len()));
        }
        let (p0, ()) = extract_all::<Self::List>(name, args)?;
        self(p0)
    }
}

impl<A: FromValue, B: FromValue, Func: Fn(A, B) -> RuntimeResult<Value>> HostFn<(A, B)> for Func {
    type List = (A, (B, ()));

    open spec fn total(&self) -> bool {
        forall|p0: A, p1: B| call_requires(*self, (p0, p1))
    }

    open spec fn passes(&self, args: Seq<Value>, out: RuntimeResult<Value>) -> bool {
        exists|p0: A, p1: B| (p0, (p1, ())).origins() == args && call_ensures(*self, (p0, p1), out)
    }

    fn apply(&self, name: &str, args: FnCallArg) -> (out: RuntimeResult<Value>) {
        if args.len() != 2 {
            return Err(wrong_arity(name, 2, args.len()));
        }
        let (p0, (p1, ())) = extract_all::<Self::List>(name, args)?;
        self(p0, p1)
    }
}

impl<
    A: FromValue, B: FromValue, C: FromValue,
    Func: Fn(A, B, C) -> RuntimeResult<Value>,
> HostFn<(A, B, C)> for Func {
    type List = (A, (B, (C, ())));

    open spec fn total(&self) -> bool {
        forall|p0: A, p1: B, p2: C| call_requires(*self, (p0, p1, p2))
    }

    open spec fn passes(&self, args: Seq<Value>, out: RuntimeResult<Value>) -> bool {
        exists|p0: A, p1: B, p2: C| (p0, (p1, (p2, ()))).origins() == args && call_ensures(*self,
            (p0, p1, p2), out)
    }

    fn apply(&self, name: &str, args: FnCallArg) -> (out: RuntimeResult<Value>) {
        if args.len() != 3 {
            return Err(wrong_arity(name, 3, args.len()));
        }
        let (p0, (p1, (p2, ()))) = extract_all::<Self::List>(name, args)?;
        self(p0, p1, p2)
    }
}

impl<
    A: FromValue, B: FromValue, C: FromValue, D: FromValue,
    Func: Fn(A, B, C, D) -> RuntimeResult<Value>,
> HostFn<(A, B, C, D)> for Func {
    type List = (A, B, C, D, ());

    open spec fn total(&self) -> bool {
        forall|p0: A, p1: B, p2: C, p3: D| call_requires(*self, (p0, p1, p2, p3))
    }

    open spec fn passes(&self, args: Seq<Value>, out: RuntimeResult<Value>) -> bool {
        exists|p0: A, p1: B, p2: C, p3: D| (p0, p1, p2, p3, ()).origins() == args &&
            call_ensures(*self, (p0, p1, p2, p3), out)
    }

    fn apply(&self, name: &str, args: FnCallArg) -> (out: RuntimeResult<Value>) {
        if args.len() != 4 {
            return Err(wrong_arity(name, 4, args.len()));
        }
        let (p0, p1, p2, p3, ()) = extract_all::<Self::List>(name, args)?;
        self(p0, p1, p2, p3)
    }
}

impl<
    A: FromValue, B: FromValue, C: FromValue, D: FromValue, E: FromValue,
    Func: Fn(A, B, C, D, E) -> RuntimeResult<Value>,
> HostFn<(A, B, C, D, E)> for Func {
    type List = (A, B, C, D, (E, ()));

    open spec fn total(&self) -> bool {
        forall|p0: A, p1: B, p2: C, p3: D, p4: E| call_requires(*self, (p0, p1, p2, p3, p4))
    }

    open spec fn passes(&self, args: Seq<Value>, out: RuntimeResult<Value>) -> bool {
        exists|p0: A, p1: B, p2: C, p3: D, p4: E| (p0, p1, p2, p3, (p4, ())).origins() == args &&
            call_ensures(*self, (p0, p1, p2, p3, p4), out)
    }

    fn apply(&self, name: &str, args: FnCallArg) -> (out: RuntimeResult<Value>) {
        if args.len() != 5 {
            return Err(wrong_arity(name, 5, args.len()));
        }
        let (p0, p1, p2, p3, (p4, ())) = extract_all::<Self::List>(name, args)?;
        self(p0, p1, p2, p3, p4)
    }
}

impl<
    A: FromValue, B: FromValue, C: FromValue, D: FromValue, E: FromValue, F: FromValue,
    Func: Fn(A, B, C, D, E, F) -> RuntimeResult<Value>,
> HostFn<(A, B, C, D, E, F)> for Func {
    type List = (A, B, C, D, (E, (F, ())));

    open spec fn total(&self) -> bool {
        forall|p0: A, p1: B, p2: C, p3: D, p4: E, p5: F| call_requires(*self, (p0, p1, p2, p3, p4,
            p5))
    }

    open spec fn passes(&self, args: Seq<Value>, out: RuntimeResult<Value>) -> bool {
        exists|p0: A, p1: B, p2: C, p3: D, p4: E, p5: F| (p0, p1, p2, p3, (p4, (p5, ()))).origins()
            == args && call_ensures(*self, (p0, p1, p2, p3, p4, p5), out)
    }

    fn apply(&self, name: &str, args: FnCallArg) -> (out: RuntimeResult<Value>) {
        if args.len() != 6 {
            return Err(wrong_arity(name, 6, args.len()));
        }
        let (p0, p1, p2, p3, (p4, (p5, ()))) = extract_all::<Self::List>(name, args)?;
        self(p0, p1, p2, p3, p4, p5)
    }
}

impl<
    A: FromValue, B: FromValue, C: FromValue, D: FromValue, E: FromValue, F: FromValue,
    G: FromValue,
    Func: Fn(A, B, C, D, E, F, G) -> RuntimeResult<Value>,
> HostFn<(A, B, C, D, E, F, G)> for Func {
    type List = (A, B, C, D, (E, (F, (G, ()))));

    open spec fn total(&self) -> bool {
        forall|p0: A, p1: B, p2: C, p3: D, p4: E, p5: F, p6: G| call_requires(*self, (p0, p1, p2,
            p3, p4, p5, p6))
    }

    open spec fn passes(&self, args: Seq<Value>, out: RuntimeResult<Value>) -> bool {
        exists|p0: A, p1: B, p2: C, p3: D, p4: E, p5: F, p6: G| (p0, p1, p2, p3, (p4, (p5, (p6,
            ())))).origins() == args && call_ensures(*self, (p0, p1, p2, p3, p4, p5, p6), out)
    }

    fn apply(&self, name: &str, args: FnCallArg) -> (out: RuntimeResult<Value>) {
        if args.len() != 7 {
            return Err(wrong_arity(name, 7, args.len()));
        }
        let (p0, p1, p2, p3, (p4, (p5, (p6, ())))) = extract_all::<Self::List>(name, args)?;
        self(p0, p1, p2, p3, p4, p5, p6)
    }
}

impl<
    A: FromValue, B: FromValue, C: FromValue, D: FromValue, E: FromValue, F: FromValue,
    G: FromValue, H: FromValue,
    Func: Fn(A, B, C, D, E, F, G, H) -> RuntimeResult<Value>,
> HostFn<(A, B, C, D, E, F, G, H)> for Func {
    type List = (A, B, C, D, (E, F, G, H, ()));

    open spec fn total(&self) -> bool {
        forall|p0: A, p1: B, p2: C, p3: D, p4: E, p5: F, p6: G, p7: H| call_requires(*self, (p0,
            p1, p2, p3, p4, p5, p6, p7))
    }

    open spec fn passes(&self, args: Seq<Value>, out: RuntimeResult<Value>) -> bool {
        exists|p0: A, p1: B, p2: C, p3: D, p4: E, p5: F, p6: G, p7: H| (p0, p1, p2, p3, (p4, p5,
            p6, p7, ())).origins() == args && call_ensures(*self, (p0, p1, p2, p3, p4, p5, p6, p7),
            out)
    }

    fn apply(&self, name: &str, args: FnCallArg) -> (out: RuntimeResult<Value>) {
        if args.len() != 8 {
            return Err(wrong_arity(name, 8, args.len()));
        }
        let (p0, p1, p2, p3, (p4, p5, p6, p7, ())) = extract_all::<Self::List>(name, args)?;
        self(p0, p1, p2, p3, p4, p5, p6, p7)
    }
}

impl<
    A: FromValue, B: FromValue, C: FromValue, D: FromValue, E: FromValue, F: FromValue,
    G: FromValue, H: FromValue, I: FromValue,
    Func: Fn(A, B, C, D, E, F, G, H, I) -> RuntimeResult<Value>,
> HostFn<(A, B, C, D, E, F, G, H, I)> for Func {
    type List = (A, B, C, D, (E, F, G, H, (I, ())));

    open spec fn total(&self) -> bool {
        forall|p0: A, p1: B, p2: C, p3: D, p4: E, p5: F, p6: G, p7: H, p8: I| call_requires(*self,
            (p0, p1, p2, p3, p4, p5, p6, p7, p8))
    }

    open spec fn passes(&self, args: Seq<Value>, out: RuntimeResult<Value>) -> bool {
        exists|p0: A, p1: B, p2: C, p3: D, p4: E, p5: F, p6: G, p7: H, p8: I| (p0, p1, p2, p3, (p4,
            p5, p6, p7, (p8, ()))).origins() == args && call_ensures(*self, (p0, p1, p2, p3, p4,
            p5, p6, p7, p8), out)
    }

    fn apply(&self, name: &str, args: FnCallArg) -> (out: RuntimeResult<Value>) {
        if args.len() != 9 {
            return Err(wrong_arity(name, 9, args.len()));
        }
        let (p0, p1, p2, p3, (p4, p5, p6, p7, (p8, ()))) = extract_all::<Self::List>(name, args)?;
        self(p0, p1, p2, p3, p4, p5, p6, p7, p8)
    }
}

impl<
    A: FromValue, B: FromValue, C: FromValue, D: FromValue, E: FromValue, F: FromValue,
    G: FromValue, H: FromValue, I: FromValue, J: FromValue,
    Func: Fn(A, B, C, D, E, F, G, H, I, J) -> RuntimeResult<Value>,
> HostFn<(A, B, C, D, E, F, G, H, I, J)> for Func {
    type List = (A, B, C, D, (E, F, G, H, (I, (J, ()))));

    open spec fn total(&self) -> bool {
        forall|p0: A, p1: B, p2: C, p3: D, p4: E, p5: F, p6: G, p7: H, p8: I, p9: J|
            call_requires(*self, (p0, p1, p2, p3, p4, p5, p6, p7, p8, p9))
    }

    open spec fn passes(&self, args: Seq<Value>, out: RuntimeResult<Value>) -> bool {
        exists|p0: A, p1: B, p2: C, p3: D, p4: E, p5: F, p6: G, p7: H, p8: I, p9: J| (p0, p1, p2,
            p3, (p4, p5, p6, p7, (p8, (p9, ())))).origins() == args && call_ensures(*self, (p0, p1,
            p2, p3, p4, p5, p6, p7, p8, p9), out)
    }

    fn apply(&self, name: &str, args: FnCallArg) -> (out: RuntimeResult<Value>) {
        if args.len() != 10 {
            return Err(wrong_arity(name, 10, args.len()));
        }
        let (p0, p1, p2, p3, (p4, p5, p6, p7, (p8, (p9, ())))) = extract_all::<Self::List>(name,
            args)?;
        self(p0, p1, p2, p3, p4, p5, p6, p7, p8, p9)
    }
}

impl<
    A: FromValue, B: FromValue, C: FromValue, D: FromValue, E: FromValue, F: FromValue,
    G: FromValue, H: FromValue, I: FromValue, J: FromValue, K: FromValue,
    Func: Fn(A, B, C, D, E, F, G, H, I, J, K) -> RuntimeResult<Value>,
> HostFn<(A, B, C, D, E, F, G, H, I, J, K)> for Func {
    type List = (A, B, C, D, (E, F, G, H, (I, (J, (K, ())))));

    open spec fn total(&self) -> bool {
        forall|p0: A, p1: B, p2: C, p3: D, p4: E, p5: F, p6: G, p7: H, p8: I, p9: J, p10: K|
            call_requires(*self, (p0, p1, p2, p3, p4, p5, p6, p7, p8, p9, p10))
    }

    open spec fn passes(&self, args: Seq<Value>, out: RuntimeResult<Value>) -> bool {
        exists|p0: A, p1: B, p2: C, p3: D, p4: E, p5: F, p6: G, p7: H, p8: I, p9: J, p10: K| (p0,
            p1, p2, p3, (p4, p5, p6, p7, (p8, (p9, (p10, ()))))).origins() == args &&
            call_ensures(*self, (p0, p1, p2, p3, p4, p5, p6, p7, p8, p9, p10), out)
    }

    fn apply(&self, name: &str, args: FnCallArg) -> (out: RuntimeResult<Value>) {
        if args.len() != 11 {
            return Err(wrong_arity(name, 11, args.len()));
        }
        let (p0, p1, p2, p3, (p4, p5, p6, p7, (p8, (p9, (p10, ()))))) =
            extract_all::<Self::List>(name, args)?;
        self(p0, p1, p2, p3, p4, p5, p6, p7, p8, p9, p10)
    }
}

impl<
    A: FromValue, B: FromValue, C: FromValue, D: FromValue, E: FromValue, F: FromValue,
    G: FromValue, H: FromValue, I: FromValue, J: FromValue, K: FromValue, L: FromValue,
    Func: Fn(A, B, C, D, E, F, G, H, I, J, K, L) -> RuntimeResult<Value>,
> HostFn<(A, B, C, D, E, F, G, H, I, J, K, L)> for Func {
    type List = (A, B, C, D, (E, F, G, H, (I, J, K, L, ())));

    open spec fn total(&self) -> bool {
        forall|p0: A, p1: B, p2: C, p3: D, p4: E, p5: F, p6: G, p7: H, p8: I, p9: J, p10: K, p11:
            L| call_requires(*self, (p0, p1, p2, p3, p4, p5, p6, p7, p8, p9, p10, p11))
    }

    open spec fn passes(&self, args: Seq<Value>, out: RuntimeResult<Value>) -> bool {
        exists|p0: A, p1: B, p2: C, p3: D, p4: E, p5: F, p6: G, p7: H, p8: I, p9: J, p10: K, p11:
            L| (p0, p1, p2, p3, (p4, p5, p6, p7, (p8, p9, p10, p11, ()))).origins() == args &&
            call_ensures(*self, (p0, p1, p2, p3, p4, p5, p6, p7, p8, p9, p10, p11), out)
    }

    fn apply(&self, name: &str, args: FnCallArg) -> (out: RuntimeResult<Value>) {
        if args.len() != 12 {
            return Err(wrong_arity(name, 12, args.len()));
        }
        let (p0, p1, p2, p3, (p4, p5, p6, p7, (p8, p9, p10, p11, ()))) =
            extract_all::<Self::List>(name, args)?;
        self(p0, p1, p2, p3, p4, p5, p6, p7, p8, p9, p10, p11)
    }
}

impl<
    A: FromValue, B: FromValue, C: FromValue, D: FromValue, E: FromValue, F: FromValue,
    G: FromValue, H: FromValue, I: FromValue, J: FromValue, K: FromValue, L: FromValue,
    M: FromValue,
    Func: Fn(A, B, C, D, E, F, G, H, I, J, K, L, M) -> RuntimeResult<Value>,
> HostFn<(A, B, C, D, E, F, G, H, I, J, K, L, M)> for Func {
    type List = (A, B, C, D, (E, F, G, H, (I, J, K, L, (M, ()))));

    open spec fn total(&self) -> bool {
        forall|p0: A, p1: B, p2: C, p3: D, p4: E, p5: F, p6: G, p7: H, p8: I, p9: J, p10: K, p11:
            L, p12: M| call_requires(*self, (p0, p1, p2, p3, p4, p5, p6, p7, p8, p9, p10, p11,
            p12))
    }

    open spec fn passes(&self, args: Seq<Value>, out: RuntimeResult<Value>) -> bool {
        exists|p0: A, p1: B, p2: C, p3: D, p4: E, p5: F, p6: G, p7: H, p8: I, p9: J, p10: K, p11:
            L, p12: M| (p0, p1, p2, p3, (p4, p5, p6, p7, (p8, p9, p10, p11, (p12, ())))).origins()
            == args && call_ensures(*self, (p0, p1, p2, p3, p4, p5, p6, p7, p8, p9, p10, p11, p12),
            out)
    }

    fn apply(&self, name: &str, args: FnCallArg) -> (out: RuntimeResult<Value>) {
        if args.len() != 13 {
            return Err(wrong_arity(name, 13, args.len()));
        }
        let (p0, p1, p2, p3, (p4, p5, p6, p7, (p8, p9, p10, p11, (p12, ())))) =
            extract_all::<Self::List>(name, args)?;
        self(p0, p1, p2, p3, p4, p5, p6, p7, p8, p9, p10, p11, p12)
    }
}

impl<
    A: FromValue, B: FromValue, C: FromValue, D: FromValue, E: FromValue, F: FromValue,
    G: FromValue, H: FromValue, I: FromValue, J: FromValue, K: FromValue, L: FromValue,
    M: FromValue, N: FromValue,
    Func: Fn(A, B, C, D, E, F, G, H, I, J, K, L, M, N) -> RuntimeResult<Value>,
> HostFn<(A, B, C, D, E, F, G, H, I, J, K, L, M, N)> for Func {
    type List = (A, B, C, D, (E, F, G, H, (I, J, K, L, (M, (N, ())))));

    open spec fn total(&self) -> bool {
        forall|p0: A, p1: B, p2: C, p3: D, p4: E, p5: F, p6: G, p7: H, p8: I, p9: J, p10: K, p11:
            L, p12: M, p13: N| call_requires(*self, (p0, p1, p2, p3, p4, p5, p6, p7, p8, p9, p10,
            p11, p12, p13))
    }

    open spec fn passes(&self, args: Seq<Value>, out: RuntimeResult<Value>) -> bool {
        exists|p0: A, p1: B, p2: C, p3: D, p4: E, p5: F, p6: G, p7: H, p8: I, p9: J, p10: K, p11:
            L, p12: M, p13: N| (p0, p1, p2, p3, (p4, p5, p6, p7, (p8, p9, p10, p11, (p12, (p13,
            ()))))).origins() == args && call_ensures(*self, (p0, p1, p2, p3, p4, p5, p6, p7, p8,
            p9, p10, p11, p12, p13), out)
    }

    fn apply(&self, name: &str, args: FnCallArg) -> (out: RuntimeResult<Value>) {
        if args.len() != 14 {
            return Err(wrong_arity(name, 14, args.len()));
        }
        let (p0, p1, p2, p3, (p4, p5, p6, p7, (p8, p9, p10, p11, (p12, (p13, ()))))) =
            extract_all::<Self::List>(name, args)?;
        self(p0, p1, p2, p3, p4, p5, p6, p7, p8, p9, p10, p11, p12, p13)
    }
}

impl<
    A: FromValue, B: FromValue, C: FromValue, D: FromValue, E: FromValue, F: FromValue,
    G: FromValue, H: FromValue, I: FromValue, J: FromValue, K: FromValue, L: FromValue,
    M: FromValue, N: FromValue, O: FromValue,
    Func: Fn(A, B, C, D, E, F, G, H, I, J, K, L, M, N, O) -> RuntimeResult<Value>,
> HostFn<(A, B, C, D, E, F, G, H, I, J, K, L, M, N, O)> for Func {
    type List = (A, B, C, D, (E, F, G, H, (I, J, K, L, (M, (N, (O, ()))))));

    open spec fn total(&self) -> bool {
        forall|p0: A, p1: B, p2: C, p3: D, p4: E, p5: F, p6: G, p7: H, p8: I, p9: J, p10: K, p11:
            L, p12: M, p13: N, p14: O| call_requires(*self, (p0, p1, p2, p3, p4, p5, p6, p7, p8,
            p9, p10, p11, p12, p13, p14))
    }

    open spec fn passes(&self, args: Seq<Value>, out: RuntimeResult<Value>) -> bool {
        exists|p0: A, p1: B, p2: C, p3: D, p4: E, p5: F, p6: G, p7: H, p8: I, p9: J, p10: K, p11:
            L, p12: M, p13: N, p14: O| (p0, p1, p2, p3, (p4, p5, p6, p7, (p8, p9, p10, p11, (p12,
            (p13, (p14, ())))))).origins() == args && call_ensures(*self, (p0, p1, p2, p3, p4, p5,
            p6, p7, p8, p9, p10, p11, p12, p13, p14), out)
    }

    fn apply(&self, name: &str, args: FnCallArg) -> (out: RuntimeResult<Value>) {
        if args.len() != 15 {
            return Err(wrong_arity(name, 15, args.len()));
        }
        let (p0, p1, p2, p3, (p4, p5, p6, p7, (p8, p9, p10, p11, (p12, (p13, (p14, ())))))) =
            extract_all::<Self::List>(name, args)?;
        self(p0, p1, p2, p3, p4, p5, p6, p7, p8, p9, p10, p11, p12, p13, p14)
    }
}

impl<
    A: FromValue, B: FromValue, C: FromValue, D: FromValue, E: FromValue, F: FromValue,
    G: FromValue, H: FromValue, I: FromValue, J: FromValue, K: FromValue, L: FromValue,
    M: FromValue, N: FromValue, O: FromValue, P: FromValue,
    Func: Fn(A, B, C, D, E, F, G, H, I, J, K, L, M, N, O, P) -> RuntimeResult<Value>,
> HostFn<(A, B, C, D, E, F, G, H, I, J, K, L, M, N, O, P)> for Func {
    type List = (A, B, C, D, (E, F, G, H, (I, J, K, L, (M, N, O, P, ()))));

    open spec fn total(&self) -> bool {
        forall|p0: A, p1: B, p2: C, p3: D, p4: E, p5: F, p6: G, p7: H, p8: I, p9: J, p10: K, p11:
            L, p12: M, p13: N, p14: O, p15: P| call_requires(*self, (p0, p1, p2, p3, p4, p5, p6,
            p7, p8, p9, p10, p11, p12, p13, p14, p15))
    }

    open spec fn passes(&self, args: Seq<Value>, out: RuntimeResult<Value>) -> bool {
        exists|p0: A, p1: B, p2: C, p3: D, p4: E, p5: F, p6: G, p7: H, p8: I, p9: J, p10: K, p11:
            L, p12: M, p13: N, p14: O, p15: P| (p0, p1, p2, p3, (p4, p5, p6, p7, (p8, p9, p10, p11,
            (p12, p13, p14, p15, ())))).origins() == args && call_ensures(*self, (p0, p1, p2, p3,
            p4, p5, p6, p7, p8, p9, p10, p11, p12, p13, p14, p15), out)
    }

    fn apply(&self, name: &str, args: FnCallArg) -> (out: RuntimeResult<Value>) {
        if args.len() != 16 {
            return Err(wrong_arity(name, 16, args.len()));
        }
        let (p0, p1, p2, p3, (p4, p5, p6, p7, (p8, p9, p10, p11, (p12, p13, p14, p15, ())))) =
            extract_all::<Self::List>(name, args)?;
        self(p0, p1, p2, p3, p4, p5, p6, p7, p8, p9, p10, p11, p12, p13, p14, p15)
    }
}

impl<
    A: FromValue, B: FromValue, C: FromValue, D: FromValue, E: FromValue, F: FromValue,
    G: FromValue, H: FromValue, I: FromValue, J: FromValue, K: FromValue, L: FromValue,
    M: FromValue, N: FromValue, O: FromValue, P: FromValue, Q: FromValue,
    Func: Fn(A, B, C, D, E, F, G, H, I, J, K, L, M, N, O, P, Q) -> RuntimeResult<Value>,
> HostFn<(A, B, C, D, E, F, G, H, I, J, K, L, M, N, O, P, Q)> for Func {
    type List = (A, B, C, D, (E, F, G, H, (I, J, K, L, (M, N, O, P, (Q, ())))));

    open spec fn total(&self) -> bool {
        forall|p0: A, p1: B, p2: C, p3: D, p4: E, p5: F, p6: G, p7: H, p8: I, p9: J, p10: K, p11:
            L, p12: M, p13: N, p14: O, p15: P, p16: Q| call_requires(*self, (p0, p1, p2, p3, p4,
            p5, p6, p7, p8, p9, p10, p11, p12, p13, p14, p15, p16))
    }

    open spec fn passes(&self, args: Seq<Value>, out: RuntimeResult<Value>) -> bool {
        exists|p0: A, p1: B, p2: C, p3: D, p4: E, p5: F, p6: G, p7: H, p8: I, p9: J, p10: K, p11:
            L, p12: M, p13: N, p14: O, p15: P, p16: Q| (p0, p1, p2, p3, (p4, p5, p6, p7, (p8, p9,
            p10, p11, (p12, p13, p14, p15, (p16, ()))))).origins() == args && call_ensures(*self,
            (p0, p1, p2, p3, p4, p5, p6, p7, p8, p9, p10, p11, p12, p13, p14, p15, p16), out)
    }

    fn apply(&self, name: &str, args: FnCallArg) -> (out: RuntimeResult<Value>) {
        if args.len() != 17 {
            return Err(wrong_arity(name, 17, args.len()));
        }
        let (p0, p1, p2, p3, (p4, p5, p6, p7, (p8, p9, p10, p11, (p12, p13, p14, p15, (p16, ())))))
            = extract_all::<Self::List>(name, args)?;
        self(p0, p1, p2, p3, p4, p5, p6, p7, p8, p9, p10, p11, p12, p13, p14, p15, p16)
    }
}

impl<
    A: FromValue, B: FromValue, C: FromValue, D: FromValue, E: FromValue, F: FromValue,
    G: FromValue, H: FromValue, I: FromValue, J: FromValue, K: FromValue, L: FromValue,
    M: FromValue, N: FromValue, O: FromValue, P: FromValue, Q: FromValue, R: FromValue,
    Func: Fn(A, B, C, D, E, F, G, H, I, J, K, L, M, N, O, P, Q, R) -> RuntimeResult<Value>,
> HostFn<(A, B, C, D, E, F, G, H, I, J, K, L, M, N, O, P, Q, R)> for Func {
    type List = (A, B, C, D, (E, F, G, H, (I, J, K, L, (M, N, O, P, (Q, (R, ()))))));

    open spec fn total(&self) -> bool {
        forall|p0: A, p1: B, p2: C, p3: D, p4: E, p5: F, p6: G, p7: H, p8: I, p9: J, p10: K, p11:
            L, p12: M, p13: N, p14: O, p15: P, p16: Q, p17: R| call_requires(*self, (p0, p1, p2,
            p3, p4, p5, p6, p7, p8, p9, p10, p11, p12, p13, p14, p15, p16, p17))
    }

    open spec fn passes(&self, args: Seq<Value>, out: RuntimeResult<Value>) -> bool {
        exists|p0: A, p1: B, p2: C, p3: D, p4: E, p5: F, p6: G, p7: H, p8: I, p9: J, p10: K, p11:
            L, p12: M, p13: N, p14: O, p15: P, p16: Q, p17: R| (p0, p1, p2, p3, (p4, p5, p6, p7,
            (p8, p9, p10, p11, (p12, p13, p14, p15, (p16, (p17, ())))))).origins() == args &&
            call_ensures(*self, (p0, p1, p2, p3, p4, p5, p6, p7, p8, p9, p10, p11, p12, p13, p14,
            p15, p16, p17), out)
    }

    fn apply(&self, name: &str, args: FnCallArg) -> (out: RuntimeResult<Value>) {
        if args.len() != 18 {
            return Err(wrong_arity(name, 18, args.len()));
        }
        let (p0, p1, p2, p3, (p4, p5, p6, p7, (p8, p9, p10, p11, (p12, p13, p14, p15, (p16, (p17,
            ())))))) = extract_all::<Self::List>(name, args)?;
        self(p0, p1, p2, p3, p4, p5, p6, p7, p8, p9, p10, p11, p12, p13, p14, p15, p16, p17)
    }
}

impl<
    A: FromValue, B: FromValue, C: FromValue, D: FromValue, E: FromValue, F: FromValue,
    G: FromValue, H: FromValue, I: FromValue, J: FromValue, K: FromValue, L: FromValue,
    M: FromValue, N: FromValue, O: FromValue, P: FromValue, Q: FromValue, R: FromValue,
    S: FromValue,
    Func: Fn(A, B, C, D, E, F, G, H, I, J, K, L, M, N, O, P, Q, R, S) -> RuntimeResult<Value>,
> HostFn<(A, B, C, D, E, F, G, H, I, J, K, L, M, N, O, P, Q, R, S)> for Func {
    type List = (A, B, C, D, (E, F, G, H, (I, J, K, L, (M, N, O, P, (Q, (R, (S, ())))))));

    open spec fn total(&self) -> bool {
        forall|p0: A, p1: B, p2: C, p3: D, p4: E, p5: F, p6: G, p7: H, p8: I, p9: J, p10: K, p11:
            L, p12: M, p13: N, p14: O, p15: P, p16: Q, p17: R, p18: S| call_requires(*self, (p0,
            p1, p2, p3, p4, p5, p6, p7, p8, p9, p10, p11, p12, p13, p14, p15, p16, p17, p18))
    }

    open spec fn passes(&self, args: Seq<Value>, out: RuntimeResult<Value>) -> bool {
        exists|p0: A, p1: B, p2: C, p3: D, p4: E, p5: F, p6: G, p7: H, p8: I, p9: J, p10: K, p11:
            L, p12: M, p13: N, p14: O, p15: P, p16: Q, p17: R, p18: S| (p0, p1, p2, p3, (p4, p5,
            p6, p7, (p8, p9, p10, p11, (p12, p13, p14, p15, (p16, (p17, (p18, ()))))))).origins()
            == args && call_ensures(*self, (p0, p1, p2, p3, p4, p5, p6, p7, p8, p9, p10, p11, p12,
            p13, p14, p15, p16, p17, p18), out)
    }

    fn apply(&self, name: &str, args: FnCallArg) -> (out: RuntimeResult<Value>) {
        if args.len() != 19 {
            return Err(wrong_arity(name, 19, args.len()));
        }
        let (p0, p1, p2, p3, (p4, p5, p6, p7, (p8, p9, p10, p11, (p12, p13, p14, p15, (p16, (p17,
            (p18, ()))))))) = extract_all::<Self::List>(name, args)?;
        self(p0, p1, p2, p3, p4, p5, p6, p7, p8, p9, p10, p11, p12, p13, p14, p15, p16, p17, p18)
    }
}

impl<
    A: FromValue, B: FromValue, C: FromValue, D: FromValue, E: FromValue, F: FromValue,
    G: FromValue, H: FromValue, I: FromValue, J: FromValue, K: FromValue, L: FromValue,
    M: FromValue, N: FromValue, O: FromValue, P: FromValue, Q: FromValue, R: FromValue,
    S: FromValue, T: FromValue,
    Func: Fn(A, B, C, D, E, F, G, H, I, J, K, L, M, N, O, P, Q, R, S, T) -> RuntimeResult<Value>,
> HostFn<(A, B, C, D, E, F, G, H, I, J, K, L, M, N, O, P, Q, R, S, T)> for Func {
    type List = (A, B, C, D, (E, F, G, H, (I, J, K, L, (M, N, O, P, (Q, R, S, T, ())))));

    open spec fn total(&self) -> bool {
        forall|p0: A, p1: B, p2: C, p3: D, p4: E, p5: F, p6: G, p7: H, p8: I, p9: J, p10: K, p11:
            L, p12: M, p13: N, p14: O, p15: P, p16: Q, p17: R, p18: S, p19: T| call_requires(*self,
            (p0, p1, p2, p3, p4, p5, p6, p7, p8, p9, p10, p11, p12, p13, p14, p15, p16, p17, p18,
            p19))
    }

    open spec fn passes(&self, args: Seq<Value>, out: RuntimeResult<Value>) -> bool {
        exists|p0: A, p1: B, p2: C, p3: D, p4: E, p5: F, p6: G, p7: H, p8: I, p9: J, p10: K, p11:
            L, p12: M, p13: N, p14: O, p15: P, p16: Q, p17: R, p18: S, p19: T| (p0, p1, p2, p3,
            (p4, p5, p6, p7, (p8, p9, p10, p11, (p12, p13, p14, p15, (p16, p17, p18, p19,
            ()))))).origins() == args && call_ensures(*self, (p0, p1, p2, p3, p4, p5, p6, p7, p8,
            p9, p10, p11, p12, p13, p14, p15, p16, p17, p18, p19), out)
    }

    fn apply(&self, name: &str, args: FnCallArg) -> (out: RuntimeResult<Value>) {
        if args.len() != 20 {
            return Err(wrong_arity(name, 20, args.len()));
        }
        let (p0, p1, p2, p3, (p4, p5, p6, p7, (p8, p9, p10, p11, (p12, p13, p14, p15, (p16, p17,
            p18, p19, ()))))) = extract_all::<Self::List>(name, args)?;
        self(p0, p1, p2, p3, p4, p5, p6, p7, p8, p9, p10, p11, p12, p13, p14, p15, p16, p17, p18,
            p19)
    }
}

impl<
    A: FromValue, B: FromValue, C: FromValue, D: FromValue, E: FromValue, F: FromValue,
    G: FromValue, H: FromValue, I: FromValue, J: FromValue, K: FromValue, L: FromValue,
    M: FromValue, N: FromValue, O: FromValue, P: FromValue, Q: FromValue, R: FromValue,
    S: FromValue, T: FromValue, U: FromValue,
    Func: Fn(A, B, C, D, E, F, G, H, I, J, K, L, M, N, O, P, Q, R, S, T, U) ->
        RuntimeResult<Value>,
> HostFn<(A, B, C, D, E, F, G, H, I, J, K, L, M, N, O, P, Q, R, S, T, U)> for Func {
    type List = (A, B, C, D, (E, F, G, H, (I, J, K, L, (M, N, O, P, (Q, R, S, T, (U, ()))))));

    open spec fn total(&self) -> bool {
        forall|p0: A, p1: B, p2: C, p3: D, p4: E, p5: F, p6: G, p7: H, p8: I, p9: J, p10: K, p11:
            L, p12: M, p13: N, p14: O, p15: P, p16: Q, p17: R, p18: S, p19: T, p20: U|
            call_requires(*self, (p0, p1, p2, p3, p4, p5, p6, p7, p8, p9, p10, p11, p12, p13, p14,
            p15, p16, p17, p18, p19, p20))
    }

    open spec fn passes(&self, args: Seq<Value>, out: RuntimeResult<Value>) -> bool {
        exists|p0: A, p1: B, p2: C, p3: D, p4: E, p5: F, p6: G, p7: H, p8: I, p9: J, p10: K, p11:
            L, p12: M, p13: N, p14: O, p15: P, p16: Q, p17: R, p18: S, p19: T, p20: U| (p0, p1, p2,
            p3, (p4, p5, p6, p7, (p8, p9, p10, p11, (p12, p13, p14, p15, (p16, p17, p18, p19, (p20,
            ())))))).origins() == args && call_ensures(*self, (p0, p1, p2, p3, p4, p5, p6, p7, p8,
            p9, p10, p11, p12, p13, p14, p15, p16, p17, p18, p19, p20), out)
    }

    fn apply(&self, name: &str, args: FnCallArg) -> (out: RuntimeResult<Value>) {
        if args.len() != 21 {
            return Err(wrong_arity(name, 21, args.len()));
        }
        let (p0, p1, p2, p3, (p4, p5, p6, p7, (p8, p9, p10, p11, (p12, p13, p14, p15, (p16, p17,
            p18, p19, (p20, ())))))) = extract_all::<Self::List>(name, args)?;
        self(p0, p1, p2, p3, p4, p5, p6, p7, p8, p9, p10, p11, p12, p13, p14, p15, p16, p17, p18,
            p19, p20)
    }
}

impl<
    A: FromValue, B: FromValue, C: FromValue, D: FromValue, E: FromValue, F: FromValue,
    G: FromValue, H: FromValue, I: FromValue, J: FromValue, K: FromValue, L: FromValue,
    M: FromValue, N: FromValue, O: FromValue, P: FromValue, Q: FromValue, R: FromValue,
    S: FromValue, T: FromValue, U: FromValue, V: FromValue,
    Func: Fn(A, B, C, D, E, F, G, H, I, J, K, L, M, N, O, P, Q, R, S, T, U, V) ->
        RuntimeResult<Value>,
> HostFn<(A, B, C, D, E, F, G, H, I, J, K, L, M, N, O, P, Q, R, S, T, U, V)> for Func {
    type List = (A, B, C, D, (E, F, G, H, (I, J, K, L, (M, N, O, P, (Q, R, S, T, (U, (V, ())))))));

    open spec fn total(&self) -> bool {
        forall|p0: A, p1: B, p2: C, p3: D, p4: E, p5: F, p6: G, p7: H, p8: I, p9: J, p10: K, p11:
            L, p12: M, p13: N, p14: O, p15: P, p16: Q, p17: R, p18: S, p19: T, p20: U, p21: V|
            call_requires(*self, (p0, p1, p2, p3, p4, p5, p6, p7, p8, p9, p10, p11, p12, p13, p14,
            p15, p16, p17, p18, p19, p20, p21))
    }

    open spec fn passes(&self, args: Seq<Value>, out: RuntimeResult<Value>) -> bool {
        exists|p0: A, p1: B, p2: C, p3: D, p4: E, p5: F, p6: G, p7: H, p8: I, p9: J, p10: K, p11:
            L, p12: M, p13: N, p14: O, p15: P, p16: Q, p17: R, p18: S, p19: T, p20: U, p21: V| (p0,
            p1, p2, p3, (p4, p5, p6, p7, (p8, p9, p10, p11, (p12, p13, p14, p15, (p16, p17, p18,
            p19, (p20, (p21, ()))))))).origins() == args && call_ensures(*self, (p0, p1, p2, p3,
            p4, p5, p6, p7, p8, p9, p10, p11, p12, p13, p14, p15, p16, p17, p18, p19, p20, p21),
            out)
    }

    fn apply(&self, name: &str, args: FnCallArg) -> (out: RuntimeResult<Value>) {
        if args.len() != 22 {
            return Err(wrong_arity(name, 22, args.len()));
        }
        let (p0, p1, p2, p3, (p4, p5, p6, p7, (p8, p9, p10, p11, (p12, p13, p14, p15, (p16, p17,
            p18, p19, (p20, (p21, ()))))))) = extract_all::<Self::List>(name, args)?;
        self(p0, p1, p2, p3, p4, p5, p6, p7, p8, p9, p10, p11, p12, p13, p14, p15, p16, p17, p18,
            p19, p20, p21)
    }
}

impl<
    A: FromValue, B: FromValue, C: FromValue, D: FromValue, E: FromValue, F: FromValue,
    G: FromValue, H: FromValue, I: FromValue, J: FromValue, K: FromValue, L: FromValue,
    M: FromValue, N: FromValue, O: FromValue, P: FromValue, Q: FromValue, R: FromValue,
    S: FromValue, T: FromValue, U: FromValue, V: FromValue, W: FromValue,
    Func: Fn(A, B, C, D, E, F, G, H, I, J, K, L, M, N, O, P, Q, R, S, T, U, V, W) ->
        RuntimeResult<Value>,
> HostFn<(A, B, C, D, E, F, G, H, I, J, K, L, M, N, O, P, Q, R, S, T, U, V, W)> for Func {
    type List = (A, B, C, D, (E, F, G, H, (I, J, K, L, (M, N, O, P, (Q, R, S, T, (U, (V, (W,
        ()))))))));

    open spec fn total(&self) -> bool {
        forall|p0: A, p1: B, p2: C, p3: D, p4: E, p5: F, p6: G, p7: H, p8: I, p9: J, p10: K, p11:
            L, p12: M, p13: N, p14: O, p15: P, p16: Q, p17: R, p18: S, p19: T, p20: U, p21: V, p22:
            W| call_requires(*self, (p0, p1, p2, p3, p4, p5, p6, p7, p8, p9, p10, p11, p12, p13,
            p14, p15, p16, p17, p18, p19, p20, p21, p22))
    }

    open spec fn passes(&self, args: Seq<Value>, out: RuntimeResult<Value>) -> bool {
        exists|p0: A, p1: B, p2: C, p3: D, p4: E, p5: F, p6: G, p7: H, p8: I, p9: J, p10: K, p11:
            L, p12: M, p13: N, p14: O, p15: P, p16: Q, p17: R, p18: S, p19: T, p20: U, p21: V, p22:
            W| (p0, p1, p2, p3, (p4, p5, p6, p7, (p8, p9, p10, p11, (p12, p13, p14, p15, (p16, p17,
            p18, p19, (p20, (p21, (p22, ())))))))).origins() == args && call_ensures(*self, (p0,
            p1, p2, p3, p4, p5, p6, p7, p8, p9, p10, p11, p12, p13, p14, p15, p16, p17, p18, p19,
            p20, p21, p22), out)
    }

    fn apply(&self, name: &str, args: FnCallArg) -> (out: RuntimeResult<Value>) {
        if args.len() != 23 {
            return Err(wrong_arity(name, 23, args.len()));
        }
        let (p0, p1, p2, p3, (p4, p5, p6, p7, (p8, p9, p10, p11, (p12, p13, p14, p15, (p16, p17,
            p18, p19, (p20, (p21, (p22, ())))))))) = extract_all::<Self::List>(name, args)?;
        self(p0, p1, p2, p3, p4, p5, p6, p7, p8, p9, p10, p11, p12, p13, p14, p15, p16, p17, p18,
            p19, p20, p21, p22)
    }
}

impl<
    A: FromValue, B: FromValue, C: FromValue, D: FromValue, E: FromValue, F: FromValue,
    G: FromValue, H: FromValue, I: FromValue, J: FromValue, K: FromValue, L: FromValue,
    M: FromValue, N: FromValue, O: FromValue, P: FromValue, Q: FromValue, R: FromValue,
    S: FromValue, T: FromValue, U: FromValue, V: FromValue, W: FromValue, X: FromValue,
    Func: Fn(A, B, C, D, E, F, G, H, I, J, K, L, M, N, O, P, Q, R, S, T, U, V, W, X) ->
        RuntimeResult<Value>,
> HostFn<(A, B, C, D, E, F, G, H, I, J, K, L, M, N, O, P, Q, R, S, T, U, V, W, X)> for Func {
    type List = (A, B, C, D, (E, F, G, H, (I, J, K, L, (M, N, O, P, (Q, R, S, T, (U, V, W, X,
        ()))))));

    open spec fn total(&self) -> bool {
        forall|p0: A, p1: B, p2: C, p3: D, p4: E, p5: F, p6: G, p7: H, p8: I, p9: J, p10: K, p11:
            L, p12: M, p13: N, p14: O, p15: P, p16: Q, p17: R, p18: S, p19: T, p20: U, p21: V, p22:
            W, p23: X| call_requires(*self, (p0, p1, p2, p3, p4, p5, p6, p7, p8, p9, p10, p11, p12,
            p13, p14, p15, p16, p17, p18, p19, p20, p21, p22, p23))
    }

    open spec fn passes(&self, args: Seq<Value>, out: RuntimeResult<Value>) -> bool {
        exists|p0: A, p1: B, p2: C, p3: D, p4: E, p5: F, p6: G, p7: H, p8: I, p9: J, p10: K, p11:
            L, p12: M, p13: N, p14: O, p15: P, p16: Q, p17: R, p18: S, p19: T, p20: U, p21: V, p22:
            W, p23: X| (p0, p1, p2, p3, (p4, p5, p6, p7, (p8, p9, p10, p11, (p12, p13, p14, p15,
            (p16, p17, p18, p19, (p20, p21, p22, p23, ())))))).origins() == args &&
            call_ensures(*self, (p0, p1, p2, p3, p4, p5, p6, p7, p8, p9, p10, p11, p12, p13, p14,
            p15, p16, p17, p18, p19, p20, p21, p22, p23), out)
    }

    fn apply(&self, name: &str, args: FnCallArg) -> (out: RuntimeResult<Value>) {
        if args.len() != 24 {
            return Err(wrong_arity(name, 24, args.len()));
        }
        let (p0, p1, p2, p3, (p4, p5, p6, p7, (p8, p9, p10, p11, (p12, p13, p14, p15, (p16, p17,
            p18, p19, (p20, p21, p22, p23, ())))))) = extract_all::<Self::List>(name, args)?;
        self(p0, p1, p2, p3, p4, p5, p6, p7, p8, p9, p10, p11, p12, p13, p14, p15, p16, p17, p18,
            p19, p20, p21, p22, p23)
    }
}

/// A function of 0 parameters that accepts every tuple of arguments is total.
pub proof fn lemma_total_0<Func: Fn() -> RuntimeResult<Value>>(f: Func)
    requires
        call_requires(f, ()),
    ensures
        HostFn::<()>::total(&f),
{
}

/// A function of 1 parameter that accepts every tuple of arguments is total.
pub proof fn lemma_total_1<A: FromValue, Func: Fn(A) -> RuntimeResult<Value>>(f: Func)
    requires
        forall|p0: A| call_requires(f, (p0,)),
    ensures
        HostFn::<(A,)>::total(&f),
{
}

/// A function of 2 parameters that accepts every tuple of arguments is total.
pub proof fn lemma_total_2<
    A: FromValue, B: FromValue,
    Func: Fn(A, B) -> RuntimeResult<Value>,
>(f: Func)
    requires
        forall|p0: A, p1: B| call_requires(f, (p0, p1)),
    ensures
        HostFn::<(A, B)>::total(&f),
{
}

/// A function of 3 parameters that accepts every tuple of arguments is total.
pub proof fn lemma_total_3<
    A: FromValue, B: FromValue, C: FromValue,
    Func: Fn(A, B, C) -> RuntimeResult<Value>,
>(f: Func)
    requires
        forall|p0: A, p1: B, p2: C| call_requires(f, (p0, p1, p2)),
    ensures
        HostFn::<(A, B, C)>::total(&f),
{
}

/// A function of 4 parameters that accepts every tuple of arguments is total.
pub proof fn lemma_total_4<
    A: FromValue, B: FromValue, C: FromValue, D: FromValue,
    Func: Fn(A, B, C, D) -> RuntimeResult<Value>,
>(f: Func)
    requires
        forall|p0: A, p1: B, p2: C, p3: D| call_requires(f, (p0, p1, p2, p3)),
    ensures
        HostFn::<(A, B, C, D)>::total(&f),
{
}

/// A function of 5 parameters that accepts every tuple of arguments is total.
pub proof fn lemma_total_5<
    A: FromValue, B: FromValue, C: FromValue, D: FromValue, E: FromValue,
    Func: Fn(A, B, C, D, E) -> RuntimeResult<Value>,
>(f: Func)
    requires
        forall|p0: A, p1: B, p2: C, p3: D, p4: E| call_requires(f, (p0, p1, p2, p3, p4)),
    ensures
        HostFn::<(A, B, C, D, E)>::total(&f),
{
}

/// A function of 6 parameters that accepts every tuple of arguments is total.
pub proof fn lemma_total_6<
    A: FromValue, B: FromValue, C: FromValue, D: FromValue, E: FromValue, F: FromValue,
    Func: Fn(A, B, C, D, E, F) -> RuntimeResult<Value>,
>(f: Func)
    requires
        forall|p0: A, p1: B, p2: C, p3: D, p4: E, p5: F| call_requires(f, (p0, p1, p2, p3, p4, p5)),
    ensures
        HostFn::<(A, B, C, D, E, F)>::total(&f),
{
}

/// A function of 7 parameters that accepts every tuple of arguments is total.
pub proof fn lemma_total_7<
    A: FromValue, B: FromValue, C: FromValue, D: FromValue, E: FromValue, F: FromValue,
    G: FromValue,
    Func: Fn(A, B, C, D, E, F, G) -> RuntimeResult<Value>,
>(f: Func)
    requires
        forall|p0: A, p1: B, p2: C, p3: D, p4: E, p5: F, p6: G| call_requires(f, (p0, p1, p2, p3,
            p4, p5, p6)),
    ensures
        HostFn::<(A, B, C, D, E, F, G)>::total(&f),
{
}

/// A function of 8 parameters that accepts every tuple of arguments is total.
pub proof fn lemma_total_8<
    A: FromValue, B: FromValue, C: FromValue, D: FromValue, E: FromValue, F: FromValue,
    G: FromValue, H: FromValue,
    Func: Fn(A, B, C, D, E, F, G, H) -> RuntimeResult<Value>,
>(f: Func)
    requires
        forall|p0: A, p1: B, p2: C, p3: D, p4: E, p5: F, p6: G, p7: H| call_requires(f, (p0, p1,
            p2, p3, p4, p5, p6, p7)),
    ensures
        HostFn::<(A, B, C, D, E, F, G, H)>::total(&f),
{
}

/// A function of 9 parameters that accepts every tuple of arguments is total.
pub proof fn lemma_total_9<
    A: FromValue, B: FromValue, C: FromValue, D: FromValue, E: FromValue, F: FromValue,
    G: FromValue, H: FromValue, I: FromValue,
    Func: Fn(A, B, C, D, E, F, G, H, I) -> RuntimeResult<Value>,
>(f: Func)
    requires
        forall|p0: A, p1: B, p2: C, p3: D, p4: E, p5: F, p6: G, p7: H, p8: I| call_requires(f, (p0,
            p1, p2, p3, p4, p5, p6, p7, p8)),
    ensures
        HostFn::<(A, B, C, D, E, F, G, H, I)>::total(&f),
{
}

/// A function of 10 parameters that accepts every tuple of arguments is total.
pub proof fn lemma_total_10<
    A: FromValue, B: FromValue, C: FromValue, D: FromValue, E: FromValue, F: FromValue,
    G: FromValue, H: FromValue, I: FromValue, J: FromValue,
    Func: Fn(A, B, C, D, E, F, G, H, I, J) -> RuntimeResult<Value>,
>(f: Func)
    requires
        forall|p0: A, p1: B, p2: C, p3: D, p4: E, p5: F, p6: G, p7: H, p8: I, p9: J|
            call_requires(f, (p0, p1, p2, p3, p4, p5, p6, p7, p8, p9)),
    ensures
        HostFn::<(A, B, C, D, E, F, G, H, I, J)>::total(&f),
{
}

/// A function of 11 parameters that accepts every tuple of arguments is total.
pub proof fn lemma_total_11<
    A: FromValue, B: FromValue, C: FromValue, D: FromValue, E: FromValue, F: FromValue,
    G: FromValue, H: FromValue, I: FromValue, J: FromValue, K: FromValue,
    Func: Fn(A, B, C, D, E, F, G, H, I, J, K) -> RuntimeResult<Value>,
>(f: Func)
    requires
        forall|p0: A, p1: B, p2: C, p3: D, p4: E, p5: F, p6: G, p7: H, p8: I, p9: J, p10: K|
            call_requires(f, (p0, p1, p2, p3, p4, p5, p6, p7, p8, p9, p10)),
    ensures
        HostFn::<(A, B, C, D, E, F, G, H, I, J, K)>::total(&f),
{
}

/// A function of 12 parameters that accepts every tuple of arguments is total.
pub proof fn lemma_total_12<
    A: FromValue, B: FromValue, C: FromValue, D: FromValue, E: FromValue, F: FromValue,
    G: FromValue, H: FromValue, I: FromValue, J: FromValue, K: FromValue, L: FromValue,
    Func: Fn(A, B, C, D, E, F, G, H, I, J, K, L) -> RuntimeResult<Value>,
>(f: Func)
    requires
        forall|p0: A, p1: B, p2: C, p3: D, p4: E, p5: F, p6: G, p7: H, p8: I, p9: J, p10: K, p11:
            L| call_requires(f, (p0, p1, p2, p3, p4, p5, p6, p7, p8, p9, p10, p11)),
    ensures
        HostFn::<(A, B, C, D, E, F, G, H, I, J, K, L)>::total(&f),
{
}

/// A function of 13 parameters that accepts every tuple of arguments is total.
pub proof fn lemma_total_13<
    A: FromValue, B: FromValue, C: FromValue, D: FromValue, E: FromValue, F: FromValue,
    G: FromValue, H: FromValue, I: FromValue, J: FromValue, K: FromValue, L: FromValue,
    M: FromValue,
    Func: Fn(A, B, C, D, E, F, G, H, I, J, K, L, M) -> RuntimeResult<Value>,
>(f: Func)
    requires
        forall|p0: A, p1: B, p2: C, p3: D, p4: E, p5: F, p6: G, p7: H, p8: I, p9: J, p10: K, p11:
            L, p12: M| call_requires(f, (p0, p1, p2, p3, p4, p5, p6, p7, p8, p9, p10, p11, p12)),
    ensures
        HostFn::<(A, B, C, D, E, F, G, H, I, J, K, L, M)>::total(&f),
{
}

/// A function of 14 parameters that accepts every tuple of arguments is total.
pub proof fn lemma_total_14<
    A: FromValue, B: FromValue, C: FromValue, D: FromValue, E: FromValue, F: FromValue,
    G: FromValue, H: FromValue, I: FromValue, J: FromValue, K: FromValue, L: FromValue,
    M: FromValue, N: FromValue,
    Func: Fn(A, B, C, D, E, F, G, H, I, J, K, L, M, N) -> RuntimeResult<Value>,
>(f: Func)
    requires
        forall|p0: A, p1: B, p2: C, p3: D, p4: E, p5: F, p6: G, p7: H, p8: I, p9: J, p10: K, p11:
            L, p12: M, p13: N| call_requires(f, (p0, p1, p2, p3, p4, p5, p6, p7, p8, p9, p10, p11,
            p12, p13)),
    ensures
        HostFn::<(A, B, C, D, E, F, G, H, I, J, K, L, M, N)>::total(&f),
{
}

/// A function of 15 parameters that accepts every tuple of arguments is total.
pub proof fn lemma_total_15<
    A: FromValue, B: FromValue, C: FromValue, D: FromValue, E: FromValue, F: FromValue,
    G: FromValue, H: FromValue, I: FromValue, J: FromValue, K: FromValue, L: FromValue,
    M: FromValue, N: FromValue, O: FromValue,
    Func: Fn(A, B, C, D, E, F, G, H, I, J, K, L, M, N, O) -> RuntimeResult<Value>,
>(f: Func)
    requires
        forall|p0: A, p1: B, p2: C, p3: D, p4: E, p5: F, p6: G, p7: H, p8: I, p9: J, p10: K, p11:
            L, p12: M, p13: N, p14: O| call_requires(f, (p0, p1, p2, p3, p4, p5, p6, p7, p8, p9,
            p10, p11, p12, p13, p14)),
    ensures
        HostFn::<(A, B, C, D, E, F, G, H, I, J, K, L, M, N, O)>::total(&f),
{
}

/// A function of 16 parameters that accepts every tuple of arguments is total.
pub proof fn lemma_total_16<
    A: FromValue, B: FromValue, C: FromValue, D: FromValue, E: FromValue, F: FromValue,
    G: FromValue, H: FromValue, I: FromValue, J: FromValue, K: FromValue, L: FromValue,
    M: FromValue, N: FromValue, O: FromValue, P: FromValue,
    Func: Fn(A, B, C, D, E, F, G, H, I, J, K, L, M, N, O, P) -> RuntimeResult<Value>,
>(f: Func)
    requires
        forall|p0: A, p1: B, p2: C, p3: D, p4: E, p5: F, p6: G, p7: H, p8: I, p9: J, p10: K, p11:
            L, p12: M, p13: N, p14: O, p15: P| call_requires(f, (p0, p1, p2, p3, p4, p5, p6, p7,
            p8, p9, p10, p11, p12, p13, p14, p15)),
    ensures
        HostFn::<(A, B, C, D, E, F, G, H, I, J, K, L, M, N, O, P)>::total(&f),
{
}

/// A function of 17 parameters that accepts every tuple of arguments is total.
pub proof fn lemma_total_17<
    A: FromValue, B: FromValue, C: FromValue, D: FromValue, E: FromValue, F: FromValue,
    G: FromValue, H: FromValue, I: FromValue, J: FromValue, K: FromValue, L: FromValue,
    M: FromValue, N: FromValue, O: FromValue, P: FromValue, Q: FromValue,
    Func: Fn(A, B, C, D, E, F, G, H, I, J, K, L, M, N, O, P, Q) -> RuntimeResult<Value>,
>(f: Func)
    requires
        forall|p0: A, p1: B, p2: C, p3: D, p4: E, p5: F, p6: G, p7: H, p8: I, p9: J, p10: K, p11:
            L, p12: M, p13: N, p14: O, p15: P, p16: Q| call_requires(f, (p0, p1, p2, p3, p4, p5,
            p6, p7, p8, p9, p10, p11, p12, p13, p14, p15, p16)),
    ensures
        HostFn::<(A, B, C, D, E, F, G, H, I, J, K, L, M, N, O, P, Q)>::total(&f),
{
}

/// A function of 18 parameters that accepts every tuple of arguments is total.
pub proof fn lemma_total_18<
    A: FromValue, B: FromValue, C: FromValue, D: FromValue, E: FromValue, F: FromValue,
    G: FromValue, H: FromValue, I: FromValue, J: FromValue, K: FromValue, L: FromValue,
    M: FromValue, N: FromValue, O: FromValue, P: FromValue, Q: FromValue, R: FromValue,
    Func: Fn(A, B, C, D, E, F, G, H, I, J, K, L, M, N, O, P, Q, R) -> RuntimeResult<Value>,
>(f: Func)
    requires
        forall|p0: A, p1: B, p2: C, p3: D, p4: E, p5: F, p6: G, p7: H, p8: I, p9: J, p10: K, p11:
            L, p12: M, p13: N, p14: O, p15: P, p16: Q, p17: R| call_requires(f, (p0, p1, p2, p3,
            p4, p5, p6, p7, p8, p9, p10, p11, p12, p13, p14, p15, p16, p17)),
    ensures
        HostFn::<(A, B, C, D, E, F, G, H, I, J, K, L, M, N, O, P, Q, R)>::total(&f),
{
}

/// A function of 19 parameters that accepts every tuple of arguments is total.
pub proof fn lemma_total_19<
    A: FromValue, B: FromValue, C: FromValue, D: FromValue, E: FromValue, F: FromValue,
    G: FromValue, H: FromValue, I: FromValue, J: FromValue, K: FromValue, L: FromValue,
    M: FromValue, N: FromValue, O: FromValue, P: FromValue, Q: FromValue, R: FromValue,
    S: FromValue,
    Func: Fn(A, B, C, D, E, F, G, H, I, J, K, L, M, N, O, P, Q, R, S) -> RuntimeResult<Value>,
>(f: Func)
    requires
        forall|p0: A, p1: B, p2: C, p3: D, p4: E, p5: F, p6: G, p7: H, p8: I, p9: J, p10: K, p11:
            L, p12: M, p13: N, p14: O, p15: P, p16: Q, p17: R, p18: S| call_requires(f, (p0, p1,
            p2, p3, p4, p5, p6, p7, p8, p9, p10, p11, p12, p13, p14, p15, p16, p17, p18)),
    ensures
        HostFn::<(A, B, C, D, E, F, G, H, I, J, K, L, M, N, O, P, Q, R, S)>::total(&f),
{
}

/// A function of 20 parameters that accepts every tuple of arguments is total.
pub proof fn lemma_total_20<
    A: FromValue, B: FromValue, C: FromValue, D: FromValue, E: FromValue, F: FromValue,
    G: FromValue, H: FromValue, I: FromValue, J: FromValue, K: FromValue, L: FromValue,
    M: FromValue, N: FromValue, O: FromValue, P: FromValue, Q: FromValue, R: FromValue,
    S: FromValue, T: FromValue,
    Func: Fn(A, B, C, D, E, F, G, H, I, J, K, L, M, N, O, P, Q, R, S, T) -> RuntimeResult<Value>,
>(f: Func)
    requires
        forall|p0: A, p1: B, p2: C, p3: D, p4: E, p5: F, p6: G, p7: H, p8: I, p9: J, p10: K, p11:
            L, p12: M, p13: N, p14: O, p15: P, p16: Q, p17: R, p18: S, p19: T| call_requires(f,
            (p0, p1, p2, p3, p4, p5, p6, p7, p8, p9, p10, p11, p12, p13, p14, p15, p16, p17, p18,
            p19)),
    ensures
        HostFn::<(A, B, C, D, E, F, G, H, I, J, K, L, M, N, O, P, Q, R, S, T)>::total(&f),
{
}

/// A function of 21 parameters that accepts every tuple of arguments is total.
pub proof fn lemma_total_21<
    A: FromValue, B: FromValue, C: FromValue, D: FromValue, E: FromValue, F: FromValue,
    G: FromValue, H: FromValue, I: FromValue, J: FromValue, K: FromValue, L: FromValue,
    M: FromValue, N: FromValue, O: FromValue, P: FromValue, Q: FromValue, R: FromValue,
    S: FromValue, T: FromValue, U: FromValue,
    Func: Fn(A, B, C, D, E, F, G, H, I, J, K, L, M, N, O, P, Q, R, S, T, U) -> RuntimeResult<Value>,
>(f: Func)
    requires
        forall|p0: A, p1: B, p2: C, p3: D, p4: E, p5: F, p6: G, p7: H, p8: I, p9: J, p10: K, p11:
            L, p12: M, p13: N, p14: O, p15: P, p16: Q, p17: R, p18: S, p19: T, p20: U|
            call_requires(f, (p0, p1, p2, p3, p4, p5, p6, p7, p8, p9, p10, p11, p12, p13, p14, p15,
            p16, p17, p18, p19, p20)),
    ensures
        HostFn::<(A, B, C, D, E, F, G, H, I, J, K, L, M, N, O, P, Q, R, S, T, U)>::total(&f),
{
}

/// A function of 22 parameters that accepts every tuple of arguments is total.
pub proof fn lemma_total_22<
    A: FromValue, B: FromValue, C: FromValue, D: FromValue, E: FromValue, F: FromValue,
    G: FromValue, H: FromValue, I: FromValue, J: FromValue, K: FromValue, L: FromValue,
    M: FromValue, N: FromValue, O: FromValue, P: FromValue, Q: FromValue, R: FromValue,
    S: FromValue, T: FromValue, U: FromValue, V: FromValue,
    Func: Fn(
        A, B, C, D, E, F, G, H, I, J, K, L, M, N, O, P, Q, R, S, T, U, V,
    ) -> RuntimeResult<Value>,
>(f: Func)
    requires
        forall|p0: A, p1: B, p2: C, p3: D, p4: E, p5: F, p6: G, p7: H, p8: I, p9: J, p10: K, p11:
            L, p12: M, p13: N, p14: O, p15: P, p16: Q, p17: R, p18: S, p19: T, p20: U, p21: V|
            call_requires(f, (p0, p1, p2, p3, p4, p5, p6, p7, p8, p9, p10, p11, p12, p13, p14, p15,
            p16, p17, p18, p19, p20, p21)),
    ensures
        HostFn::<(A, B, C, D, E, F, G, H, I, J, K, L, M, N, O, P, Q, R, S, T, U, V)>::total(&f),
{
}

/// A function of 23 parameters that accepts every tuple of arguments is total.
pub proof fn lemma_total_23<
    A: FromValue, B: FromValue, C: FromValue, D: FromValue, E: FromValue, F: FromValue,
    G: FromValue, H: FromValue, I: FromValue, J: FromValue, K: FromValue, L: FromValue,
    M: FromValue, N: FromValue, O: FromValue, P: FromValue, Q: FromValue, R: FromValue,
    S: FromValue, T: FromValue, U: FromValue, V: FromValue, W: FromValue,
    Func: Fn(
        A, B, C, D, E, F, G, H, I, J, K, L, M, N, O, P, Q, R, S, T, U, V, W,
    ) -> RuntimeResult<Value>,
>(f: Func)
    requires
        forall|p0: A, p1: B, p2: C, p3: D, p4: E, p5: F, p6: G, p7: H, p8: I, p9: J, p10: K, p11:
            L, p12: M, p13: N, p14: O, p15: P, p16: Q, p17: R, p18: S, p19: T, p20: U, p21: V, p22:
            W| call_requires(f, (p0, p1, p2, p3, p4, p5, p6, p7, p8, p9, p10, p11, p12, p13, p14,
            p15, p16, p17, p18, p19, p20, p21, p22)),
    ensures
        HostFn::<(A, B, C, D, E, F, G, H, I, J, K, L, M, N, O, P, Q, R, S, T, U, V, W)>::total(&f),
{
}

/// A function of 24 parameters that accepts every tuple of arguments is total.
pub proof fn lemma_total_24<
    A: FromValue, B: FromValue, C: FromValue, D: FromValue, E: FromValue, F: FromValue,
    G: FromValue, H: FromValue, I: FromValue, J: FromValue, K: FromValue, L: FromValue,
    M: FromValue, N: FromValue, O: FromValue, P: FromValue, Q: FromValue, R: FromValue,
    S: FromValue, T: FromValue, U: FromValue, V: FromValue, W: FromValue, X: FromValue,
    Func: Fn(
        A, B, C, D, E, F, G, H, I, J, K, L, M, N, O, P, Q, R, S, T, U, V, W, X,
    ) -> RuntimeResult<Value>,
>(f: Func)
    requires
        forall|p0: A, p1: B, p2: C, p3: D, p4: E, p5: F, p6: G, p7: H, p8: I, p9: J, p10: K, p11:
            L, p12: M, p13: N, p14: O, p15: P, p16: Q, p17: R, p18: S, p19: T, p20: U, p21: V, p22:
            W, p23: X| call_requires(f, (p0, p1, p2, p3, p4, p5, p6, p7, p8, p9, p10, p11, p12,
            p13, p14, p15, p16, p17, p18, p19, p20, p21, p22, p23)),
    ensures
        HostFn::<(A, B, C, D, E, F, G, H, I, J, K, L, M, N, O, P, Q, R, S, T, U, V, W, X)>::total(&f),
{
}

} // verus!
