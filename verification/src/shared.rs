//! Shared ownership and interior mutability for values that outlive a single
//! borrow: handles to callables and the state of host hooks.

use vstd::prelude::*;
use vstd::rwlock::{ReadHandle, RwLock, RwLockPredicate, WriteHandle};
use std::rc::Rc;

verus! {

/// A reference-counted handle. Cloning the handle shares the value; it never
/// duplicates it.
#[derive(Debug, PartialEq, Eq)]
pub struct Shared<T>(pub Rc<T>);

impl<T> Shared<T> {
    /// The shared value.
    pub open spec fn view(&self) -> T {
        *self.0
    }

    /// Moves `v` behind a new handle.
    pub fn new(v: T) -> (r: Self)
        ensures
            r@ == v,
    {
        Shared(Rc::new(v))
    }
}

impl<T> Clone for Shared<T> {
    /// Another handle to the same value.
    ///
    /// Taken on trust: the body is `std::rc::Rc::clone`, which makes another
    /// pointer to the same allocation and leaves the value alone. The
    /// contract claims that the new handle equals the old one; handles are
    /// equal when the values behind them are.
    #[verifier::external_body]
    fn clone(&self) -> (r: Self)
        ensures
            r == *self,
    {
        Shared(Rc::clone(&self.0))
    }
}

impl<T> std::ops::Deref for Shared<T> {
    type Target = T;

    /// Borrows the shared value.
    fn deref(&self) -> (r: &T)
        ensures
            *r == self@,
    {
        &*self.0
    }
}

impl<T> From<T> for Shared<T> {
    fn from(v: T) -> (r: Self)
    {
        Shared::new(v)
    }
}

impl<T> vstd::std_specs::convert::FromSpecImpl<T> for Shared<T> {
    open spec fn obeys_from_spec() -> bool {
        true
    }

    open spec fn from_spec(v: T) -> Self {
        Shared(Rc::new(v))
    }
}

/// Conversion of any value into a shared handle.
pub trait IntoShared: Sized {
    fn shared(self) -> (r: Shared<Self>)
        ensures
            r@ == self,
    ;
}

impl<T> IntoShared for T {
    fn shared(self) -> (r: Shared<Self>)
    {
        Shared::new(self)
    }
}

/// The lock predicate that admits every value.
pub struct Unconstrained;

impl<T> RwLockPredicate<T> for Unconstrained {
    open spec fn inv(self, v: T) -> bool {
        true
    }
}

/// A value behind a reader-writer lock. The lock can be taken through a
/// shared borrow, so a value reached through a [`Shared`] handle can still be
/// replaced.
///
/// What the lock holds at any moment is outside the model. What is known of
/// it is the lock's predicate `P`, which every value that is stored meets;
/// the default predicate admits every value.
pub struct Locked<T, P: RwLockPredicate<T> = Unconstrained>(pub RwLock<T, P>);

impl<T> Locked<T> {
    /// Puts `v` behind a new lock: the lock is one that `RwLock::new` makes
    /// of `v` with the predicate that admits every value.
    pub fn new(v: T) -> (r: Self)
        ensures
            call_ensures(RwLock::<T, Unconstrained>::new, (v, Ghost(Unconstrained)), r.0),
    {
        Locked(RwLock::new(v, Ghost(Unconstrained)))
    }

    /// Runs `f` on the locked value and returns what it returned.
    pub fn get_with<F, R>(&self, f: F) -> (r: R) where F: FnOnce(&T) -> R
        requires
            forall|t: &T| f.requires((t,)),
        ensures
            exists|t: &T| f.ensures((t,), r),
    {
        let handle = self.0.acquire_read();
        let r = f(handle.borrow());
        handle.release_read();
        r
    }

    /// Replaces the locked value by what `f` makes of it.
    pub fn update<F>(&self, f: F) where F: FnOnce(T) -> T
        requires
            forall|t: T| f.requires((t,)),
    {
        let (value, handle) = self.0.acquire_write();
        let value = f(value);
        handle.release_write(value);
    }
}

impl<T, P: RwLockPredicate<T>> Locked<T, P> {
    /// The predicate that every value stored in the lock meets.
    pub open spec fn pred(&self) -> P {
        self.0.pred()
    }

    /// Puts `v` behind a new lock that only ever holds values that meet
    /// `pred`.
    pub fn guarded(v: T, Ghost(pred): Ghost<P>) -> (r: Self)
        requires
            pred.inv(v),
        ensures
            r.pred() == pred,
    {
        Locked(RwLock::new(v, Ghost(pred)))
    }

    /// Takes the lock for reading. The handle must be given back with
    /// `release_read`.
    pub fn get(&self) -> (r: ReadHandle<'_, T, P>)
        ensures
            r.rwlock() == self.0,
            self.pred().inv(r.view()),
    {
        self.0.acquire_read()
    }

    /// Takes the lock for writing and moves the value out. The handle must be
    /// given back, together with the value to store, with `release_write`.
    pub fn get_mut(&self) -> (r: (T, WriteHandle<'_, T, P>))
        ensures
            r.1.rwlock() == self.0,
            self.pred().inv(r.0),
    {
        self.0.acquire_write()
    }
}

/// Wrapping a value into either side of a `Result`.
pub trait ToResult: Sized {
    fn err<T>(self) -> (r: Result<T, Self>)
        ensures
            r == Err::<T, Self>(self),
    ;

    fn ok<E>(self) -> (r: Result<Self, E>)
        ensures
            r == Ok::<Self, E>(self),
    ;
}

impl<Ty> ToResult for Ty {
    fn err<T>(self) -> (r: Result<T, Self>)
    {
        Err(self)
    }

    fn ok<E>(self) -> (r: Result<Self, E>)
    {
        Ok(self)
    }
}

} // verus!
