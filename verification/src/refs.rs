//! Reference identity: opaque tokens that name variable and function slots.

use vstd::prelude::*;
use vstd::string::StringExecFns;
use crate::text::{decimal_text, push_decimal};

verus! {

/// An opaque identity token. Two references are the same exactly when their
/// integers are equal.
#[derive(Debug, Clone, Copy, PartialEq, Eq, Structural, PartialOrd, Ord, Hash)]
pub struct Ref(pub usize);

impl Ref {
    /// Wraps a raw counter value.
    pub fn new(ptr: usize) -> (r: Self)
        ensures
            r == Ref(ptr),
    {
        Ref(ptr)
    }

    /// The text `Ref(n)` used in diagnostics.
    pub open spec fn text(self) -> Seq<char> {
        "Ref("@ + decimal_text(self.0 as nat) + ")"@
    }

    /// Renders the reference as `Ref(n)`.
    pub fn to_text(&self) -> (r: String)
        ensures
            r@ == self.text(),
    {
        let mut out = String::from_str("Ref(");
        push_decimal(&mut out, self.0);
        out.append(")");
        out
    }

}

impl std::ops::Add<usize> for Ref {
    type Output = Ref;

    /// The reference `rhs` slots further on.
    fn add(self, rhs: usize) -> (r: Ref)
    {
        Ref(self.0 + rhs)
    }
}

impl vstd::std_specs::ops::AddSpecImpl<usize> for Ref {
    open spec fn obeys_add_spec() -> bool {
        true
    }

    open spec fn add_req(self, rhs: usize) -> bool {
        self.0 + rhs <= usize::MAX
    }

    open spec fn add_spec(self, rhs: usize) -> Ref {
        Ref((self.0 + rhs) as usize)
    }
}

impl std::ops::Add<Ref> for Ref {
    type Output = Ref;

    /// The reference as many slots further on as `rhs` counts.
    fn add(self, rhs: Ref) -> (r: Ref)
    {
        Ref(self.0 + rhs.0)
    }
}

impl vstd::std_specs::ops::AddSpecImpl<Ref> for Ref {
    open spec fn obeys_add_spec() -> bool {
        true
    }

    open spec fn add_req(self, rhs: Ref) -> bool {
        self.0 + rhs.0 <= usize::MAX
    }

    open spec fn add_spec(self, rhs: Ref) -> Ref {
        Ref((self.0 + rhs.0) as usize)
    }
}

impl From<usize> for Ref {
    fn from(val: usize) -> (r: Self)
    {
        Ref(val)
    }
}

impl vstd::std_specs::convert::FromSpecImpl<usize> for Ref {
    open spec fn obeys_from_spec() -> bool {
        true
    }

    open spec fn from_spec(val: usize) -> Self {
        Ref(val)
    }
}

/// A reference that names a callable.
#[derive(Debug, Clone, Copy, PartialEq, Eq, Structural, PartialOrd, Ord, Hash)]
pub struct FnRef {
    pub fn_ref: Ref,
}

impl FnRef {
    /// Marks `fn_ref` as naming a callable.
    pub fn new(fn_ref: Ref) -> (r: Self)
        ensures
            r.fn_ref == fn_ref,
    {
        FnRef { fn_ref }
    }

    /// The underlying reference.
    pub fn inner(&self) -> (r: Ref)
        ensures
            r == self.fn_ref,
    {
        self.fn_ref
    }

    /// The text `FnRef(Ref(n))` used in diagnostics.
    pub open spec fn text(self) -> Seq<char> {
        "FnRef("@ + self.fn_ref.text() + ")"@
    }

    /// Renders the reference as `FnRef(Ref(n))`.
    pub fn to_text(&self) -> (r: String)
        ensures
            r@ == self.text(),
    {
        let mut out = String::from_str("FnRef(");
        let inner = self.fn_ref.to_text();
        out.append(inner.as_str());
        out.append(")");
        out
    }
}

impl std::ops::Deref for FnRef {
    type Target = Ref;

    fn deref(&self) -> (r: &Ref)
        ensures
            *r == self.fn_ref,
    {
        &self.fn_ref
    }
}

impl From<Ref> for FnRef {
    fn from(fn_ref: Ref) -> (r: Self)
    {
        FnRef { fn_ref }
    }
}

impl vstd::std_specs::convert::FromSpecImpl<Ref> for FnRef {
    open spec fn obeys_from_spec() -> bool {
        true
    }

    open spec fn from_spec(fn_ref: Ref) -> Self {
        FnRef { fn_ref }
    }
}

/// The source of fresh references: a counter that hands out each integer once
/// until the integer range is exhausted, then starts over.
#[derive(Debug)]
pub struct RefSource {
    pub next: usize,
}

impl RefSource {
    /// A source whose first reference is `Ref(0)`.
    pub fn new() -> (r: Self)
        ensures
            r.next == 0,
    {
        RefSource { next: 0 }
    }

    /// The reference the counter stands at, and the counter after it.
    pub open spec fn after(self) -> RefSource {
        RefSource { next: self.next.wrapping_add(1) }
    }

    /// Hands out the next reference and advances the counter by one,
    /// wrapping around.
    pub fn fresh(&mut self) -> (r: Ref)
        ensures
            r == Ref(old(self).next),
            *final(self) == old(self).after(),
    {
        let r = Ref(self.next);
        self.next = self.next.wrapping_add(1);
        r
    }
}

/// Two references handed out one after the other differ.
pub proof fn lemma_fresh_refs_differ(source: RefSource)
    ensures
        Ref(source.next) != Ref(source.after().next),
{
    assert(source.next.wrapping_add(1) != source.next) by {
        if source.next + 1 > usize::MAX {
        } else {
        }
    }
}

} // verus!
