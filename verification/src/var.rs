//! The variable record: a name, a stable reference, and the current value.

use vstd::prelude::*;
use crate::refs::Ref;
use crate::value::{Value, ValueView};

verus! {

/// A variable of some scope. The reference is assigned when the variable is
/// created and never changes; the value may be replaced by a value of any
/// type.
#[derive(Debug)]
pub struct Variable {
    pub name: String,
    pub var_ref: Ref,
    pub value: Value,
}

/// The mathematical content of a [`Variable`].
pub struct VariableView {
    pub name: Seq<char>,
    pub var_ref: Ref,
    pub value: ValueView,
}

impl View for Variable {
    type V = VariableView;

    open spec fn view(&self) -> VariableView {
        VariableView { name: self.name@, var_ref: self.var_ref, value: self.value@ }
    }
}

impl Variable {
    /// A variable called `name`, identified by `var_ref`, that holds `value`.
    pub fn new(name: String, var_ref: Ref, value: Value) -> (r: Self)
        ensures
            r.name == name,
            r.var_ref == var_ref,
            r.value == value,
    {
        Variable { name, var_ref, value }
    }

    /// Takes the variable apart into its reference and its value.
    pub fn into_inner(self) -> (r: (Ref, Value))
        ensures
            r.0 == self.var_ref,
            r.1 == self.value,
    {
        (self.var_ref, self.value)
    }

    /// A copy of the current value.
    pub fn value(&self) -> (r: Value)
        ensures
            r == self.value,
    {
        self.value.clone()
    }

    /// The current value.
    pub fn value_ref(&self) -> (r: &Value)
        ensures
            *r == self.value,
    {
        &self.value
    }

    /// The slot that holds the current value. Name and reference stay as
    /// they are whatever is written to the slot.
    pub fn value_mut(&mut self) -> (r: &mut Value)
        ensures
            *r == old(self).value,
            final(self).value == *final(r),
            final(self).name == old(self).name,
            final(self).var_ref == old(self).var_ref,
    {
        &mut self.value
    }

    /// The canonical name of the current value's type.
    pub fn ty_name(&self) -> (r: &'static str)
        ensures
            r@ == self@.value.ty_name(),
    {
        self.value.ty_name()
    }

    /// Replaces the value.
    pub fn update(&mut self, val: Value)
        ensures
            final(self).value == val,
            final(self).name == old(self).name,
            final(self).var_ref == old(self).var_ref,
    {
        self.value = val;
    }

    /// Whether the variable is identified by `var_ref`.
    pub fn ref_eq(&self, var_ref: &Ref) -> (r: bool)
        ensures
            r == (self.var_ref == *var_ref),
    {
        self.var_ref == *var_ref
    }

    /// Whether the variable is called `name`.
    pub fn name_eq(&self, name: &String) -> (r: bool)
        ensures
            r == (self.name@ == name@),
    {
        self.name == *name
    }
}

} // verus!
