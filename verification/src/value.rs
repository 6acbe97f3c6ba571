//! The value model: a tagged union of primitive values and function
//! references, with type-safe extraction of each variant.

use vstd::prelude::*;
use std::ops::Deref;
use crate::ast::{Float, Literal, LiteralKind};
use crate::error::{RuntimeError, RuntimeErrorView, RuntimeResult};
use crate::refs::FnRef;
use crate::text::{signed, signed_text};
use crate::shared::{Locked, Shared, Unconstrained};
use vstd::rwlock::{ReadHandle, WriteHandle};

verus! {

/// A value of the language.
///
/// The derived `==` compares floating-point numbers by their bit patterns;
/// it is for tests and tools. The `==` of the language is decided by
/// [`crate::ops::plan_bin_op`], which hands two floating-point numbers to the
/// platform.
#[derive(Debug, PartialEq)]
pub enum Value {
    Int(i64),
    Float(Float),
    Bool(bool),
    /// Immutable text under shared ownership, so copies are cheap.
    Str(Shared<String>),
    /// A reference to a callable stored in some scope.
    Fn(FnRef),
    /// The absence of a value.
    Unit,
}

/// The mathematical content of a [`Value`].
pub enum ValueView {
    Int(i64),
    Float(Float),
    Bool(bool),
    Str(Seq<char>),
    Fn(FnRef),
    Unit,
}

impl ValueView {
    /// The canonical name of the value's type, as it appears in error
    /// messages.
    pub open spec fn ty_name(self) -> Seq<char> {
        match self {
            ValueView::Int(_) => "int"@,
            ValueView::Float(_) => "float"@,
            ValueView::Bool(_) => "bool"@,
            ValueView::Str(_) => "str"@,
            ValueView::Fn(_) => "fn"@,
            ValueView::Unit => "unit"@,
        }
    }

    /// Whether two values carry the same variant tag.
    pub open spec fn same_type(self, other: ValueView) -> bool {
        match (self, other) {
            (ValueView::Int(_), ValueView::Int(_)) => true,
            (ValueView::Float(_), ValueView::Float(_)) => true,
            (ValueView::Bool(_), ValueView::Bool(_)) => true,
            (ValueView::Str(_), ValueView::Str(_)) => true,
            (ValueView::Fn(_), ValueView::Fn(_)) => true,
            (ValueView::Unit, ValueView::Unit) => true,
            _ => false,
        }
    }

    /// The display form of the value: the decimal digits of an integer,
    /// `true` or `false`, the text itself, `FnRef(Ref(n))`, or `()`. A
    /// floating-point number has none here; its digits are the embedder's
    /// business.
    pub open spec fn text(self) -> Option<Seq<char>> {
        match self {
            ValueView::Int(n) => Some(signed_text(n as int)),
            ValueView::Float(_) => None,
            ValueView::Bool(b) => Some(if b { "true"@ } else { "false"@ }),
            ValueView::Str(s) => Some(s),
            ValueView::Fn(r) => Some(r.text()),
            ValueView::Unit => Some("()"@),
        }
    }

    /// The value that a literal denotes.
    pub open spec fn of_literal(kind: LiteralKind) -> ValueView {
        match kind {
            LiteralKind::Number(n) => ValueView::Int(n),
            LiteralKind::Float(f) => ValueView::Float(f),
            LiteralKind::Bool(b) => ValueView::Bool(b),
            LiteralKind::String(s) => ValueView::Str(s@),
        }
    }

    /// The type mismatch reported when this value stands where a value of
    /// type `expected` is needed.
    pub open spec fn mismatch(self, ident: Seq<char>, expected: Seq<char>) -> RuntimeErrorView {
        RuntimeErrorView::TypeError { ident, expected, found: self.ty_name() }
    }
}

impl View for Value {
    type V = ValueView;

    open spec fn view(&self) -> ValueView {
        match self {
            Value::Int(v) => ValueView::Int(*v),
            Value::Float(v) => ValueView::Float(*v),
            Value::Bool(v) => ValueView::Bool(*v),
            Value::Str(v) => ValueView::Str(v@@),
            Value::Fn(v) => ValueView::Fn(*v),
            Value::Unit => ValueView::Unit,
        }
    }
}

impl Clone for Value {
    /// A copy of the value. Text is shared, not duplicated.
    fn clone(&self) -> (r: Self)
        ensures
            r == *self,
    {
        match self {
            Value::Int(v) => Value::Int(*v),
            Value::Float(v) => Value::Float(*v),
            Value::Bool(v) => Value::Bool(*v),
            Value::Str(v) => Value::Str(v.clone()),
            Value::Fn(v) => Value::Fn(*v),
            Value::Unit => Value::Unit,
        }
    }
}

/// A value that can be replaced through any of its handles.
pub type SharedValue = Shared<Locked<Value>>;

impl Shared<Locked<Value>> {
    /// Puts `v` behind a lock and a handle: behind the handle is a lock that
    /// [`Locked::new`] makes of `v`.
    pub fn new_shared(v: Value) -> (r: Self)
        ensures
            call_ensures(Locked::<Value>::new, (v,), r@),
    {
        Shared::new(Locked::new(v))
    }

    /// Takes the lock for reading. The handle must be given back with
    /// `release_read`.
    pub fn get(&self) -> (r: ReadHandle<'_, Value, Unconstrained>)
        ensures
            r.rwlock() == self@.0,
    {
        self.deref().get()
    }

    /// Takes the lock for writing and moves the value out. The handle must be
    /// given back, together with the value to store, with `release_write`.
    pub fn get_mut(&self) -> (r: (Value, WriteHandle<'_, Value, Unconstrained>))
        ensures
            r.1.rwlock() == self@.0,
    {
        self.deref().get_mut()
    }
}

/// A host type that corresponds to one variant of [`Value`].
pub trait Variant: Sized {
    /// The canonical name of the variant.
    spec fn ty_name_spec() -> Seq<char>;

    /// Whether `v` is of this variant.
    spec fn accepts(v: ValueView) -> bool;

    /// The value that carries `self`.
    spec fn wrap(self) -> Value;

    /// The canonical name of the variant.
    fn ty_name() -> (r: &'static str)
        ensures
            r@ == Self::ty_name_spec(),
    ;

    /// Takes the payload out of `value`, or hands `value` back unchanged if
    /// it is of another variant.
    fn from_value(value: Value) -> (r: Result<Self, Value>)
        ensures
            r is Ok <==> Self::accepts(value@),
            r matches Ok(t) ==> t.wrap() == value,
            r matches Err(v) ==> v == value,
    ;

    /// Borrows the payload of `value`, or hands the borrow of `value` back
    /// if it is of another variant.
    fn from_value_ref(value: &Value) -> (r: Result<&Self, &Value>)
        ensures
            r is Ok <==> Self::accepts(value@),
            r matches Ok(t) ==> t.wrap() == *value,
            r matches Err(v) ==> *v == *value,
    ;

    /// The value that carries `self`.
    fn into_value(self) -> (r: Value)
        ensures
            r == self.wrap(),
    ;
}

impl Variant for () {
    open spec fn ty_name_spec() -> Seq<char> {
        "unit"@
    }

    open spec fn accepts(v: ValueView) -> bool {
        v is Unit
    }

    open spec fn wrap(self) -> Value {
        Value::Unit
    }

    fn ty_name() -> (r: &'static str) {
        "unit"
    }

    fn from_value(value: Value) -> (r: Result<Self, Value>) {
        match value {
            Value::Unit => Ok(()),
            other => Err(other),
        }
    }

    fn from_value_ref(value: &Value) -> (r: Result<&Self, &Value>) {
        match value {
            Value::Unit => Ok(&()),
            other => Err(other),
        }
    }

    fn into_value(self) -> (r: Value) {
        Value::Unit
    }
}

impl Variant for i64 {
    open spec fn ty_name_spec() -> Seq<char> {
        "int"@
    }

    open spec fn accepts(v: ValueView) -> bool {
        v is Int
    }

    open spec fn wrap(self) -> Value {
        Value::Int(self)
    }

    fn ty_name() -> (r: &'static str) {
        "int"
    }

    fn from_value(value: Value) -> (r: Result<Self, Value>) {
        match value {
            Value::Int(v) => Ok(v),
            other => Err(other),
        }
    }

    fn from_value_ref(value: &Value) -> (r: Result<&Self, &Value>) {
        match value {
            Value::Int(v) => Ok(v),
            other => Err(other),
        }
    }

    fn into_value(self) -> (r: Value) {
        Value::Int(self)
    }
}

impl Variant for Float {
    open spec fn ty_name_spec() -> Seq<char> {
        "float"@
    }

    open spec fn accepts(v: ValueView) -> bool {
        v is Float
    }

    open spec fn wrap(self) -> Value {
        Value::Float(self)
    }

    fn ty_name() -> (r: &'static str) {
        "float"
    }

    fn from_value(value: Value) -> (r: Result<Self, Value>) {
        match value {
            Value::Float(v) => Ok(v),
            other => Err(other),
        }
    }

    fn from_value_ref(value: &Value) -> (r: Result<&Self, &Value>) {
        match value {
            Value::Float(v) => Ok(v),
            other => Err(other),
        }
    }

    fn into_value(self) -> (r: Value) {
        Value::Float(self)
    }
}

impl Variant for bool {
    open spec fn ty_name_spec() -> Seq<char> {
        "bool"@
    }

    open spec fn accepts(v: ValueView) -> bool {
        v is Bool
    }

    open spec fn wrap(self) -> Value {
        Value::Bool(self)
    }

    fn ty_name() -> (r: &'static str) {
        "bool"
    }

    fn from_value(value: Value) -> (r: Result<Self, Value>) {
        match value {
            Value::Bool(v) => Ok(v),
            other => Err(other),
        }
    }

    fn from_value_ref(value: &Value) -> (r: Result<&Self, &Value>) {
        match value {
            Value::Bool(v) => Ok(v),
            other => Err(other),
        }
    }

    fn into_value(self) -> (r: Value) {
        Value::Bool(self)
    }
}

impl Variant for Shared<String> {
    open spec fn ty_name_spec() -> Seq<char> {
        "str"@
    }

    open spec fn accepts(v: ValueView) -> bool {
        v is Str
    }

    open spec fn wrap(self) -> Value {
        Value::Str(self)
    }

    fn ty_name() -> (r: &'static str) {
        "str"
    }

    fn from_value(value: Value) -> (r: Result<Self, Value>) {
        match value {
            Value::Str(v) => Ok(v),
            other => Err(other),
        }
    }

    fn from_value_ref(value: &Value) -> (r: Result<&Self, &Value>) {
        match value {
            Value::Str(v) => Ok(v),
            other => Err(other),
        }
    }

    fn into_value(self) -> (r: Value) {
        Value::Str(self)
    }
}

impl Variant for FnRef {
    open spec fn ty_name_spec() -> Seq<char> {
        "fn"@
    }

    open spec fn accepts(v: ValueView) -> bool {
        v is Fn
    }

    open spec fn wrap(self) -> Value {
        Value::Fn(self)
    }

    fn ty_name() -> (r: &'static str) {
        "fn"
    }

    fn from_value(value: Value) -> (r: Result<Self, Value>) {
        match value {
            Value::Fn(v) => Ok(v),
            other => Err(other),
        }
    }

    fn from_value_ref(value: &Value) -> (r: Result<&Self, &Value>) {
        match value {
            Value::Fn(v) => Ok(v),
            other => Err(other),
        }
    }

    fn into_value(self) -> (r: Value) {
        Value::Fn(self)
    }
}

/// A host type that can be taken out of a [`Value`] with a diagnostic that
/// names the place the value stood in.
pub trait FromValue: Sized {
    /// Whether `v` can be taken out as `Self`.
    spec fn admits(v: ValueView) -> bool;

    /// The canonical name of the type that is asked for.
    spec fn wanted() -> Seq<char>;

    /// The value that `self` was taken out of.
    spec fn origin(self) -> Value;

    fn from_value(ident: &str, value: Value) -> (r: RuntimeResult<Self>)
        ensures
            r is Ok <==> Self::admits(value@),
            r matches Ok(t) ==> t.origin() == value,
            r matches Err(e) ==> e@ == value@.mismatch(ident@, Self::wanted()),
    ;
}

impl Value {
    /// The value that carries `variant`.
    pub fn new<T: Variant>(variant: T) -> (r: Self)
        ensures
            r == variant.wrap(),
    {
        variant.into_value()
    }

    /// The value that carries `variant`, behind a lock and a handle: behind
    /// the handle is a lock that [`Locked::new`] makes of that value.
    pub fn new_shared<T: Variant>(variant: T) -> (r: SharedValue)
        ensures
            call_ensures(Locked::<Value>::new, (variant.wrap(),), r@),
    {
        SharedValue::new_shared(variant.into_value())
    }

    /// Puts the value behind a lock and a handle: behind the handle is a
    /// lock that [`Locked::new`] makes of the value.
    pub fn share(self) -> (r: SharedValue)
        ensures
            call_ensures(Locked::<Value>::new, (self,), r@),
    {
        SharedValue::new_shared(self)
    }

    /// The display form of the value, if it has one without floating-point
    /// formatting.
    pub fn to_text(&self) -> (r: Option<String>)
        ensures
            match r {
                Some(t) => self@.text() == Some(t@),
                None => self@.text() is None,
            },
    {
        match self {
            Value::Int(n) => Some(signed(*n)),
            Value::Float(_) => None,
            Value::Bool(b) => Some(if *b { "true".to_owned() } else { "false".to_owned() }),
            Value::Str(s) => Some(s.deref().clone()),
            Value::Fn(r) => Some(r.to_text()),
            Value::Unit => Some("()".to_owned()),
        }
    }

    /// The canonical name of the value's type.
    pub fn ty_name(&self) -> (r: &'static str)
        ensures
            r@ == self@.ty_name(),
    {
        match self {
            Value::Int(_) => "int",
            Value::Float(_) => "float",
            Value::Bool(_) => "bool",
            Value::Str(_) => "str",
            Value::Fn(_) => "fn",
            Value::Unit => "unit",
        }
    }

    /// Whether both values carry the same variant tag.
    pub fn ty_eq(&self, other: &Self) -> (r: bool)
        ensures
            r == self@.same_type(other@),
    {
        match (self, other) {
            (Value::Int(_), Value::Int(_)) => true,
            (Value::Float(_), Value::Float(_)) => true,
            (Value::Bool(_), Value::Bool(_)) => true,
            (Value::Str(_), Value::Str(_)) => true,
            (Value::Fn(_), Value::Fn(_)) => true,
            (Value::Unit, Value::Unit) => true,
            _ => false,
        }
    }

    /// The shared type name of both values, if they carry the same tag.
    pub fn ty_eq_name(&self, other: &Self) -> (r: Option<&'static str>)
        ensures
            r is Some <==> self@.same_type(other@),
            r matches Some(name) ==> name@ == self@.ty_name(),
    {
        if self.ty_eq(other) {
            Some(self.ty_name())
        } else {
            None
        }
    }

    /// Takes the payload out as `T`, or hands the value back unchanged.
    pub fn cast<T: Variant>(self) -> (r: Result<T, Self>)
        ensures
            r is Ok <==> T::accepts(self@),
            r matches Ok(t) ==> t.wrap() == self,
            r matches Err(v) ==> v == self,
    {
        T::from_value(self)
    }

    /// Borrows the payload as `T`, or hands the borrow back.
    pub fn cast_ref<T: Variant>(&self) -> (r: Result<&T, &Self>)
        ensures
            r is Ok <==> T::accepts(self@),
            r matches Ok(t) ==> t.wrap() == *self,
            r matches Err(v) ==> *v == *self,
    {
        T::from_value_ref(self)
    }

    /// Takes the payload out as `T`; a value of another variant becomes a
    /// type error labelled with `ident`.
    pub fn rt_cast<T: Variant>(self, ident: &str) -> (r: RuntimeResult<T>)
        ensures
            r is Ok <==> T::accepts(self@),
            r matches Ok(t) ==> t.wrap() == self,
            r matches Err(e) ==> e@ == self@.mismatch(ident@, T::ty_name_spec()),
    {
        match T::from_value(self) {
            Ok(t) => Ok(t),
            Err(v) => Err(RuntimeError::type_error(ident, T::ty_name(), v.ty_name())),
        }
    }

    /// Borrows the payload as `T`; a value of another variant becomes a type
    /// error labelled with `ident`.
    pub fn rt_cast_ref<T: Variant>(&self, ident: &str) -> (r: RuntimeResult<&T>)
        ensures
            r is Ok <==> T::accepts(self@),
            r matches Ok(t) ==> t.wrap() == *self,
            r matches Err(e) ==> e@ == self@.mismatch(ident@, T::ty_name_spec()),
    {
        match T::from_value_ref(self) {
            Ok(t) => Ok(t),
            Err(v) => Err(RuntimeError::type_error(ident, T::ty_name(), v.ty_name())),
        }
    }

    /// The value that a literal denotes.
    pub fn from_literal(lit: &Literal) -> (r: Self)
        ensures
            r@ == ValueView::of_literal(lit.kind),
    {
        Value::from(lit)
    }
}

impl FromValue for i64 {
    open spec fn admits(v: ValueView) -> bool {
        v is Int
    }

    open spec fn wanted() -> Seq<char> {
        "int"@
    }

    open spec fn origin(self) -> Value {
        Value::Int(self)
    }

    fn from_value(ident: &str, value: Value) -> (r: RuntimeResult<Self>) {
        value.rt_cast::<i64>(ident)
    }
}

impl FromValue for Float {
    open spec fn admits(v: ValueView) -> bool {
        v is Float
    }

    open spec fn wanted() -> Seq<char> {
        "float"@
    }

    open spec fn origin(self) -> Value {
        Value::Float(self)
    }

    fn from_value(ident: &str, value: Value) -> (r: RuntimeResult<Self>) {
        value.rt_cast::<Float>(ident)
    }
}

impl FromValue for bool {
    open spec fn admits(v: ValueView) -> bool {
        v is Bool
    }

    open spec fn wanted() -> Seq<char> {
        "bool"@
    }

    open spec fn origin(self) -> Value {
        Value::Bool(self)
    }

    fn from_value(ident: &str, value: Value) -> (r: RuntimeResult<Self>) {
        value.rt_cast::<bool>(ident)
    }
}

impl FromValue for Shared<String> {
    open spec fn admits(v: ValueView) -> bool {
        v is Str
    }

    open spec fn wanted() -> Seq<char> {
        "str"@
    }

    open spec fn origin(self) -> Value {
        Value::Str(self)
    }

    fn from_value(ident: &str, value: Value) -> (r: RuntimeResult<Self>) {
        value.rt_cast::<Shared<String>>(ident)
    }
}

impl FromValue for FnRef {
    open spec fn admits(v: ValueView) -> bool {
        v is Fn
    }

    open spec fn wanted() -> Seq<char> {
        "fn"@
    }

    open spec fn origin(self) -> Value {
        Value::Fn(self)
    }

    fn from_value(ident: &str, value: Value) -> (r: RuntimeResult<Self>) {
        value.rt_cast::<FnRef>(ident)
    }
}

impl<'a> From<&'a Literal> for Value {
    fn from(lit: &'a Literal) -> (r: Self)
    {
        match &lit.kind {
            LiteralKind::Number(n) => Value::Int(*n),
            LiteralKind::Float(f) => Value::Float(*f),
            LiteralKind::Bool(b) => Value::Bool(*b),
            LiteralKind::String(s) => Value::Str(Shared::new(s.clone())),
        }
    }
}

impl<'a> vstd::std_specs::convert::FromSpecImpl<&'a Literal> for Value {
    open spec fn obeys_from_spec() -> bool {
        true
    }

    open spec fn from_spec(lit: &'a Literal) -> Self {
        match lit.kind {
            LiteralKind::Number(n) => Value::Int(n),
            LiteralKind::Float(f) => Value::Float(f),
            LiteralKind::Bool(b) => Value::Bool(b),
            LiteralKind::String(s) => Value::Str(Shared(std::rc::Rc::new(s))),
        }
    }
}

impl From<i64> for Value {
    fn from(v: i64) -> (r: Self)
    {
        Value::Int(v)
    }
}

impl vstd::std_specs::convert::FromSpecImpl<i64> for Value {
    open spec fn obeys_from_spec() -> bool {
        true
    }

    open spec fn from_spec(v: i64) -> Self {
        Value::Int(v)
    }
}

impl From<bool> for Value {
    fn from(v: bool) -> (r: Self)
    {
        Value::Bool(v)
    }
}

impl vstd::std_specs::convert::FromSpecImpl<bool> for Value {
    open spec fn obeys_from_spec() -> bool {
        true
    }

    open spec fn from_spec(v: bool) -> Self {
        Value::Bool(v)
    }
}

/// Values of different variants have different type names, so comparing
/// names compares tags.
pub proof fn lemma_ty_names_tell_variants_apart(a: ValueView, b: ValueView)
    ensures
        a.ty_name() == b.ty_name() <==> a.same_type(b),
{
    reveal_strlit("int");
    reveal_strlit("float");
    reveal_strlit("bool");
    reveal_strlit("str");
    reveal_strlit("fn");
    reveal_strlit("unit");
    if a.ty_name() == b.ty_name() {
        assert(a.ty_name().len() == b.ty_name().len());
        assert(a.ty_name()[0] == b.ty_name()[0]);
    }
}

/// The value of a literal has the type that the literal's kind names.
pub proof fn lemma_literal_type(kind: LiteralKind)
    ensures
        ValueView::of_literal(kind).ty_name() == (match kind {
            LiteralKind::Number(_) => "int"@,
            LiteralKind::Float(_) => "float"@,
            LiteralKind::Bool(_) => "bool"@,
            LiteralKind::String(_) => "str"@,
        }),
{
}

} // verus!
