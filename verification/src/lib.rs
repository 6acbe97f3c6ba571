//! A tree-walking interpreter core for a small imperative scripting language.
//!
//! The crate evaluates an already-parsed syntax tree against a dynamically
//! typed value model. Every evaluation entry point carries a contract that
//! relates it to a mathematical definition of the language in [`model`].
//! Work that only the embedder can do (running a shell command, floating-point
//! arithmetic, host-provided functions) is requested through traits, and each
//! answer is recorded in a ghost trace so that contracts hold for whatever the
//! embedder answered.

pub mod text;
pub mod refs;
pub mod shared;
pub mod ast;
pub mod error;
pub mod value;
pub mod var;
pub mod hash;
pub mod func;
pub mod scope;
pub mod trace;
pub mod ops;
pub mod model;
pub mod context;
pub mod engine;
pub mod binder;
pub mod laws;

pub use crate::binder::{ExtractFn, HostFn};
pub use crate::context::Context;
pub use crate::engine::Engine;
pub use crate::error::{
    CommandError, CommandResult, Error, EvalResult, RuntimeError, RuntimeResult,
};
pub use crate::func::{
    Callable, ExternalFn, FnCallArg, Hook, IntoHook, NativeFn, ScriptFn, VariadicFn,
};
pub use crate::refs::{FnRef, Ref, RefSource};
pub use crate::scope::Scope;
pub use crate::shared::{IntoShared, Locked, Shared, ToResult};
pub use crate::trace::Platform;
pub use crate::value::{FromValue, SharedValue, Value, Variant};
pub use crate::var::Variable;
