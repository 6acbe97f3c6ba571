//! The error taxonomy of the interpreter and the text of each error.

use vstd::prelude::*;
use vstd::string::StringExecFns;
use crate::refs::Ref;
use crate::text::{decimal_text, push_decimal};

verus! {

/// A failure raised while a program runs.
#[derive(Debug, Clone, PartialEq, Eq)]
pub enum RuntimeError {
    /// No variable of this name is visible.
    IdentNotFound(String),
    /// A value of type `found` stands where one of type `expected` is needed.
    /// `ident` is the name of the variable or a probe label such as `<neg>`.
    TypeError { ident: String, expected: String, found: String },
    /// A callable that takes `expected` arguments was given `found`.
    ArgumentError { ident: String, expected: usize, found: usize },
    /// No reachable scope holds this reference.
    NullRefError(Ref),
    /// Scopes are nested as deeply as the interpreter allows.
    MaxRecursionExceeded,
    /// An integer was divided by zero.
    DivisionByZero,
    /// A single loop ran for as many iterations as the interpreter allows.
    IterationLimitExceeded,
    /// The construct is part of the grammar but has no meaning yet.
    Unsupported(String),
}

/// The mathematical content of a [`RuntimeError`].
pub enum RuntimeErrorView {
    IdentNotFound(Seq<char>),
    TypeError { ident: Seq<char>, expected: Seq<char>, found: Seq<char> },
    ArgumentError { ident: Seq<char>, expected: usize, found: usize },
    NullRefError(Ref),
    MaxRecursionExceeded,
    DivisionByZero,
    IterationLimitExceeded,
    Unsupported(Seq<char>),
}

impl RuntimeErrorView {
    /// The text shown to the user for this error.
    pub open spec fn message(self) -> Seq<char> {
        match self {
            RuntimeErrorView::IdentNotFound(name) => "Identifier `"@ + name + "` not found"@,
            RuntimeErrorView::TypeError { ident, expected, found } => "Type of `"@ + ident
                + "` mismatched: expect `"@ + expected + "`, found `"@ + found + "`"@,
            RuntimeErrorView::ArgumentError { ident, expected, found } => "Expected "@
                + decimal_text(expected as nat) + " arguments to call `"@ + ident + "`, found "@
                + decimal_text(found as nat),
            RuntimeErrorView::NullRefError(r) => "Ref not found: `"@ + r.text() + "`"@,
            RuntimeErrorView::MaxRecursionExceeded => "Max recursion depth exceeded"@,
            RuntimeErrorView::DivisionByZero => "Division by zero"@,
            RuntimeErrorView::IterationLimitExceeded => "Loop iteration limit exceeded"@,
            RuntimeErrorView::Unsupported(what) => "Unsupported construct: "@ + what,
        }
    }
}

impl View for RuntimeError {
    type V = RuntimeErrorView;

    open spec fn view(&self) -> RuntimeErrorView {
        match self {
            RuntimeError::IdentNotFound(name) => RuntimeErrorView::IdentNotFound(name@),
            RuntimeError::TypeError { ident, expected, found } => RuntimeErrorView::TypeError {
                ident: ident@,
                expected: expected@,
                found: found@,
            },
            RuntimeError::ArgumentError { ident, expected, found } => {
                RuntimeErrorView::ArgumentError {
                    ident: ident@,
                    expected: *expected,
                    found: *found,
                }
            },
            RuntimeError::NullRefError(r) => RuntimeErrorView::NullRefError(*r),
            RuntimeError::MaxRecursionExceeded => RuntimeErrorView::MaxRecursionExceeded,
            RuntimeError::DivisionByZero => RuntimeErrorView::DivisionByZero,
            RuntimeError::IterationLimitExceeded => RuntimeErrorView::IterationLimitExceeded,
            RuntimeError::Unsupported(what) => RuntimeErrorView::Unsupported(what@),
        }
    }
}

impl RuntimeError {
    /// A type mismatch on `ident`.
    pub fn type_error(ident: &str, expected: &str, found: &str) -> (r: Self)
        ensures
            r@ == (RuntimeErrorView::TypeError { ident: ident@, expected: expected@, found: found@ }),
    {
        RuntimeError::TypeError {
            ident: ident.to_owned(),
            expected: expected.to_owned(),
            found: found.to_owned(),
        }
    }

    /// The text shown to the user for this error.
    pub fn message(&self) -> (r: String)
        ensures
            r@ == self@.message(),
    {
        match self {
            RuntimeError::IdentNotFound(name) => {
                let mut out = String::from_str("Identifier `");
                out.append(name.as_str());
                out.append("` not found");
                out
            },
            RuntimeError::TypeError { ident, expected, found } => {
                let mut out = String::from_str("Type of `");
                out.append(ident.as_str());
                out.append("` mismatched: expect `");
                out.append(expected.as_str());
                out.append("`, found `");
                out.append(found.as_str());
                out.append("`");
                out
            },
            RuntimeError::ArgumentError { ident, expected, found } => {
                let mut out = String::from_str("Expected ");
                push_decimal(&mut out, *expected);
                out.append(" arguments to call `");
                out.append(ident.as_str());
                out.append("`, found ");
                push_decimal(&mut out, *found);
                out
            },
            RuntimeError::NullRefError(r) => {
                let mut out = String::from_str("Ref not found: `");
                let shown = r.to_text();
                out.append(shown.as_str());
                out.append("`");
                out
            },
            RuntimeError::MaxRecursionExceeded => String::from_str("Max recursion depth exceeded"),
            RuntimeError::DivisionByZero => String::from_str("Division by zero"),
            RuntimeError::IterationLimitExceeded => String::from_str("Loop iteration limit exceeded"),
            RuntimeError::Unsupported(what) => {
                let mut out = String::from_str("Unsupported construct: ");
                out.append(what.as_str());
                out
            },
        }
    }
}

/// A failure of the shell hook.
#[derive(Debug, Clone, PartialEq, Eq)]
pub enum CommandError {
    /// The command could not be run; the payload is the system's description.
    Command(String),
    /// The command's output could not be read as text.
    CodingError,
}

/// The mathematical content of a [`CommandError`].
pub enum CommandErrorView {
    Command(Seq<char>),
    CodingError,
}

impl CommandErrorView {
    /// The text shown to the user for this error.
    pub open spec fn message(self) -> Seq<char> {
        match self {
            CommandErrorView::Command(reason) => "Command execution error: "@ + reason,
            CommandErrorView::CodingError => "Command output is not UTF-8"@,
        }
    }
}

impl View for CommandError {
    type V = CommandErrorView;

    open spec fn view(&self) -> CommandErrorView {
        match self {
            CommandError::Command(reason) => CommandErrorView::Command(reason@),
            CommandError::CodingError => CommandErrorView::CodingError,
        }
    }
}

impl CommandError {
    /// The text shown to the user for this error.
    pub fn message(&self) -> (r: String)
        ensures
            r@ == self@.message(),
    {
        match self {
            CommandError::Command(reason) => {
                let mut out = String::from_str("Command execution error: ");
                out.append(reason.as_str());
                out
            },
            CommandError::CodingError => String::from_str("Command output is not UTF-8"),
        }
    }
}

/// Any failure of a run.
#[derive(Debug, Clone, PartialEq, Eq)]
pub enum Error {
    Command(CommandError),
    Runtime(RuntimeError),
    /// The source text was rejected before anything ran; the payload is the
    /// parser's description, carried through unchanged.
    Parse(String),
}

/// The mathematical content of an [`Error`].
pub enum ErrorView {
    Command(CommandErrorView),
    Runtime(RuntimeErrorView),
    Parse(Seq<char>),
}

impl ErrorView {
    /// The text shown to the user for this error.
    pub open spec fn message(self) -> Seq<char> {
        match self {
            ErrorView::Command(e) => e.message(),
            ErrorView::Runtime(e) => e.message(),
            ErrorView::Parse(reason) => reason,
        }
    }
}

impl View for Error {
    type V = ErrorView;

    open spec fn view(&self) -> ErrorView {
        match self {
            Error::Command(e) => ErrorView::Command(e@),
            Error::Runtime(e) => ErrorView::Runtime(e@),
            Error::Parse(reason) => ErrorView::Parse(reason@),
        }
    }
}

impl Error {
    /// The text shown to the user for this error.
    pub fn message(&self) -> (r: String)
        ensures
            r@ == self@.message(),
    {
        match self {
            Error::Command(e) => e.message(),
            Error::Runtime(e) => e.message(),
            Error::Parse(reason) => reason.clone(),
        }
    }
}

impl From<RuntimeError> for Error {
    fn from(e: RuntimeError) -> (r: Self)
    {
        Error::Runtime(e)
    }
}

impl vstd::std_specs::convert::FromSpecImpl<RuntimeError> for Error {
    open spec fn obeys_from_spec() -> bool {
        true
    }

    open spec fn from_spec(e: RuntimeError) -> Self {
        Error::Runtime(e)
    }
}

impl From<CommandError> for Error {
    fn from(e: CommandError) -> (r: Self)
    {
        Error::Command(e)
    }
}

impl vstd::std_specs::convert::FromSpecImpl<CommandError> for Error {
    open spec fn obeys_from_spec() -> bool {
        true
    }

    open spec fn from_spec(e: CommandError) -> Self {
        Error::Command(e)
    }
}

pub type RuntimeResult<T> = Result<T, RuntimeError>;

pub type CommandResult<T> = Result<T, CommandError>;

pub type EvalResult<T> = Result<T, Error>;

/// The view of an evaluation's outcome, given the view of a success.
pub open spec fn lift_runtime<T>(r: Result<T, RuntimeErrorView>) -> Result<T, ErrorView> {
    match r {
        Ok(v) => Ok(v),
        Err(e) => Err(ErrorView::Runtime(e)),
    }
}

} // verus!
