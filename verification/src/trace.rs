//! The record of what the host was asked and what it answered.
//!
//! Running a shell command, calling a host function and floating-point
//! arithmetic are done by the embedder. The interpreter cannot know what
//! comes back, so its contracts are stated relative to the answers: a run is
//! what the model computes from the program and the answers the host gave,
//! in the order in which it gave them.

use vstd::prelude::*;
use crate::ast::{BinOpKind, Float};
use crate::error::{CommandErrorView, CommandResult, RuntimeErrorView, RuntimeResult};
use crate::func::Gives;
use crate::value::{Value, ValueView};

verus! {

/// What the embedder provides besides host functions: a shell and a
/// floating-point unit.
pub trait Platform {
    /// Runs `command` as `sh -c` would and returns its standard output as
    /// text, with invalid UTF-8 replaced.
    fn run_command(&mut self, command: &str) -> CommandResult<String>;

    /// `left kind right` in IEEE-754 double precision, for `kind` one of
    /// `+ - * /`, on bit patterns.
    fn float_arith(&mut self, kind: BinOpKind, left: Float, right: Float) -> Float;

    /// `left kind right` in IEEE-754 double precision, for `kind` one of
    /// `== != < <= > >=`, on bit patterns.
    fn float_compare(&mut self, kind: BinOpKind, left: Float, right: Float) -> bool;
}

/// A question put to the host.
pub enum HostRequest {
    /// A call of the host function registered as `name`, which gives what
    /// `gives` says.
    Native { name: Seq<char>, args: Seq<ValueView>, gives: Gives },
    /// A shell command.
    Command { command: Seq<char> },
    /// An arithmetic operation on two floating-point numbers.
    FloatArith { kind: BinOpKind, left: Float, right: Float },
    /// A comparison of two floating-point numbers.
    FloatCompare { kind: BinOpKind, left: Float, right: Float },
}

/// What the host answered.
pub enum HostAnswer {
    Native(Result<ValueView, RuntimeErrorView>),
    Command(Result<Seq<char>, CommandErrorView>),
    Number(Float),
    Flag(bool),
}

impl HostAnswer {
    /// The answer read as the result of a host function.
    pub open spec fn native(self) -> Result<ValueView, RuntimeErrorView> {
        match self {
            HostAnswer::Native(r) => r,
            _ => Ok(ValueView::Unit),
        }
    }

    /// The answer read as the output of a shell command.
    pub open spec fn command(self) -> Result<Seq<char>, CommandErrorView> {
        match self {
            HostAnswer::Command(r) => r,
            _ => Ok(Seq::empty()),
        }
    }

    /// The answer read as a floating-point number.
    pub open spec fn number(self) -> Float {
        match self {
            HostAnswer::Number(f) => f,
            _ => Float(0),
        }
    }

    /// The answer read as a truth value.
    pub open spec fn flag(self) -> bool {
        match self {
            HostAnswer::Flag(b) => b,
            _ => false,
        }
    }
}

/// The answer that stands for what a shell command gave.
pub open spec fn command_answer(r: CommandResult<String>) -> HostAnswer {
    HostAnswer::Command(
        match r {
            Ok(text) => Ok(text@),
            Err(e) => Err(e@),
        },
    )
}

/// The answer that stands for what a host function gave.
pub open spec fn native_answer(r: RuntimeResult<Value>) -> HostAnswer {
    HostAnswer::Native(
        match r {
            Ok(v) => Ok(v@),
            Err(e) => Err(e@),
        },
    )
}

/// The views of evaluated arguments.
pub open spec fn arg_views(args: Seq<Value>) -> Seq<ValueView> {
    args.map_values(|v: Value| v@)
}

/// One exchange with the host.
pub struct HostCall {
    pub request: HostRequest,
    pub answer: HostAnswer,
}

/// The answers `ans` begin with the answers recorded in `trace`.
pub closed spec fn agrees(ans: Seq<HostAnswer>, trace: Seq<HostCall>) -> bool {
    &&& trace.len() <= ans.len()
    &&& forall|i: int| 0 <= i < trace.len() ==> ans[i] == (#[trigger] trace[i]).answer
}

/// The trace `later` begins with the trace `earlier`.
pub closed spec fn extends(later: Seq<HostCall>, earlier: Seq<HostCall>) -> bool {
    &&& earlier.len() <= later.len()
    &&& forall|i: int| 0 <= i < earlier.len() ==> later[i] == #[trigger] earlier[i]
}

/// The answer `answer` to a call of a host function, recorded with the
/// argument views `args`, stands for the result `r` of a call with the
/// arguments `handed`, and `r` is a result that the function gives for them.
pub open spec fn stands_for(
    gives: Gives,
    name: Seq<char>,
    args: Seq<ValueView>,
    answer: HostAnswer,
    handed: Seq<Value>,
    r: RuntimeResult<Value>,
) -> bool {
    &&& arg_views(handed) == args
    &&& native_answer(r) == answer
    &&& gives(name, handed, r)
}

/// The answer of the exchange is one that the host function gives: for a
/// call of a host function, the answer stands for a result that the function
/// gives for its name and for arguments with the recorded views.
pub open spec fn answered(call: HostCall) -> bool {
    call.request is Native ==> exists|handed: Seq<Value>, r: RuntimeResult<Value>| #[trigger]
        stands_for(
            call.request->gives,
            call.request->name,
            call.request->args,
            call.answer,
            handed,
            r,
        )
}

/// Every call of a host function in the trace was answered by that function.
pub open spec fn honest(trace: Seq<HostCall>) -> bool {
    forall|i: int| 0 <= i < trace.len() ==> answered(#[trigger] trace[i])
}

/// The answers recorded in a trace, in order.
pub open spec fn answers(trace: Seq<HostCall>) -> Seq<HostAnswer> {
    trace.map_values(|c: HostCall| c.answer)
}

pub broadcast proof fn lemma_extends_refl(t: Seq<HostCall>)
    ensures
        #[trigger] extends(t, t),
{
}

pub broadcast proof fn lemma_extends_trans(a: Seq<HostCall>, b: Seq<HostCall>, c: Seq<HostCall>)
    requires
        #[trigger] extends(a, b),
        #[trigger] extends(b, c),
    ensures
        extends(a, c),
{
}

pub broadcast proof fn lemma_extends_push(t: Seq<HostCall>, c: HostCall)
    ensures
        #[trigger] extends(t.push(c), t),
{
}

pub broadcast proof fn lemma_agrees_earlier(
    ans: Seq<HostAnswer>,
    later: Seq<HostCall>,
    earlier: Seq<HostCall>,
)
    requires
        #[trigger] agrees(ans, later),
        #[trigger] extends(later, earlier),
    ensures
        agrees(ans, earlier),
{
}

pub broadcast proof fn lemma_agrees_push(ans: Seq<HostAnswer>, t: Seq<HostCall>, c: HostCall)
    requires
        #[trigger] agrees(ans, t.push(c)),
    ensures
        ans[t.len() as int] == c.answer,
        agrees(ans, t),
{
    assert(t.push(c)[t.len() as int] == c);
    assert forall|i: int| 0 <= i < t.len() implies ans[i] == (#[trigger] t[i]).answer by {
        assert(t.push(c)[i] == t[i]);
    }
}

/// The answers of a trace agree with the trace.
pub proof fn lemma_answers_agree(t: Seq<HostCall>)
    ensures
        agrees(answers(t), t),
{
}

pub broadcast proof fn lemma_honest_push(t: Seq<HostCall>, c: HostCall)
    requires
        honest(t),
        answered(c),
    ensures
        #[trigger] honest(t.push(c)),
{
}

pub broadcast group group_trace {
    lemma_honest_push,
    lemma_extends_refl,
    lemma_extends_trans,
    lemma_extends_push,
    lemma_agrees_earlier,
    lemma_agrees_push,
}

} // verus!
