//! The syntax tree that the evaluator consumes.
//!
//! A parser produces these nodes; the evaluator only reads them. Every node
//! carries the span of source text it was read from, for diagnostics.

use vstd::prelude::*;
use vstd::string::StringExecFns;

verus! {

/// A half-open range of byte offsets into the source text.
#[derive(Debug, Clone, Copy, PartialEq, Eq, Structural, Hash)]
pub struct Span {
    pub start: usize,
    pub end: usize,
}

impl Span {
    pub fn new(start: usize, end: usize) -> (r: Self)
        ensures
            r == (Span { start, end }),
    {
        Span { start, end }
    }
}

/// A double-precision number, held as its IEEE-754 bit pattern. Arithmetic on
/// it is the embedder's business; the interpreter only carries the bits.
#[derive(Debug, Clone, Copy, PartialEq, Eq, Structural, Hash)]
pub struct Float(pub u64);

/// A whole program: the top-level items in source order.
#[derive(Debug, PartialEq, Hash)]
pub struct Tree {
    pub span: Span,
    pub items: Vec<Item>,
}

#[derive(Debug, PartialEq, Hash)]
pub struct Item {
    pub span: Span,
    pub kind: ItemKind,
}

#[derive(Debug, PartialEq, Hash)]
pub enum ItemKind {
    FnDef(FnDef),
    Stmt(Stmt),
    Assign(Assign),
    If(If),
    For(For),
    While(While),
    Expr(Expr),
}

/// A `let` binding.
#[derive(Debug, PartialEq, Hash)]
pub struct Stmt {
    pub span: Span,
    pub ident: Ident,
    pub expr: Expr,
}

#[derive(Debug, PartialEq, Hash)]
pub struct FnDef {
    pub span: Span,
    pub ident: Ident,
    pub params: Vec<Ident>,
    pub body: Block,
}

#[derive(Debug, PartialEq, Hash)]
pub struct If {
    pub span: Span,
    pub cond: Expr,
    pub then_block: Block,
    pub else_block: Option<Block>,
}

#[derive(Debug, PartialEq, Hash)]
pub struct For {
    pub span: Span,
    pub ident: Ident,
    pub expr: Expr,
    pub block: Block,
}

#[derive(Debug, PartialEq, Hash)]
pub struct While {
    pub span: Span,
    pub expr: Expr,
    pub block: Block,
}

#[derive(Debug, PartialEq, Hash)]
pub struct Expr {
    pub kind: ExprKind,
    pub span: Span,
}

#[derive(Debug, PartialEq, Hash)]
pub enum ExprKind {
    Ident(Ident),
    Literal(Literal),
    FnCall(FnCall),
    Exec(Exec),
    Block(Block),
    BinOp(BinOpExpr),
    UnOp(UnOpExpr),
    Unit,
}

#[derive(Debug, Clone, PartialEq, Hash)]
pub struct Ident {
    pub name: String,
    pub span: Span,
}

#[derive(Debug, PartialEq, Hash)]
pub struct FnCall {
    pub ident: Ident,
    pub args: Vec<Expr>,
    pub span: Span,
}

/// A shell-command substitution; `cmd` is the command text between the
/// delimiters.
#[derive(Debug, Clone, PartialEq, Hash)]
pub struct Exec {
    pub span: Span,
    pub cmd: String,
}

#[derive(Debug, PartialEq, Hash)]
pub struct Block {
    pub span: Span,
    pub items: Vec<Item>,
}

#[derive(Debug, Clone, PartialEq, Hash)]
pub struct Literal {
    pub kind: LiteralKind,
    pub span: Span,
}

#[derive(Debug, Clone, PartialEq, Hash)]
pub enum LiteralKind {
    String(String),
    Bool(bool),
    Number(i64),
    Float(Float),
}

#[derive(Debug, Clone, Copy, PartialEq, Eq, Structural, Hash)]
pub enum BinOpKind {
    Add,
    Sub,
    Mul,
    Div,
    Eq,
    Neq,
    Lt,
    Le,
    Gt,
    Ge,
    And,
    Or,
}

#[derive(Debug, Clone, Copy, PartialEq, Eq, Structural, Hash)]
pub enum UnOpKind {
    Neg,
    Not,
}

#[derive(Debug, PartialEq, Hash)]
pub struct BinOpExpr {
    pub left: Box<Expr>,
    pub right: Box<Expr>,
    pub kind: BinOpKind,
    pub span: Span,
}

#[derive(Debug, PartialEq, Hash)]
pub struct UnOpExpr {
    pub expr: Box<Expr>,
    pub kind: UnOpKind,
    pub span: Span,
}

#[derive(Debug, PartialEq, Hash)]
pub struct Assign {
    pub span: Span,
    pub ident: Ident,
    pub expr: Expr,
}

impl BinOpKind {
    /// The operator as it is written in source text.
    pub open spec fn symbol(self) -> Seq<char> {
        match self {
            BinOpKind::Add => "+"@,
            BinOpKind::Sub => "-"@,
            BinOpKind::Mul => "*"@,
            BinOpKind::Div => "/"@,
            BinOpKind::Eq => "=="@,
            BinOpKind::Neq => "!="@,
            BinOpKind::Lt => "<"@,
            BinOpKind::Le => "<="@,
            BinOpKind::Gt => ">"@,
            BinOpKind::Ge => ">="@,
            BinOpKind::And => "&&"@,
            BinOpKind::Or => "||"@,
        }
    }

    /// The operator as it is written in source text.
    pub fn as_str(&self) -> (r: &'static str)
        ensures
            r@ == self.symbol(),
    {
        match self {
            BinOpKind::Add => "+",
            BinOpKind::Sub => "-",
            BinOpKind::Mul => "*",
            BinOpKind::Div => "/",
            BinOpKind::Eq => "==",
            BinOpKind::Neq => "!=",
            BinOpKind::Lt => "<",
            BinOpKind::Le => "<=",
            BinOpKind::Gt => ">",
            BinOpKind::Ge => ">=",
            BinOpKind::And => "&&",
            BinOpKind::Or => "||",
        }
    }
}

impl Ident {
    /// The text `Ident(name)` used in diagnostics.
    pub open spec fn text(self) -> Seq<char> {
        "Ident("@ + self.name@ + ")"@
    }

    /// Renders the identifier as `Ident(name)`.
    pub fn to_text(&self) -> (r: String)
        ensures
            r@ == self.text(),
    {
        let mut out = String::from_str("Ident(");
        out.append(self.name.as_str());
        out.append(")");
        out
    }
}

/// The texts of the first `upto` parameters, separated by a comma and a
/// space.
pub open spec fn joined_params(params: Seq<Ident>, upto: nat) -> Seq<char>
    decreases upto,
{
    if upto == 0 {
        Seq::empty()
    } else if upto == 1 {
        params[0].text()
    } else {
        joined_params(params, (upto - 1) as nat) + ", "@ + params[upto - 1].text()
    }
}

impl FnDef {
    /// The signature `fn Ident(name)(Ident(a), Ident(b))` used in
    /// diagnostics.
    pub open spec fn text(self) -> Seq<char> {
        "fn "@ + self.ident.text() + "("@ + joined_params(self.params@, self.params@.len()) + ")"@
    }

    /// Renders the signature of the definition.
    pub fn to_text(&self) -> (r: String)
        ensures
            r@ == self.text(),
    {
        let mut out = String::from_str("fn ");
        let name = self.ident.to_text();
        out.append(name.as_str());
        out.append("(");
        let ghost head = out@;
        let mut i: usize = 0;
        assert(out@ =~= head + joined_params(self.params@, 0));
        while i < self.params.len()
            invariant
                i <= self.params.len(),
                out@ == head + joined_params(self.params@, i as nat),
            decreases self.params.len() - i,
        {
            if i > 0 {
                out.append(", ");
            }
            let param = self.params[i].to_text();
            out.append(param.as_str());
            i = i + 1;
            assert(out@ =~= head + joined_params(self.params@, i as nat));
        }
        out.append(")");
        out
    }
}

} // verus!
