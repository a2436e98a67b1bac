use vstd::prelude::*;
use crate::classify::is_result_var;

verus! {

/// An expression of a function body, reduced to what the rewriter reads.
///
/// `Leaf` and `Compound` carry a tag by which the host rebuilds the node they
/// stand for; `Compound` also lists the node's direct sub-expressions in order
/// (an `if` lists its condition and its branches, each branch a `Block`).
/// The last four variants never come from source text: the rewriter inserts them.
#[derive(Debug, PartialEq, Eq)]
pub enum Expr {
    /// An expression without sub-expressions: a literal, a macro call, ...
    Leaf(u64),
    /// A path, given by its segments (`Box::pin`, `__ret`).
    Path(Vec<String>),
    /// A call: the callee and the arguments.
    Call(Box<Expr>, Vec<Expr>),
    /// Any other expression, by its tag and its direct sub-expressions.
    Compound(u64, Vec<Expr>),
    /// A block used as an expression.
    Block(Vec<Stmt>),
    /// `return` with or without a value.
    Return(Option<Box<Expr>>),
    /// The short-circuit operator `e?`.
    Try(Box<Expr>),
    /// A closure: whether it captures by value (`move`), and its body.
    Closure(bool, Box<Expr>),
    /// An async block: whether it captures by value (`async move`), and its statements.
    Async(bool, Vec<Stmt>),
    /// `{ let __res = v; <log>; return __res; }`, or for a bare `return`,
    /// `{ let __res = "nothing"; <log>; return; }`.
    LoggedReturn(Option<Box<Expr>>),
    /// `match e { Ok(v) => v, Err(e) => { let __res = Err(e.into()); <log>; return __res; } }`,
    /// for an operand that is a `Result`.
    LoggedTry(Box<Expr>),
    /// `{ let __res = v; <log>; __res }`.
    LoggedTail(Box<Expr>),
    /// `{ let __args = __args.clone(); e }`.
    CopyArgs(Box<Expr>),
}

/// A statement of a block.
#[derive(Debug, PartialEq, Eq)]
pub enum Stmt {
    /// A `let` binding (its pattern and type by tag) with its initializer, if any.
    Let(u64, Option<Expr>),
    /// An expression without a trailing `;`.
    Expr(Expr),
    /// An expression followed by `;`.
    Semi(Expr),
}

/// Holds when `e` has none of the nodes that only the rewriter inserts.
pub open spec fn is_source_expr(e: Expr) -> bool
    decreases e,
{
    match e {
        Expr::Leaf(_) => true,
        Expr::Path(_) => true,
        Expr::Call(f, a) => is_source_expr(*f) && forall|i: int|
            0 <= i < a.len() ==> is_source_expr(#[trigger] a@[i]),
        Expr::Compound(_, a) => forall|i: int| 0 <= i < a.len() ==> is_source_expr(#[trigger] a@[i]),
        Expr::Block(s) => forall|i: int| 0 <= i < s.len() ==> is_source_stmt(#[trigger] s@[i]),
        Expr::Return(v) => match v {
            Some(x) => is_source_expr(*x),
            None => true,
        },
        Expr::Try(x) => is_source_expr(*x),
        Expr::Closure(_, b) => is_source_expr(*b),
        Expr::Async(_, s) => forall|i: int| 0 <= i < s.len() ==> is_source_stmt(#[trigger] s@[i]),
        _ => false,
    }
}

/// Holds when `s` has none of the nodes that only the rewriter inserts.
pub open spec fn is_source_stmt(s: Stmt) -> bool
    decreases s,
{
    match s {
        Stmt::Let(_, None) => true,
        Stmt::Let(_, Some(e)) => is_source_expr(e),
        Stmt::Expr(e) => is_source_expr(e),
        Stmt::Semi(e) => is_source_expr(e),
    }
}

/// Holds when a list of statements is source text.
pub open spec fn is_source_block(s: Seq<Stmt>) -> bool {
    forall|i: int| 0 <= i < s.len() ==> is_source_stmt(#[trigger] s[i])
}

/// Holds when `e` holds no `return`, no `?` and no statement that is the
/// convention's bare result variable, closures included.
pub open spec fn exit_free_expr(e: Expr) -> bool
    decreases e,
{
    match e {
        Expr::Leaf(_) => true,
        Expr::Path(_) => true,
        Expr::Call(f, a) => exit_free_expr(*f) && forall|i: int|
            0 <= i < a.len() ==> exit_free_expr(#[trigger] a@[i]),
        Expr::Compound(_, a) => forall|i: int| 0 <= i < a.len() ==> exit_free_expr(#[trigger] a@[i]),
        Expr::Block(s) => forall|i: int| 0 <= i < s.len() ==> exit_free_stmt(#[trigger] s@[i]),
        Expr::Return(_) => false,
        Expr::Try(_) => false,
        Expr::Closure(_, b) => exit_free_expr(*b),
        Expr::Async(_, s) => forall|i: int| 0 <= i < s.len() ==> exit_free_stmt(#[trigger] s@[i]),
        Expr::LoggedReturn(_) => false,
        Expr::LoggedTry(_) => false,
        Expr::LoggedTail(x) => exit_free_expr(*x),
        Expr::CopyArgs(x) => exit_free_expr(*x),
    }
}

/// `exit_free_expr` on a statement.
pub open spec fn exit_free_stmt(s: Stmt) -> bool
    decreases s,
{
    match s {
        Stmt::Let(_, None) => true,
        Stmt::Let(_, Some(e)) => exit_free_expr(e),
        Stmt::Expr(e) => exit_free_expr(e) && !is_result_var(e),
        Stmt::Semi(e) => exit_free_expr(e),
    }
}

/// Holds when no statement inside `e` is the convention's bare result variable.
pub open spec fn result_var_free_expr(e: Expr) -> bool
    decreases e,
{
    match e {
        Expr::Call(f, a) => result_var_free_expr(*f) && forall|i: int|
            0 <= i < a.len() ==> result_var_free_expr(#[trigger] a@[i]),
        Expr::Compound(_, a) => forall|i: int|
            0 <= i < a.len() ==> result_var_free_expr(#[trigger] a@[i]),
        Expr::Block(s) => forall|i: int| 0 <= i < s.len() ==> result_var_free_stmt(#[trigger] s@[i]),
        Expr::Return(v) => match v {
            Some(x) => result_var_free_expr(*x),
            None => true,
        },
        Expr::Try(x) => result_var_free_expr(*x),
        Expr::Closure(_, b) => result_var_free_expr(*b),
        Expr::Async(_, s) => forall|i: int| 0 <= i < s.len() ==> result_var_free_stmt(#[trigger] s@[i]),
        Expr::LoggedReturn(v) => match v {
            Some(x) => result_var_free_expr(*x),
            None => true,
        },
        Expr::LoggedTry(x) => result_var_free_expr(*x),
        Expr::LoggedTail(x) => result_var_free_expr(*x),
        Expr::CopyArgs(x) => result_var_free_expr(*x),
        _ => true,
    }
}

/// `result_var_free_expr` on a statement.
pub open spec fn result_var_free_stmt(s: Stmt) -> bool
    decreases s,
{
    match s {
        Stmt::Let(_, None) => true,
        Stmt::Let(_, Some(e)) => result_var_free_expr(e),
        Stmt::Expr(e) => result_var_free_expr(e) && !is_result_var(e),
        Stmt::Semi(e) => result_var_free_expr(e),
    }
}

/// Holds when `e` holds no inserted log emission: none at a `return`, a `?`
/// or a tail.
pub open spec fn log_free_expr(e: Expr) -> bool
    decreases e,
{
    match e {
        Expr::Leaf(_) => true,
        Expr::Path(_) => true,
        Expr::Call(f, a) => log_free_expr(*f) && forall|i: int|
            #![trigger a@[i]] 0 <= i < a.len() ==> log_free_expr(a@[i]),
        Expr::Compound(_, a) => forall|i: int|
            #![trigger a@[i]] 0 <= i < a.len() ==> log_free_expr(a@[i]),
        Expr::Block(s) => forall|i: int|
            #![trigger s@[i]] 0 <= i < s.len() ==> log_free_stmt(s@[i]),
        Expr::Return(v) => match v {
            Some(x) => log_free_expr(*x),
            None => true,
        },
        Expr::Try(x) => log_free_expr(*x),
        Expr::Closure(_, b) => log_free_expr(*b),
        Expr::Async(_, s) => forall|i: int|
            #![trigger s@[i]] 0 <= i < s.len() ==> log_free_stmt(s@[i]),
        Expr::LoggedReturn(_) => false,
        Expr::LoggedTry(_) => false,
        Expr::LoggedTail(_) => false,
        Expr::CopyArgs(x) => log_free_expr(*x),
    }
}

/// `log_free_expr` on a statement.
pub open spec fn log_free_stmt(s: Stmt) -> bool
    decreases s,
{
    match s {
        Stmt::Let(_, None) => true,
        Stmt::Let(_, Some(e)) => log_free_expr(e),
        Stmt::Expr(e) => log_free_expr(e),
        Stmt::Semi(e) => log_free_expr(e),
    }
}

/// `log_free_expr` on every statement of a list.
pub open spec fn log_free_block(s: Seq<Stmt>) -> bool {
    forall|i: int| 0 <= i < s.len() ==> log_free_stmt(#[trigger] s[i])
}

/// Holds when `r` is `e` with the inserted nodes taken out: the rewritten code
/// computes what the source computed.
pub open spec fn strips_to_expr(r: Expr, e: Expr) -> bool
    decreases r,
{
    match r {
        Expr::LoggedReturn(v) => match e {
            Expr::Return(w) => strips_to_opt(v, w),
            _ => false,
        },
        Expr::LoggedTry(x) => match e {
            Expr::Try(y) => strips_to_expr(*x, *y),
            _ => false,
        },
        Expr::LoggedTail(x) => strips_to_expr(*x, e),
        Expr::CopyArgs(x) => strips_to_expr(*x, e),
        Expr::Leaf(t) => e == Expr::Leaf(t),
        Expr::Path(p) => e == Expr::Path(p),
        Expr::Call(f, a) => match e {
            Expr::Call(g, b) => strips_to_expr(*f, *g) && a.len() == b.len() && forall|i: int|
                0 <= i < a.len() ==> strips_to_expr(#[trigger] a@[i], b@[i]),
            _ => false,
        },
        Expr::Compound(t, a) => match e {
            Expr::Compound(u, b) => t == u && a.len() == b.len() && forall|i: int|
                0 <= i < a.len() ==> strips_to_expr(#[trigger] a@[i], b@[i]),
            _ => false,
        },
        Expr::Block(s) => match e {
            Expr::Block(z) => s.len() == z.len() && forall|i: int|
                0 <= i < s.len() ==> strips_to_stmt(#[trigger] s@[i], z@[i]),
            _ => false,
        },
        Expr::Return(v) => match e {
            Expr::Return(w) => strips_to_opt(v, w),
            _ => false,
        },
        Expr::Try(x) => match e {
            Expr::Try(y) => strips_to_expr(*x, *y),
            _ => false,
        },
        Expr::Closure(c, b) => match e {
            Expr::Closure(d, b2) => c == d && strips_to_expr(*b, *b2),
            _ => false,
        },
        Expr::Async(c, s) => match e {
            Expr::Async(d, z) => c == d && s.len() == z.len() && forall|i: int|
                0 <= i < s.len() ==> strips_to_stmt(#[trigger] s@[i], z@[i]),
            _ => false,
        },
    }
}

/// `strips_to_expr` on an optional returned value.
pub open spec fn strips_to_opt(v: Option<Box<Expr>>, w: Option<Box<Expr>>) -> bool
    decreases v,
{
    match v {
        Some(x) => match w {
            Some(y) => strips_to_expr(*x, *y),
            None => false,
        },
        None => w is None,
    }
}

/// `strips_to_expr` on statements.
pub open spec fn strips_to_stmt(r: Stmt, s: Stmt) -> bool
    decreases r,
{
    match r {
        Stmt::Let(t, None) => s == Stmt::Let(t, None),
        Stmt::Let(t, Some(x)) => match s {
            Stmt::Let(u, Some(y)) => t == u && strips_to_expr(x, y),
            _ => false,
        },
        Stmt::Expr(x) => match s {
            Stmt::Expr(y) => strips_to_expr(x, y),
            _ => false,
        },
        Stmt::Semi(x) => match s {
            Stmt::Semi(y) => strips_to_expr(x, y),
            _ => false,
        },
    }
}

} // verus!
