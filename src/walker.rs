use vstd::prelude::*;
use crate::classify::{
    classify, classify_spec, Class, ExitKind, Position, WalkState,
};
use crate::syntax::{is_source_expr, is_source_stmt, Expr, Stmt};

verus! {

/// The position of statement `i` of a list of `n` when it has no `;`.
pub open spec fn position_of(i: int, n: int) -> Position {
    if i == n - 1 {
        Position::Tail
    } else {
        Position::Operand
    }
}

/// `r` is `e` rewritten in state `st`: every exit point that the decision
/// table finds is instrumented, and nothing else changes.
pub open spec fn rewrites_expr(e: Expr, r: Expr, st: WalkState) -> bool
    decreases e,
{
    match e {
        Expr::Leaf(t) => r == Expr::Leaf(t),
        Expr::Path(p) => r == Expr::Path(p),
        Expr::Call(f, a) => match r {
            Expr::Call(g, b) => rewrites_expr(*f, *g, st) && b.len() == a.len() && forall|i: int|
                0 <= i < a.len() ==> rewrites_expr(#[trigger] a@[i], b@[i], st),
            _ => false,
        },
        Expr::Compound(t, a) => match r {
            Expr::Compound(u, b) => u == t && b.len() == a.len() && forall|i: int|
                0 <= i < a.len() ==> rewrites_expr(#[trigger] a@[i], b@[i], st),
            _ => false,
        },
        Expr::Block(s) => match r {
            Expr::Block(z) => z.len() == s.len() && forall|i: int|
                0 <= i < s.len() ==> rewrites_stmt(
                    #[trigger] s@[i],
                    z@[i],
                    st.in_block(),
                    position_of(i, s.len() as int),
                ),
            _ => false,
        },
        Expr::Return(v) => {
            let logged = classify_spec(e, Position::Operand, st) == Class::FunctionExit(
                ExitKind::Return,
            );
            match v {
                None => r == (if logged {
                    Expr::LoggedReturn(None)
                } else {
                    Expr::Return(None)
                }),
                Some(x) => match r {
                    Expr::LoggedReturn(Some(y)) => logged && rewrites_expr(*x, *y, st),
                    Expr::Return(Some(y)) => !logged && rewrites_expr(*x, *y, st),
                    _ => false,
                },
            }
        },
        Expr::Try(x) => match r {
            Expr::LoggedTry(y) => st.opaque_depth == 0 && rewrites_expr(*x, *y, st),
            Expr::Try(y) => st.opaque_depth > 0 && rewrites_expr(*x, *y, st),
            _ => false,
        },
        Expr::Closure(c, b) => {
            let inner = if c {
                match r {
                    Expr::CopyArgs(q) => *q,
                    _ => r,
                }
            } else {
                r
            };
            (c ==> r is CopyArgs) && match inner {
                Expr::Closure(d, b2) => d == c && rewrites_expr(*b, *b2, st.in_opaque()),
                _ => false,
            }
        },
        Expr::Async(c, s) => {
            let inner = if c {
                match r {
                    Expr::CopyArgs(q) => *q,
                    _ => r,
                }
            } else {
                r
            };
            (c ==> r is CopyArgs) && match inner {
                Expr::Async(d, z) => d == c && z.len() == s.len() && forall|i: int|
                    0 <= i < s.len() ==> rewrites_stmt(
                        #[trigger] s@[i],
                        z@[i],
                        st.in_opaque().in_block(),
                        position_of(i, s.len() as int),
                    ),
                _ => false,
            }
        },
        _ => false,
    }
}

/// `r` is statement `s` rewritten in state `st`, standing at `pos` in its block.
pub open spec fn rewrites_stmt(s: Stmt, r: Stmt, st: WalkState, pos: Position) -> bool
    decreases s,
{
    match s {
        Stmt::Let(t, None) => r == Stmt::Let(t, None),
        Stmt::Let(t, Some(e)) => match r {
            Stmt::Let(u, Some(x)) => u == t && rewrites_expr(e, x, st),
            _ => false,
        },
        Stmt::Semi(e) => match r {
            Stmt::Semi(x) => rewrites_expr(e, x, st),
            _ => false,
        },
        Stmt::Expr(e) => match r {
            Stmt::Expr(x) => match classify_spec(e, pos, st) {
                Class::FunctionExit(ExitKind::Tail) => match x {
                    Expr::LoggedTail(y) => rewrites_expr(e, *y, st),
                    _ => false,
                },
                Class::FunctionExit(ExitKind::ResultVar) => x == Expr::LoggedTail(Box::new(e)),
                _ => rewrites_expr(e, x, st),
            },
            _ => false,
        },
    }
}

/// A list of statements rewritten in state `st`; the last one is a tail.
pub open spec fn rewrites_block(s: Seq<Stmt>, z: Seq<Stmt>, st: WalkState) -> bool {
    &&& z.len() == s.len()
    &&& forall|i: int|
        0 <= i < s.len() ==> rewrites_stmt(#[trigger] s[i], z[i], st, position_of(i, s.len() as int))
}

/// Rewrites an expression: every exit point of the function in it is instrumented.
pub fn fold_expr(e: Expr, st: WalkState) -> (r: Expr)
    requires
        is_source_expr(e),
    ensures
        rewrites_expr(e, r, st),
    decreases e,
{
    let c = classify(&e, Position::Operand, &st);
    match e {
        Expr::Leaf(t) => Expr::Leaf(t),
        Expr::Path(p) => Expr::Path(p),
        Expr::Call(f, a) => {
            let g = fold_expr(*f, st);
            let b = fold_exprs(a, st);
            Expr::Call(Box::new(g), b)
        },
        Expr::Compound(t, a) => {
            let b = fold_exprs(a, st);
            Expr::Compound(t, b)
        },
        Expr::Block(s) => {
            let z = fold_stmts(s, st.enter_block());
            Expr::Block(z)
        },
        Expr::Return(v) => {
            let w = match v {
                None => None,
                Some(x) => Some(Box::new(fold_expr(*x, st))),
            };
            if c == Class::FunctionExit(ExitKind::Return) {
                Expr::LoggedReturn(w)
            } else {
                Expr::Return(w)
            }
        },
        Expr::Try(x) => {
            let y = fold_expr(*x, st);
            if c == Class::FunctionExit(ExitKind::Propagate) {
                Expr::LoggedTry(Box::new(y))
            } else {
                Expr::Try(Box::new(y))
            }
        },
        Expr::Closure(cap, b) => {
            let b2 = fold_expr(*b, st.enter_opaque());
            let q = Expr::Closure(cap, Box::new(b2));
            if cap {
                Expr::CopyArgs(Box::new(q))
            } else {
                q
            }
        },
        Expr::Async(cap, s) => {
            let z = fold_stmts(s, st.enter_opaque().enter_block());
            let q = Expr::Async(cap, z);
            if cap {
                Expr::CopyArgs(Box::new(q))
            } else {
                q
            }
        },
        // Inserted nodes are not source text: the precondition excludes them.
        other => other,
    }
}

/// Rewrites the sub-expressions of one node, in order.
pub fn fold_exprs(a: Vec<Expr>, st: WalkState) -> (r: Vec<Expr>)
    requires
        forall|i: int| 0 <= i < a.len() ==> is_source_expr(#[trigger] a@[i]),
    ensures
        r.len() == a.len(),
        forall|i: int| 0 <= i < a.len() ==> rewrites_expr(#[trigger] a@[i], r@[i], st),
    decreases a,
{
    let ghost a0 = a;
    let n = a.len();
    let mut rest = a;
    let mut r: Vec<Expr> = Vec::new();
    let mut k: usize = 0;
    while k < n
        invariant
            n == a0.len(),
            a0 == a,
            k <= n,
            rest@ == a0@.subrange(k as int, n as int),
            r.len() == k,
            forall|i: int| 0 <= i < a0.len() ==> is_source_expr(#[trigger] a0@[i]),
            forall|i: int| 0 <= i < k ==> rewrites_expr(#[trigger] a0@[i], r@[i], st),
        decreases n - k,
    {
        let x = rest.remove(0);
        assert(x == a0@[k as int]);
        assert(decreases_to!(a0 => a0[k as int]));
        let y = fold_expr(x, st);
        r.push(y);
        k = k + 1;
    }
    r
}

/// Rewrites the statements of one block, the last one standing at the tail.
pub fn fold_stmts(s: Vec<Stmt>, st: WalkState) -> (r: Vec<Stmt>)
    requires
        forall|i: int| 0 <= i < s.len() ==> is_source_stmt(#[trigger] s@[i]),
    ensures
        rewrites_block(s@, r@, st),
    decreases s,
{
    let ghost s0 = s;
    let n = s.len();
    let mut rest = s;
    let mut r: Vec<Stmt> = Vec::new();
    let mut k: usize = 0;
    while k < n
        invariant
            n == s0.len(),
            s0 == s,
            k <= n,
            rest@ == s0@.subrange(k as int, n as int),
            r.len() == k,
            forall|i: int| 0 <= i < s0.len() ==> is_source_stmt(#[trigger] s0@[i]),
            forall|i: int|
                0 <= i < k ==> rewrites_stmt(#[trigger] s0@[i], r@[i], st, position_of(i, n as int)),
        decreases n - k,
    {
        let x = rest.remove(0);
        assert(x == s0@[k as int]);
        assert(decreases_to!(s0 => s0[k as int]));
        let pos = if k + 1 == n {
            Position::Tail
        } else {
            Position::Operand
        };
        let y = fold_stmt(x, pos, st);
        r.push(y);
        k = k + 1;
    }
    r
}

/// Rewrites one statement standing at `pos` in its block; a tail that the
/// decision table calls an exit of the function is logged.
pub fn fold_stmt(s: Stmt, pos: Position, st: WalkState) -> (r: Stmt)
    requires
        is_source_stmt(s),
    ensures
        rewrites_stmt(s, r, st, pos),
    decreases s,
{
    match s {
        Stmt::Let(t, None) => Stmt::Let(t, None),
        Stmt::Let(t, Some(e)) => Stmt::Let(t, Some(fold_expr(e, st))),
        Stmt::Semi(e) => Stmt::Semi(fold_expr(e, st)),
        Stmt::Expr(e) => {
            let c = classify(&e, pos, &st);
            match c {
                Class::FunctionExit(ExitKind::Tail) => {
                    let x = fold_expr(e, st);
                    Stmt::Expr(Expr::LoggedTail(Box::new(x)))
                },
                Class::FunctionExit(ExitKind::ResultVar) => Stmt::Expr(Expr::LoggedTail(Box::new(e))),
                _ => Stmt::Expr(fold_expr(e, st)),
            }
        },
    }
}

} // verus!
