use vstd::prelude::*;
use crate::classify::{is_box_pin_call, Position, WalkState};
use crate::config::AttrArg;
use crate::instrument::{
    ends_in_return, log_function_spec, top_state, wrapped_spec, FunctionDescriptor, InstrumentedFn,
};
use crate::record::{captured_names, views};
use crate::syntax::{
    exit_free_expr, exit_free_stmt, log_free_expr, result_var_free_expr, result_var_free_stmt, log_free_stmt, strips_to_expr, strips_to_opt,
    strips_to_stmt, Expr, Stmt,
};
use crate::walker::{position_of, rewrites_block, rewrites_expr, rewrites_stmt};

verus! {

/// Away from the function's own tail, the walk logs nothing in code without
/// `return`, `?` and result-variable statements; and nothing at all inside a
/// closure or an async block, unless the wrapped convention's result variable
/// stands there.
pub proof fn lemma_quiet_expr(e: Expr, r: Expr, st: WalkState)
    requires
        rewrites_expr(e, r, st),
        exit_free_expr(e) || (st.opaque_depth > 0 && (!st.wrapped_trait || result_var_free_expr(e))),
    ensures
        log_free_expr(r),
    decreases e,
{
    match e {
        Expr::Call(f, a) => {
            if let Expr::Call(g, b) = r {
                lemma_quiet_expr(*f, *g, st);
                assert forall|i: int| 0 <= i < b.len() implies log_free_expr(#[trigger] b@[i]) by {
                    lemma_quiet_expr(a@[i], b@[i], st);
                }
            }
        },
        Expr::Compound(_, a) => {
            if let Expr::Compound(_, b) = r {
                assert forall|i: int| 0 <= i < b.len() implies log_free_expr(#[trigger] b@[i]) by {
                    lemma_quiet_expr(a@[i], b@[i], st);
                }
            }
        },
        Expr::Block(s) => {
            if let Expr::Block(z) = r {
                assert forall|i: int| 0 <= i < z.len() implies log_free_stmt(#[trigger] z@[i]) by {
                    lemma_quiet_stmt(s@[i], z@[i], st.in_block(), position_of(i, s.len() as int));
                }
            }
        },
        Expr::Return(v) => {
            if let Some(x) = v {
                match r {
                    Expr::Return(Some(y)) => lemma_quiet_expr(*x, *y, st),
                    Expr::LoggedReturn(Some(y)) => lemma_quiet_expr(*x, *y, st),
                    _ => {},
                }
            }
        },
        Expr::Try(x) => {
            match r {
                Expr::Try(y) => lemma_quiet_expr(*x, *y, st),
                Expr::LoggedTry(y) => lemma_quiet_expr(*x, *y, st),
                _ => {},
            }
        },
        Expr::Closure(c, b) => {
            let inner = if c {
                match r {
                    Expr::CopyArgs(q) => *q,
                    _ => r,
                }
            } else {
                r
            };
            if let Expr::Closure(_, b2) = inner {
                lemma_quiet_expr(*b, *b2, st.in_opaque());
                assert(log_free_expr(inner));
            }
        },
        Expr::Async(c, s) => {
            let inner = if c {
                match r {
                    Expr::CopyArgs(q) => *q,
                    _ => r,
                }
            } else {
                r
            };
            if let Expr::Async(_, z) = inner {
                assert forall|i: int| 0 <= i < z.len() implies log_free_stmt(#[trigger] z@[i]) by {
                    lemma_quiet_stmt(
                        s@[i],
                        z@[i],
                        st.in_opaque().in_block(),
                        position_of(i, s.len() as int),
                    );
                }
                assert(log_free_expr(inner));
            }
        },
        _ => {},
    }
}

/// `lemma_quiet_expr` on a statement that is not a value-producing tail of the
/// function's own block.
pub proof fn lemma_quiet_stmt(s: Stmt, r: Stmt, st: WalkState, pos: Position)
    requires
        rewrites_stmt(s, r, st, pos),
        pos == Position::Operand || st.block_depth != 0 || st.returns_unit,
        exit_free_stmt(s) || (st.opaque_depth > 0 && (!st.wrapped_trait || result_var_free_stmt(s))),
    ensures
        log_free_stmt(r),
    decreases s,
{
    match s {
        Stmt::Let(_, Some(e)) => {
            if let Stmt::Let(_, Some(x)) = r {
                lemma_quiet_expr(e, x, st);
            }
        },
        Stmt::Semi(e) => {
            if let Stmt::Semi(x) = r {
                lemma_quiet_expr(e, x, st);
            }
        },
        Stmt::Expr(e) => {
            if let Stmt::Expr(x) = r {
                lemma_quiet_expr(e, x, st);
            }
        },
        _ => {},
    }
}

/// Taking the inserted nodes out of a rewritten expression gives back the
/// source: instrumentation changes no value, no error and no side effect.
pub proof fn lemma_strips_expr(e: Expr, r: Expr, st: WalkState)
    requires
        rewrites_expr(e, r, st),
    ensures
        strips_to_expr(r, e),
    decreases e,
{
    match e {
        Expr::Call(f, a) => {
            if let Expr::Call(g, b) = r {
                lemma_strips_expr(*f, *g, st);
                assert forall|i: int| 0 <= i < b.len() implies strips_to_expr(#[trigger] b@[i], a@[i]) by {
                    lemma_strips_expr(a@[i], b@[i], st);
                }
            }
        },
        Expr::Compound(_, a) => {
            if let Expr::Compound(_, b) = r {
                assert forall|i: int| 0 <= i < b.len() implies strips_to_expr(#[trigger] b@[i], a@[i]) by {
                    lemma_strips_expr(a@[i], b@[i], st);
                }
            }
        },
        Expr::Block(s) => {
            if let Expr::Block(z) = r {
                assert forall|i: int| 0 <= i < z.len() implies strips_to_stmt(#[trigger] z@[i], s@[i]) by {
                    lemma_strips_stmt(s@[i], z@[i], st.in_block(), position_of(i, s.len() as int));
                }
            }
        },
        Expr::Return(v) => {
            assert(strips_to_opt(None, None));
            if let Some(x) = v {
                match r {
                    Expr::Return(Some(y)) => {
                        lemma_strips_expr(*x, *y, st);
                        assert(strips_to_opt(Some(y), v));
                    },
                    Expr::LoggedReturn(Some(y)) => {
                        lemma_strips_expr(*x, *y, st);
                        assert(strips_to_opt(Some(y), v));
                    },
                    _ => {},
                }
            }
        },
        Expr::Try(x) => {
            match r {
                Expr::LoggedTry(y) => lemma_strips_expr(*x, *y, st),
                Expr::Try(y) => lemma_strips_expr(*x, *y, st),
                _ => {},
            }
        },
        Expr::Closure(c, b) => {
            let inner = if c {
                match r {
                    Expr::CopyArgs(q) => *q,
                    _ => r,
                }
            } else {
                r
            };
            if let Expr::Closure(_, b2) = inner {
                lemma_strips_expr(*b, *b2, st.in_opaque());
                assert(strips_to_expr(inner, e));
            }
        },
        Expr::Async(c, s) => {
            let inner = if c {
                match r {
                    Expr::CopyArgs(q) => *q,
                    _ => r,
                }
            } else {
                r
            };
            if let Expr::Async(_, z) = inner {
                assert forall|i: int| 0 <= i < z.len() implies strips_to_stmt(#[trigger] z@[i], s@[i]) by {
                    lemma_strips_stmt(
                        s@[i],
                        z@[i],
                        st.in_opaque().in_block(),
                        position_of(i, s.len() as int),
                    );
                }
                assert(strips_to_expr(inner, e));
            }
        },
        _ => {},
    }
}

/// `lemma_strips_expr` on a statement.
pub proof fn lemma_strips_stmt(s: Stmt, r: Stmt, st: WalkState, pos: Position)
    requires
        rewrites_stmt(s, r, st, pos),
    ensures
        strips_to_stmt(r, s),
    decreases s,
{
    match s {
        Stmt::Let(_, Some(e)) => {
            if let Stmt::Let(_, Some(x)) = r {
                lemma_strips_expr(e, x, st);
            }
        },
        Stmt::Semi(e) => {
            if let Stmt::Semi(x) = r {
                lemma_strips_expr(e, x, st);
            }
        },
        Stmt::Expr(e) => {
            if let Stmt::Expr(x) = r {
                match x {
                    Expr::LoggedTail(y) => {
                        if rewrites_expr(e, *y, st) {
                            lemma_strips_expr(e, *y, st);
                        } else {
                            assert(strips_to_expr(e, e)) by {
                                assert(e is Path);
                            }
                        }
                    },
                    _ => lemma_strips_expr(e, x, st),
                }
            }
        },
        _ => {},
    }
}

/// What a successful expansion states about the rewritten body.
proof fn lemma_expanded(attr: Seq<AttrArg>, input: FunctionDescriptor, f: InstrumentedFn)
    requires
        log_function_spec(attr, input, Ok(f)),
    ensures
        rewrites_block(input.body@, f.body@, top_state(input)),
        f.synthetic_exit == (input.returns_unit && !ends_in_return(input.body@)),
        views(f.arg_names@) == captured_names(input.params@),
{
}

/// Instrumentation keeps what the function computes: with the inserted nodes
/// taken out, the rewritten body is the source body, statement by statement.
pub proof fn law_instrumentation_keeps_behaviour(
    attr: Seq<AttrArg>,
    input: FunctionDescriptor,
    f: InstrumentedFn,
)
    requires
        log_function_spec(attr, input, Ok(f)),
    ensures
        f.body.len() == input.body.len(),
        forall|i: int| 0 <= i < f.body.len() ==> strips_to_stmt(#[trigger] f.body@[i], input.body@[i]),
{
    lemma_expanded(attr, input, f);
    let st = top_state(input);
    let n = input.body.len() as int;
    assert forall|i: int| 0 <= i < f.body.len() implies strips_to_stmt(
        #[trigger] f.body@[i],
        input.body@[i],
    ) by {
        lemma_strips_stmt(input.body@[i], f.body@[i], st, position_of(i, n));
    }
}

/// A function that returns a value, whose body has no `return` and no `?` and
/// ends in a tail expression `tail`, logs exactly once: at the tail, with the
/// tail's value, and gets no synthetic exit.
pub proof fn law_tail_is_the_only_exit(
    attr: Seq<AttrArg>,
    input: FunctionDescriptor,
    f: InstrumentedFn,
    tail: Expr,
)
    requires
        log_function_spec(attr, input, Ok(f)),
        !input.returns_unit,
        !(wrapped_spec(input.generics@) && is_box_pin_call(tail)),
        input.body.len() > 0,
        input.body@.last() == Stmt::Expr(tail),
        forall|i: int| 0 <= i < input.body.len() ==> exit_free_stmt(#[trigger] input.body@[i]),
    ensures
        match f.body@.last() {
            Stmt::Expr(Expr::LoggedTail(y)) => log_free_expr(*y) && strips_to_expr(*y, tail),
            _ => false,
        },
        forall|i: int| 0 <= i < f.body.len() - 1 ==> log_free_stmt(#[trigger] f.body@[i]),
        !f.synthetic_exit,
{
    lemma_expanded(attr, input, f);
    let st = top_state(input);
    let n = input.body.len() as int;
    assert(exit_free_stmt(input.body@[n - 1]));
    assert(rewrites_stmt(input.body@[n - 1], f.body@[n - 1], st, position_of(n - 1, n)));
    if let Stmt::Expr(Expr::LoggedTail(y)) = f.body@[n - 1] {
        lemma_quiet_expr(tail, *y, st);
        lemma_strips_expr(tail, *y, st);
    }
    assert forall|i: int| 0 <= i < f.body.len() - 1 implies log_free_stmt(#[trigger] f.body@[i]) by {
        assert(rewrites_stmt(input.body@[i], f.body@[i], st, position_of(i, n)));
        lemma_quiet_stmt(input.body@[i], f.body@[i], st, position_of(i, n));
    }
}

/// A `return` outside closures and async blocks, at any block depth, logs
/// exactly once, with the value it returns unchanged.
pub proof fn law_return_logged_once(value: Expr, r: Expr, st: WalkState)
    requires
        rewrites_expr(Expr::Return(Some(Box::new(value))), r, st),
        st.opaque_depth == 0,
        exit_free_expr(value),
    ensures
        match r {
            Expr::LoggedReturn(Some(y)) => log_free_expr(*y) && strips_to_expr(*y, value),
            _ => false,
        },
{
    if let Expr::LoggedReturn(Some(y)) = r {
        lemma_quiet_expr(value, *y, st);
        lemma_strips_expr(value, *y, st);
    }
}

/// A function that returns nothing gets the synthetic exit exactly when its
/// body does not end in a `return`: a path that falls off the end then logs
/// once too.
pub proof fn law_fall_through_path_logged(
    attr: Seq<AttrArg>,
    input: FunctionDescriptor,
    f: InstrumentedFn,
)
    requires
        log_function_spec(attr, input, Ok(f)),
        input.returns_unit,
    ensures
        f.synthetic_exit == !ends_in_return(input.body@),
{
    lemma_expanded(attr, input, f);
}

/// A `?` outside closures and async blocks becomes a match that logs once, on
/// the failure branch only, around the same fallible expression; inside a
/// closure or an async block it is left as it is.
pub proof fn law_failure_logged_once(fallible: Expr, r: Expr, st: WalkState)
    requires
        rewrites_expr(Expr::Try(Box::new(fallible)), r, st),
        exit_free_expr(fallible),
    ensures
        st.opaque_depth == 0 ==> match r {
            Expr::LoggedTry(y) => log_free_expr(*y) && strips_to_expr(*y, fallible),
            _ => false,
        },
        st.opaque_depth > 0 ==> match r {
            Expr::Try(y) => log_free_expr(*y) && strips_to_expr(*y, fallible),
            _ => false,
        },
{
    match r {
        Expr::LoggedTry(y) => {
            lemma_quiet_expr(fallible, *y, st);
            lemma_strips_expr(fallible, *y, st);
        },
        Expr::Try(y) => {
            lemma_quiet_expr(fallible, *y, st);
            lemma_strips_expr(fallible, *y, st);
        },
        _ => {},
    }
}

/// A statement of the top-level block other than the last, free of `return`,
/// `?` and result-variable statements, logs nothing: the values of its nested
/// blocks and branches are not exits of the function.
pub proof fn law_nested_values_not_logged(
    attr: Seq<AttrArg>,
    input: FunctionDescriptor,
    f: InstrumentedFn,
    i: int,
)
    requires
        log_function_spec(attr, input, Ok(f)),
        0 <= i < input.body.len() - 1,
        exit_free_stmt(input.body@[i]),
    ensures
        log_free_stmt(f.body@[i]),
{
    lemma_expanded(attr, input, f);
    let st = top_state(input);
    let n = input.body.len() as int;
    assert(rewrites_stmt(input.body@[i], f.body@[i], st, position_of(i, n)));
    lemma_quiet_stmt(input.body@[i], f.body@[i], st, position_of(i, n));
}

/// A closure that captures by value is preceded by a copy of the argument
/// snapshot, and nothing inside it (`return`, `?`, tail) logs for the
/// enclosing function; under the wrapped convention, its result-variable
/// statements are the one exception.
pub proof fn law_closure_exits_stay_inside(body: Expr, r: Expr, st: WalkState)
    requires
        rewrites_expr(Expr::Closure(true, Box::new(body)), r, st),
        !st.wrapped_trait || result_var_free_expr(body),
    ensures
        match r {
            Expr::CopyArgs(q) => match *q {
                Expr::Closure(true, b) => log_free_expr(*b) && strips_to_expr(*b, body),
                _ => false,
            },
            _ => false,
        },
{
    if let Expr::CopyArgs(q) = r {
        if let Expr::Closure(_, b) = *q {
            lemma_quiet_expr(body, *b, st.in_opaque());
            lemma_strips_expr(body, *b, st.in_opaque());
        }
    }
}

/// A function with no parameters and no return type, whose body has no
/// `return` and no `?`, logs nothing inside its body and gets the synthetic
/// exit, with an empty argument list; its last statement, `;` or not, is no exit.
pub proof fn law_unit_function_gets_synthetic_exit(
    attr: Seq<AttrArg>,
    input: FunctionDescriptor,
    f: InstrumentedFn,
)
    requires
        log_function_spec(attr, input, Ok(f)),
        input.params.len() == 0,
        input.returns_unit,
        forall|i: int| 0 <= i < input.body.len() ==> exit_free_stmt(#[trigger] input.body@[i]),
    ensures
        f.synthetic_exit,
        f.arg_names.len() == 0,
        forall|i: int| 0 <= i < f.body.len() ==> log_free_stmt(#[trigger] f.body@[i]),
{
    lemma_expanded(attr, input, f);
    let st = top_state(input);
    let n = input.body.len() as int;
    if n > 0 {
        assert(exit_free_stmt(input.body@[n - 1]));
    }
    assert forall|i: int| 0 <= i < f.body.len() implies log_free_stmt(#[trigger] f.body@[i]) by {
        assert(rewrites_stmt(input.body@[i], f.body@[i], st, position_of(i, n)));
        lemma_quiet_stmt(input.body@[i], f.body@[i], st, position_of(i, n));
    }
    assert(captured_names(input.params@) == Seq::<Seq<char>>::empty());
    assert(views(f.arg_names@).len() == f.arg_names.len());
}

} // verus!
