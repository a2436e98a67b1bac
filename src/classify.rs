use vstd::prelude::*;
use crate::config::text_is;
use crate::syntax::Expr;

verus! {

/// Where the walk stands while it rewrites one function body.
#[derive(Clone, Copy)]
pub struct WalkState {
    /// Blocks entered beyond the function's own top-level block (saturates).
    pub block_depth: u32,
    /// Closures and async blocks entered (saturates).
    pub opaque_depth: u32,
    /// Whether the body follows the async-to-trait-object convention.
    pub wrapped_trait: bool,
    /// Whether the function is declared without a return type, so that its
    /// tail yields no value.
    pub returns_unit: bool,
}

/// One more level, held at the top rather than wrapping round.
pub open spec fn deeper(d: u32) -> u32 {
    if d < u32::MAX {
        (d + 1) as u32
    } else {
        d
    }
}

impl WalkState {
    /// The state at the start of a function's top-level block.
    pub fn new(wrapped_trait: bool, returns_unit: bool) -> (r: WalkState)
        ensures
            r.block_depth == 0,
            r.opaque_depth == 0,
            r.wrapped_trait == wrapped_trait,
            r.returns_unit == returns_unit,
    {
        WalkState { block_depth: 0, opaque_depth: 0, wrapped_trait, returns_unit }
    }

    /// The state inside a nested block.
    pub open spec fn in_block(self) -> WalkState {
        WalkState { block_depth: deeper(self.block_depth), ..self }
    }

    /// The state inside a closure or an async block.
    pub open spec fn in_opaque(self) -> WalkState {
        WalkState { opaque_depth: deeper(self.opaque_depth), ..self }
    }

    /// The state for the inside of a nested block.
    pub fn enter_block(self) -> (r: WalkState)
        ensures
            r == self.in_block(),
    {
        if self.block_depth < u32::MAX {
            WalkState { block_depth: self.block_depth + 1, ..self }
        } else {
            self
        }
    }

    /// The state for the inside of a closure or an async block.
    pub fn enter_opaque(self) -> (r: WalkState)
        ensures
            r == self.in_opaque(),
    {
        if self.opaque_depth < u32::MAX {
            WalkState { opaque_depth: self.opaque_depth + 1, ..self }
        } else {
            self
        }
    }
}

/// How control leaves the function at an exit point.
#[derive(PartialEq, Eq, Structural, Clone, Copy, Debug)]
pub enum ExitKind {
    /// An explicit `return`.
    Return,
    /// The failure branch of a `?` outside closures and async blocks.
    Propagate,
    /// The tail expression of the top-level block of a function that returns a value.
    Tail,
    /// The convention's result variable, ending the wrapped body.
    ResultVar,
}

/// Where an expression stands in its block.
#[derive(PartialEq, Eq, Structural, Clone, Copy, Debug)]
pub enum Position {
    /// Anywhere but as the last statement without a `;`.
    Operand,
    /// The last statement of a block, without a `;`.
    Tail,
}

/// What the walk does with a node.
#[derive(PartialEq, Eq, Structural, Clone, Copy, Debug)]
pub enum Class {
    /// The node is an exit point of the function: instrument it.
    FunctionExit(ExitKind),
    /// The node yields the value of a nested block: leave it, recurse.
    NestedValue,
    /// The node opens a closure or an async block.
    OpaqueScopeEnter,
    /// Anything else: recurse without instrumenting.
    Recurse,
}

/// The name of the result variable of the async-to-trait-object convention.
pub open spec fn result_var_name() -> Seq<char> {
    seq!['_', '_', 'r', 'e', 't']
}

/// Holds for the bare path `__ret`.
pub open spec fn is_result_var(e: Expr) -> bool {
    match e {
        Expr::Path(p) => p.len() == 1 && p@[0]@ == result_var_name(),
        _ => false,
    }
}

/// Holds for a call of a path that starts with `Box` and ends with `pin`:
/// how the convention boxes and pins the future it builds.
pub open spec fn is_box_pin_call(e: Expr) -> bool {
    match e {
        Expr::Call(f, _) => match *f {
            Expr::Path(p) => p.len() > 0 && p@[0]@ == seq!['B', 'o', 'x'] && p@[p.len()
                - 1]@ == seq!['p', 'i', 'n'],
            _ => false,
        },
        _ => false,
    }
}

/// The decision table of the walk, in order of precedence.
pub open spec fn classify_spec(e: Expr, pos: Position, st: WalkState) -> Class {
    if pos == Position::Tail && st.wrapped_trait && is_result_var(e) {
        Class::FunctionExit(ExitKind::ResultVar)
    } else if e is Return {
        if st.opaque_depth == 0 {
            Class::FunctionExit(ExitKind::Return)
        } else {
            Class::Recurse
        }
    } else if pos == Position::Tail {
        if st.block_depth != 0 {
            Class::NestedValue
        } else if st.wrapped_trait && is_box_pin_call(e) {
            Class::Recurse
        } else if st.returns_unit {
            Class::Recurse
        } else {
            Class::FunctionExit(ExitKind::Tail)
        }
    } else if e is Try {
        if st.opaque_depth == 0 {
            Class::FunctionExit(ExitKind::Propagate)
        } else {
            Class::Recurse
        }
    } else if e is Closure || e is Async {
        Class::OpaqueScopeEnter
    } else {
        Class::Recurse
    }
}

/// Decides what kind of node `e` is, standing at `pos`, in state `st`.
pub fn classify(e: &Expr, pos: Position, st: &WalkState) -> (r: Class)
    ensures
        r == classify_spec(*e, pos, *st),
{
    proof {
        reveal_strlit("__ret");
        reveal_strlit("Box");
        reveal_strlit("pin");
        assert("__ret"@ =~= result_var_name());
        assert("Box"@ =~= seq!['B', 'o', 'x']);
        assert("pin"@ =~= seq!['p', 'i', 'n']);
    }
    if pos == Position::Tail && st.wrapped_trait {
        if let Expr::Path(p) = e {
            if p.len() == 1 && text_is(&p[0], "__ret") {
                return Class::FunctionExit(ExitKind::ResultVar);
            }
        }
    }
    if let Expr::Return(_) = e {
        if st.opaque_depth == 0 {
            return Class::FunctionExit(ExitKind::Return);
        } else {
            return Class::Recurse;
        }
    }
    if pos == Position::Tail {
        if st.block_depth != 0 {
            return Class::NestedValue;
        }
        if st.wrapped_trait {
            if let Expr::Call(f, _) = e {
                if let Expr::Path(p) = &**f {
                    if p.len() > 0 && text_is(&p[0], "Box") && text_is(&p[p.len() - 1], "pin") {
                        return Class::Recurse;
                    }
                }
            }
        }
        if st.returns_unit {
            return Class::Recurse;
        }
        return Class::FunctionExit(ExitKind::Tail);
    }
    match e {
        Expr::Try(_) => if st.opaque_depth == 0 {
            Class::FunctionExit(ExitKind::Propagate)
        } else {
            Class::Recurse
        },
        Expr::Closure(_, _) => Class::OpaqueScopeEnter,
        Expr::Async(_, _) => Class::OpaqueScopeEnter,
        _ => Class::Recurse,
    }
}

} // verus!
