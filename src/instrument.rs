use vstd::prelude::*;
use crate::classify::WalkState;
use crate::config::{config_spec, parse_config, text_is, AttrArg, MacroError};
use crate::record::{
    captured_names, first_pattern, generate_args_text, generate_log, nothing_result, views,
    LogRecord, Param,
};
use crate::syntax::{is_source_block, Expr, Stmt};
use crate::walker::{fold_stmts, rewrites_block};

verus! {

/// A generic parameter of the function.
#[derive(Clone, Debug)]
pub enum GenericParam {
    /// A lifetime, by its name without the `'`.
    Lifetime(String),
    /// A type or const parameter.
    Other,
}

/// The function handed to the attribute.
#[derive(Debug)]
pub struct FunctionDescriptor {
    pub name: String,
    pub generics: Vec<GenericParam>,
    pub params: Vec<Param>,
    /// Whether the function is declared without a return type (or with `-> ()`).
    pub returns_unit: bool,
    pub body: Vec<Stmt>,
}

/// The function as the attribute gives it back. At entry the body inserts the
/// `fn_name` tag into the diagnostic context and records `arg_names` with their
/// values; each instrumented exit logs a record and removes the tag. When
/// `synthetic_exit` holds, `let __res = "nothing"; <log>; return;` follows the
/// body (its last statement then taking a `;`).
#[derive(Debug)]
pub struct InstrumentedFn {
    pub name: String,
    pub arg_names: Vec<String>,
    pub ignore_return: bool,
    pub body: Vec<Stmt>,
    pub synthetic_exit: bool,
}

/// The name of the lifetime that marks a body of the async-to-trait-object convention.
pub open spec fn wrapped_lifetime() -> Seq<char> {
    seq!['a', 's', 'y', 'n', 'c', '_', 't', 'r', 'a', 'i', 't']
}

/// Holds when a generic parameter is the convention's lifetime.
pub open spec fn is_wrapped_marker(g: GenericParam) -> bool {
    match g {
        GenericParam::Lifetime(n) => n@ == wrapped_lifetime(),
        GenericParam::Other => false,
    }
}

/// Holds when the function declares the convention's lifetime.
pub open spec fn wrapped_spec(g: Seq<GenericParam>) -> bool {
    exists|i: int| 0 <= i < g.len() && is_wrapped_marker(#[trigger] g[i])
}

/// Whether the body was produced by the async-to-trait-object convention,
/// told by its generic parameters.
pub fn is_wrapped_trait(generics: &Vec<GenericParam>) -> (r: bool)
    ensures
        r == wrapped_spec(generics@),
{
    let mut k: usize = 0;
    while k < generics.len()
        invariant
            k <= generics.len(),
            forall|j: int| 0 <= j < k ==> !is_wrapped_marker(#[trigger] generics@[j]),
        decreases generics.len() - k,
    {
        proof {
            reveal_strlit("async_trait");
            assert("async_trait"@ =~= wrapped_lifetime());
        }
        if let GenericParam::Lifetime(n) = &generics[k] {
            if text_is(n, "async_trait") {
                assert(is_wrapped_marker(generics@[k as int]));
                return true;
            }
        }
        k = k + 1;
    }
    false
}

/// The state in which a function's own top-level block is walked.
pub open spec fn top_state(input: FunctionDescriptor) -> WalkState {
    WalkState {
        block_depth: 0,
        opaque_depth: 0,
        wrapped_trait: wrapped_spec(input.generics@),
        returns_unit: input.returns_unit,
    }
}

/// Holds when the last statement of a block is a `return`, with or without `;`.
pub open spec fn ends_in_return(s: Seq<Stmt>) -> bool {
    s.len() > 0 && match s.last() {
        Stmt::Expr(e) => e is Return,
        Stmt::Semi(e) => e is Return,
        Stmt::Let(_, _) => false,
    }
}

/// Holds when control can reach the end of the body without leaving through
/// an exit: the function returns nothing and its body does not end in a
/// `return`. Such a body gets the synthetic exit, so that every path logs once.
pub open spec fn falls_off_end(input: FunctionDescriptor) -> bool {
    input.returns_unit && !ends_in_return(input.body@)
}

/// Whether the last statement of `body` is a `return`.
pub fn last_is_return(body: &Vec<Stmt>) -> (r: bool)
    ensures
        r == ends_in_return(body@),
{
    if body.len() == 0 {
        return false;
    }
    match &body[body.len() - 1] {
        Stmt::Expr(Expr::Return(_)) => true,
        Stmt::Semi(Expr::Return(_)) => true,
        _ => false,
    }
}

/// What the attribute makes of `input` under the arguments `attr`:
/// a configuration error first, then a refused parameter, else the
/// instrumented function.
pub open spec fn log_function_spec(
    attr: Seq<AttrArg>,
    input: FunctionDescriptor,
    r: Result<InstrumentedFn, MacroError>,
) -> bool {
    match config_spec(attr) {
        Err(e) => r == Err::<InstrumentedFn, MacroError>(e),
        Ok(ignore) => if exists|i: int| first_pattern(input.params@, i) {
            exists|i: int|
                first_pattern(input.params@, i) && r == Err::<InstrumentedFn, MacroError>(
                    MacroError::UnsupportedParameter { position: i as usize },
                )
        } else {
            match r {
                Ok(f) => {
                    &&& f.name@ == input.name@
                    &&& views(f.arg_names@) == captured_names(input.params@)
                    &&& f.ignore_return == ignore
                    &&& rewrites_block(input.body@, f.body@, top_state(input))
                    &&& f.synthetic_exit == falls_off_end(input)
                },
                Err(_) => false,
            }
        },
    }
}

/// Instruments a function: checks the attribute's arguments, records which
/// arguments are logged, and rewrites the body so that every exit of the
/// function logs its record exactly once.
pub fn log_function(attr: &Vec<AttrArg>, input: FunctionDescriptor) -> (r: Result<
    InstrumentedFn,
    MacroError,
>)
    requires
        is_source_block(input.body@),
    ensures
        log_function_spec(attr@, input, r),
{
    let ignore_return = match parse_config(attr) {
        Ok(b) => b,
        Err(e) => return Err(e),
    };
    let wrapped = is_wrapped_trait(&input.generics);
    let arg_names = match generate_args_text(&input.params) {
        Ok(names) => names,
        Err(e) => {
            return Err(e);
        },
    };
    assert(!exists|i: int| first_pattern(input.params@, i));
    let ghost spec_input = input;
    let synthetic_exit = input.returns_unit && !last_is_return(&input.body);
    let FunctionDescriptor { name, generics: _, params: _, returns_unit, body } = input;
    let st = WalkState::new(wrapped, returns_unit);
    let body = fold_stmts(body, st);
    assert(st == top_state(spec_input));
    Ok(InstrumentedFn { name, arg_names, ignore_return, body, synthetic_exit })
}

impl InstrumentedFn {
    /// The record logged at an exit whose debug-printed result is `result`,
    /// given the argument texts taken at entry.
    pub fn exit_record(&self, args: &Vec<String>, result: &String) -> (r: LogRecord)
        ensures
            r.fn_name@ == self.name@,
            views(r.fn_args@) == views(args@),
            r.fn_return@ == (if self.ignore_return {
                crate::record::ignored_text()
            } else {
                result@
            }),
    {
        generate_log(&self.name, args, result, self.ignore_return)
    }

    /// The record logged by the exit appended after a body that returns nothing.
    pub fn synthetic_record(&self, args: &Vec<String>) -> (r: LogRecord)
        ensures
            r.fn_name@ == self.name@,
            views(r.fn_args@) == views(args@),
            r.fn_return@ == (if self.ignore_return {
                crate::record::ignored_text()
            } else {
                crate::record::nothing_text()
            }),
    {
        let nothing = nothing_result();
        generate_log(&self.name, args, &nothing, self.ignore_return)
    }
}

} // verus!
