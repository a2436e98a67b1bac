use vstd::prelude::*;
use vstd::string::*;
use crate::config::MacroError;

verus! {

/// A formal parameter of the instrumented function.
#[derive(Clone, Debug)]
pub enum Param {
    /// `self`, `&self`, `&mut self`: not logged.
    Receiver,
    /// A typed parameter bound to a plain name.
    Ident(String),
    /// A typed parameter bound to a destructuring pattern.
    Pattern,
}

/// The names whose values are logged, in order: every plain-named parameter.
pub open spec fn captured_names(p: Seq<Param>) -> Seq<Seq<char>>
    decreases p.len(),
{
    if p.len() == 0 {
        seq![]
    } else {
        let rest = captured_names(p.drop_last());
        match p.last() {
            Param::Ident(n) => rest.push(n@),
            _ => rest,
        }
    }
}

/// Holds when parameter `i` is the first destructuring pattern of `p`.
pub open spec fn first_pattern(p: Seq<Param>, i: int) -> bool {
    &&& 0 <= i < p.len()
    &&& p[i] is Pattern
    &&& forall|j: int| 0 <= j < i ==> !(#[trigger] p[j] is Pattern)
}

/// The views of a list of strings.
pub open spec fn views(v: Seq<String>) -> Seq<Seq<char>> {
    v.map_values(|s: String| s@)
}

/// The names of the parameters whose values the function logs at every exit.
/// A parameter bound to a pattern has no name to log under: it is refused.
pub fn generate_args_text(params: &Vec<Param>) -> (r: Result<Vec<String>, MacroError>)
    ensures
        match r {
            Ok(names) => (forall|j: int| 0 <= j < params.len() ==> !(#[trigger] params@[j] is Pattern))
                && views(names@) == captured_names(params@),
            Err(e) => exists|i: int|
                first_pattern(params@, i) && e == (MacroError::UnsupportedParameter {
                    position: i as usize,
                }),
        },
{
    let mut names: Vec<String> = Vec::new();
    let mut k: usize = 0;
    while k < params.len()
        invariant
            k <= params.len(),
            forall|j: int| 0 <= j < k ==> !(#[trigger] params@[j] is Pattern),
            views(names@) == captured_names(params@.subrange(0, k as int)),
        decreases params.len() - k,
    {
        let ghost pre = params@.subrange(0, k as int);
        let ghost next = params@.subrange(0, k as int + 1);
        assert(next.drop_last() =~= pre);
        match &params[k] {
            Param::Receiver => {},
            Param::Ident(n) => {
                let c = n.clone();
                let ghost before = names@;
                names.push(c);
                assert(views(names@) =~= views(before).push(n@));
            },
            Param::Pattern => {
                assert(first_pattern(params@, k as int));
                return Err(MacroError::UnsupportedParameter { position: k });
            },
        }
        k = k + 1;
    }
    assert(params@.subrange(0, params.len() as int) =~= params@);
    Ok(names)
}

/// The text logged for one argument: `"<name>: <debug-printed value>"`.
pub fn arg_text(name: &String, value: &String) -> (r: String)
    ensures
        r@ == name@ + ": "@ + value@,
{
    let a = name.clone();
    let b = a.concat(": ");
    b.concat(value.as_str())
}

/// The record emitted at one exit of an instrumented function.
#[derive(Clone, Debug)]
pub struct LogRecord {
    pub fn_name: String,
    pub fn_args: Vec<String>,
    pub fn_return: String,
}

/// What the record holds in place of a result that is not logged.
pub open spec fn ignored_text() -> Seq<char> {
    seq!['"', 'i', 'g', 'n', 'o', 'r', 'e', 'd', '"']
}

/// What the record holds as the result of a function that returns nothing.
pub open spec fn nothing_text() -> Seq<char> {
    seq!['"', 'n', 'o', 't', 'h', 'i', 'n', 'g', '"']
}

/// The debug-printed result of a function that falls off its end.
pub fn nothing_result() -> (r: String)
    ensures
        r@ == nothing_text(),
{
    proof {
        reveal_strlit("\"nothing\"");
        assert("\"nothing\""@ =~= nothing_text());
    }
    String::from_str("\"nothing\"")
}

/// Builds the record of one exit from the entry-time argument texts and the
/// debug-printed result; with `ignore_return` the result is not shown.
pub fn generate_log(fn_name: &String, args: &Vec<String>, result: &String, ignore_return: bool) -> (r:
    LogRecord)
    ensures
        r.fn_name@ == fn_name@,
        views(r.fn_args@) == views(args@),
        r.fn_return@ == (if ignore_return {
            ignored_text()
        } else {
            result@
        }),
{
    let mut copied: Vec<String> = Vec::new();
    let mut k: usize = 0;
    while k < args.len()
        invariant
            k <= args.len(),
            views(copied@) == views(args@.subrange(0, k as int)),
        decreases args.len() - k,
    {
        let ghost before = copied@;
        copied.push(args[k].clone());
        assert(views(copied@) =~= views(before).push(args@[k as int]@));
        assert(args@.subrange(0, k as int + 1) =~= args@.subrange(0, k as int).push(args@[k as int]));
        k = k + 1;
    }
    assert(args@.subrange(0, args.len() as int) =~= args@);
    let fn_return = if ignore_return {
        proof {
            reveal_strlit("\"ignored\"");
            assert("\"ignored\""@ =~= ignored_text());
        }
        String::from_str("\"ignored\"")
    } else {
        result.clone()
    };
    LogRecord { fn_name: fn_name.clone(), fn_args: copied, fn_return }
}

} // verus!
