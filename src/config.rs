use vstd::prelude::*;
use vstd::string::*;

verus! {

/// One argument given to the attribute.
#[derive(Clone, Debug)]
pub enum AttrArg {
    /// A string literal, by its contents.
    Str(String),
    /// Anything else: a path, a `key = value` pair, a number, ...
    Other,
}

/// Why the attribute refuses to expand; `position` is the index of the
/// offending attribute argument or function parameter.
#[derive(PartialEq, Eq, Structural, Clone, Copy, Debug)]
pub enum MacroError {
    /// More than one attribute argument.
    TooManyArguments { position: usize },
    /// The attribute argument is not a string literal.
    ExpectedStringLiteral { position: usize },
    /// A parameter is a pattern rather than a plain name.
    UnsupportedParameter { position: usize },
}

impl MacroError {
    /// The diagnostic shown at the offending token.
    pub fn message(&self) -> (r: String)
        ensures
            r@ == message_of(*self),
    {
        match self {
            MacroError::TooManyArguments { .. } => String::from_str("Only one argument is allowed"),
            MacroError::ExpectedStringLiteral { .. } => String::from_str(
                "expected string literal for logging message",
            ),
            MacroError::UnsupportedParameter { .. } => String::from_str(
                "only plain identifiers are supported as parameters",
            ),
        }
    }

    /// The index of the offending argument or parameter.
    pub fn position(&self) -> (r: usize)
        ensures
            r == position_of_error(*self),
    {
        match self {
            MacroError::TooManyArguments { position } => *position,
            MacroError::ExpectedStringLiteral { position } => *position,
            MacroError::UnsupportedParameter { position } => *position,
        }
    }
}

/// The diagnostic text of each error.
pub open spec fn message_of(e: MacroError) -> Seq<char> {
    match e {
        MacroError::TooManyArguments { .. } => "Only one argument is allowed"@,
        MacroError::ExpectedStringLiteral { .. } => "expected string literal for logging message"@,
        MacroError::UnsupportedParameter { .. } => "only plain identifiers are supported as parameters"@,
    }
}

/// The index that an error points at.
pub open spec fn position_of_error(e: MacroError) -> usize {
    match e {
        MacroError::TooManyArguments { position } => position,
        MacroError::ExpectedStringLiteral { position } => position,
        MacroError::UnsupportedParameter { position } => position,
    }
}

/// The one directive the attribute knows: log `"ignored"` in place of the result.
pub open spec fn ignore_return_directive() -> Seq<char> {
    seq!['i', 'g', 'n', 'o', 'r', 'e', '-', 'r', 'e', 't', 'u', 'r', 'n']
}

/// What the attribute's arguments configure: whether the result is left out
/// of the log. Any other string literal is accepted and changes nothing.
pub open spec fn config_spec(args: Seq<AttrArg>) -> Result<bool, MacroError> {
    if args.len() > 1 {
        Err(MacroError::TooManyArguments { position: 1 })
    } else if args.len() == 1 {
        match args[0] {
            AttrArg::Str(s) => Ok(s@ == ignore_return_directive()),
            AttrArg::Other => Err(MacroError::ExpectedStringLiteral { position: 0 }),
        }
    } else {
        Ok(false)
    }
}

/// Whether `s` reads as the characters of `lit`.
pub fn text_is(s: &String, lit: &str) -> (r: bool)
    ensures
        r == (s@ == lit@),
{
    let a = s.as_str();
    let n = a.unicode_len();
    let m = lit.unicode_len();
    if n != m {
        return false;
    }
    let mut i: usize = 0;
    while i < n
        invariant
            n == a@.len(),
            m == lit@.len(),
            n == m,
            a@ == s@,
            i <= n,
            forall|j: int| 0 <= j < i ==> a@[j] == lit@[j],
        decreases n - i,
    {
        if a.get_char(i) != lit.get_char(i) {
            return false;
        }
        i = i + 1;
    }
    assert(a@ =~= lit@);
    true
}

/// Reads the attribute's arguments: `Ok(true)` when the result is to be left
/// out of the log, `Ok(false)` when it is logged, an error on misuse.
pub fn parse_config(args: &Vec<AttrArg>) -> (r: Result<bool, MacroError>)
    ensures
        r == config_spec(args@),
{
    if args.len() > 1 {
        return Err(MacroError::TooManyArguments { position: 1 });
    }
    if args.len() == 0 {
        return Ok(false);
    }
    match &args[0] {
        AttrArg::Str(s) => {
            proof {
                reveal_strlit("ignore-return");
                assert("ignore-return"@ =~= ignore_return_directive());
            }
            Ok(text_is(s, "ignore-return"))
        },
        AttrArg::Other => Err(MacroError::ExpectedStringLiteral { position: 0 }),
    }
}

} // verus!
