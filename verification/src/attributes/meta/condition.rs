//! A boolean expression that a meta attribute evaluates on the edited object.

use vstd::prelude::*;
use vstd::string::*;

use crate::attributes::ParseContext;
use crate::expression::{answers_compile, compiled_of, compiler_ready, Expression};
use crate::text::{string_of, trim, trim_str};

verus! {

/// A boolean expression over the edited object.
pub struct Condition {
    pub expression: Expression,
}

impl View for Condition {
    type V = Seq<char>;

    open spec fn view(&self) -> Seq<char> {
        self.expression@
    }
}

/// The expression text that `raw_args` gives: the arguments trimmed, which
/// must leave some text that the engine's compiler accepts (`errors` tells
/// what it reports for a source).
pub open spec fn condition_of(
    raw_args: Seq<char>,
    errors: spec_fn(Seq<char>) -> Option<Seq<char>>,
) -> Result<Seq<char>, Seq<char>> {
    let source = trim(raw_args);
    if source.len() == 0 {
        Err("expected a boolean expression"@)
    } else {
        compiled_of(source, errors)
    }
}

/// The view of a parse result whose value is a condition.
pub open spec fn condition_result_view<T: View<V = Seq<char>>>(r: Result<T, String>) -> Result<
    Seq<char>,
    Seq<char>,
> {
    match r {
        Ok(c) => Ok(c@),
        Err(m) => Err(m@),
    }
}

impl Condition {
    /// Reads a boolean expression; `compile` answers for a source the error
    /// the engine's compiler reports, or none.
    pub fn parse<F: Fn(&str) -> Option<String>>(raw_args: &str, _context: &ParseContext, compile: &F) -> (r:
        Result<Self, String>)
        requires
            compiler_ready(*compile),
        ensures
            forall|errors: spec_fn(Seq<char>) -> Option<Seq<char>>|
                #[trigger] answers_compile(*compile, errors) ==> condition_result_view(r)
                    == condition_of(raw_args@, errors),
    {
        let source = trim_str(raw_args);
        if source.unicode_len() == 0 {
            return Err(string_of("expected a boolean expression"));
        }
        match Expression::compile(source, compile) {
            Ok(expression) => Ok(Condition { expression }),
            Err(e) => Err(e),
        }
    }
}

} // verus!
