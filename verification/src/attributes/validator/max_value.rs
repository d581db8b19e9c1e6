//! `max_value`: an upper bound that the property's value is clamped to.

use vstd::prelude::*;

use crate::attributes::ParseContext;
use crate::expression::{answers_compile, compiler_ready};
use crate::expressions::number_expression::{number_expression_of, NumberExpression};

verus! {

pub const KEY: &'static str = "max_value";

/// The largest value the property may hold, as an expression.
pub struct MaxValue {
    pub max_value: NumberExpression,
}

impl View for MaxValue {
    type V = Seq<char>;

    open spec fn view(&self) -> Seq<char> {
        self.max_value@
    }
}

impl MaxValue {
    /// Reads the bound for a property of the context's type.
    pub fn parse<F: Fn(&str) -> Option<String>>(raw_args: &str, context: &ParseContext, compile: &F) -> (r:
        Result<Self, String>)
        requires
            compiler_ready(*compile),
        ensures
            forall|errors: spec_fn(Seq<char>) -> Option<Seq<char>>|
                #[trigger] answers_compile(*compile, errors) ==> crate::text::result_view(r)
                    == number_expression_of(raw_args@, context.variant_type, errors),
    {
        match NumberExpression::parse(raw_args, context, compile) {
            Ok(max_value) => Ok(MaxValue { max_value }),
            Err(m) => Err(m),
        }
    }
}

} // verus!
