//! `min_value`: a lower bound that the property's value is clamped to.

use vstd::prelude::*;

use crate::attributes::ParseContext;
use crate::expression::{answers_compile, compiler_ready};
use crate::expressions::number_expression::{number_expression_of, NumberExpression};

verus! {

pub const KEY: &'static str = "min_value";

/// The smallest value the property may hold, as an expression.
pub struct MinValue {
    pub min_value: NumberExpression,
}

impl View for MinValue {
    type V = Seq<char>;

    open spec fn view(&self) -> Seq<char> {
        self.min_value@
    }
}

impl MinValue {
    /// Reads the bound for a property of the context's type.
    pub fn parse<F: Fn(&str) -> Option<String>>(raw_args: &str, context: &ParseContext, compile: &F) -> (r:
        Result<Self, String>)
        requires
            compiler_ready(*compile),
        ensures
            forall|errors: spec_fn(Seq<char>) -> Option<Seq<char>>|
                #[trigger] answers_compile(*compile, errors) ==> crate::text::result_view(r)
                    == number_expression_of(raw_args@, context.variant_type, errors),
    {
        match NumberExpression::parse(raw_args, context, compile) {
            Ok(min_value) => Ok(MinValue { min_value }),
            Err(m) => Err(m),
        }
    }
}

} // verus!
