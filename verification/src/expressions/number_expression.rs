//! An expression that gives a number.

use vstd::prelude::*;
use vstd::string::*;

use crate::attributes::ParseContext;
use crate::expression::{answers_compile, compiled_of, compiler_ready, Expression};
use crate::text::{string_of, trim, trim_str};
use crate::variant_type::VariantType;

verus! {

/// The property types that a numeric bound applies to.
pub open spec fn is_number_type(t: VariantType) -> bool {
    ||| t == VariantType::Int
    ||| t == VariantType::Float
    ||| t == VariantType::Vector2
    ||| t == VariantType::Vector2i
    ||| t == VariantType::Vector3
    ||| t == VariantType::Vector3i
    ||| t == VariantType::Vector4
    ||| t == VariantType::Vector4i
}

/// Whether a numeric bound applies to properties of type `t`.
pub fn is_number_variant_type(t: VariantType) -> (r: bool)
    ensures
        r == is_number_type(t),
{
    match t {
        VariantType::Int | VariantType::Float | VariantType::Vector2 | VariantType::Vector2i
        | VariantType::Vector3 | VariantType::Vector3i | VariantType::Vector4
        | VariantType::Vector4i => true,
        _ => false,
    }
}

/// An expression that gives a number.
pub struct NumberExpression {
    pub expression: Expression,
}

impl View for NumberExpression {
    type V = Seq<char>;

    open spec fn view(&self) -> Seq<char> {
        self.expression@
    }
}

/// The expression text that `raw_args` gives on a property of type `t`: the
/// property must hold numbers, and the trimmed arguments must not be empty
/// and must compile (`errors` tells what the compiler reports for a source).
pub open spec fn number_expression_of(
    raw_args: Seq<char>,
    t: VariantType,
    errors: spec_fn(Seq<char>) -> Option<Seq<char>>,
) -> Result<Seq<char>, Seq<char>> {
    if !is_number_type(t) {
        Err("can be used only on int, float, Vector2/3/4 and Vector2i/3i/4i properties"@)
    } else if trim(raw_args).len() == 0 {
        Err("expected a numeric expression"@)
    } else {
        compiled_of(trim(raw_args), errors)
    }
}

impl NumberExpression {
    /// Reads a numeric expression for a property of the context's type;
    /// `compile` answers for a source the error the engine's compiler
    /// reports, or none.
    pub fn parse<F: Fn(&str) -> Option<String>>(raw_args: &str, context: &ParseContext, compile: &F) -> (r:
        Result<Self, String>)
        requires
            compiler_ready(*compile),
        ensures
            forall|errors: spec_fn(Seq<char>) -> Option<Seq<char>>|
                #[trigger] answers_compile(*compile, errors) ==> crate::text::result_view(r)
                    == number_expression_of(raw_args@, context.variant_type, errors),
    {
        if !is_number_variant_type(context.variant_type) {
            return Err(
                string_of(
                    "can be used only on int, float, Vector2/3/4 and Vector2i/3i/4i properties",
                ),
            );
        }
        let source = trim_str(raw_args);
        if source.unicode_len() == 0 {
            return Err(string_of("expected a numeric expression"));
        }
        match Expression::compile(source, compile) {
            Ok(expression) => Ok(NumberExpression { expression }),
            Err(e) => Err(e),
        }
    }
}

} // verus!
