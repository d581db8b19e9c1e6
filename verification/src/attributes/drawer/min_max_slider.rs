//! `min_max_slider`: a Vector2 or Vector2i edited as a range between two
//! bounds that expressions give.

use vstd::prelude::*;
use vstd::string::*;

use crate::annotation::{args_of, split_args};
use crate::attributes::ParseContext;
use crate::expression::{answers_compile, compiler_ready};
use crate::expressions::number_expression::{number_expression_of, NumberExpression};
use crate::text::string_of;
use crate::variant_type::VariantType;

verus! {

pub const KEY: &'static str = "min_max_slider";

/// The bounds of the range.
pub struct MinMaxSlider {
    pub min_value: NumberExpression,
    pub max_value: NumberExpression,
}

impl View for MinMaxSlider {
    type V = (Seq<char>, Seq<char>);

    open spec fn view(&self) -> (Seq<char>, Seq<char>) {
        (self.min_value@, self.max_value@)
    }
}

/// The property types that a range applies to.
pub open spec fn is_range_type(t: VariantType) -> bool {
    t == VariantType::Vector2 || t == VariantType::Vector2i
}

/// What `min_max_slider` reads from `raw_args` on a property of type `t`: two
/// arguments, each a numeric expression, the minimum read (and compiled)
/// before the maximum.
pub open spec fn min_max_slider_of(
    raw_args: Seq<char>,
    t: VariantType,
    errors: spec_fn(Seq<char>) -> Option<Seq<char>>,
) -> Result<(Seq<char>, Seq<char>), Seq<char>> {
    if !is_range_type(t) {
        Err("can be used only on Vector2 and Vector2i properties"@)
    } else {
        let args = args_of(raw_args);
        if args.len() != 2 {
            Err("expected a minimum and a maximum"@)
        } else {
            match number_expression_of(args[0], t, errors) {
                Err(m) => Err(m),
                Ok(min) => match number_expression_of(args[1], t, errors) {
                    Err(m) => Err(m),
                    Ok(max) => Ok((min, max)),
                },
            }
        }
    }
}

impl MinMaxSlider {
    /// Reads the two bounds for a property of the context's type; `compile`
    /// answers for a source the error the engine's compiler reports, or none.
    pub fn parse<F: Fn(&str) -> Option<String>>(raw_args: &str, context: &ParseContext, compile: &F) -> (r:
        Result<Self, String>)
        requires
            compiler_ready(*compile),
        ensures
            forall|errors: spec_fn(Seq<char>) -> Option<Seq<char>>|
                #[trigger] answers_compile(*compile, errors) ==> crate::text::result_view(r)
                    == min_max_slider_of(raw_args@, context.variant_type, errors),
    {
        if context.variant_type != VariantType::Vector2 && context.variant_type
            != VariantType::Vector2i {
            return Err(string_of("can be used only on Vector2 and Vector2i properties"));
        }
        let args = split_args(raw_args);
        assert(args@.len() == args_of(raw_args@).len());
        if args.len() != 2 {
            return Err(string_of("expected a minimum and a maximum"));
        }
        assert(args@[0]@ == args_of(raw_args@)[0]);
        assert(args@[1]@ == args_of(raw_args@)[1]);
        let min_value = match NumberExpression::parse(args[0].as_str(), context, compile) {
            Ok(e) => e,
            Err(m) => {
                return Err(m);
            },
        };
        let max_value = match NumberExpression::parse(args[1].as_str(), context, compile) {
            Ok(e) => e,
            Err(m) => {
                return Err(m);
            },
        };
        Ok(MinMaxSlider { min_value, max_value })
    }
}

} // verus!
