//! An expression that gives the options of a dropdown: an Array or a
//! Dictionary.

use vstd::prelude::*;
use vstd::string::*;

use crate::attributes::ParseContext;
use crate::expression::{answers_compile, compiled_of, compiler_ready, Expression};
use crate::text::{concat3, string_of, trim, trim_str};
use crate::variant_type::VariantType;

verus! {

/// An expression that gives an Array or a Dictionary of options.
pub struct OptionsExpression {
    pub expression: Expression,
}

impl View for OptionsExpression {
    type V = Seq<char>;

    open spec fn view(&self) -> Seq<char> {
        self.expression@
    }
}

/// The expression text that `raw_args` gives: the trimmed arguments, which
/// must not be empty and must compile (`errors` tells what the compiler
/// reports for a source).
pub open spec fn options_expression_of(
    raw_args: Seq<char>,
    errors: spec_fn(Seq<char>) -> Option<Seq<char>>,
) -> Result<Seq<char>, Seq<char>> {
    if trim(raw_args).len() == 0 {
        Err("expected an Array or a Dictionary expression"@)
    } else {
        compiled_of(trim(raw_args), errors)
    }
}

/// What the value that gives the options says, given its type, the
/// engine's name for that type and how many options it holds: it must be an
/// Array or a Dictionary, and not empty.
pub open spec fn options_check_of(
    expression_text: Seq<char>,
    t: VariantType,
    kind_name: Seq<char>,
    count: nat,
) -> Result<(), Seq<char>> {
    if t != VariantType::Array && t != VariantType::Dictionary {
        Err("'"@ + expression_text + "' is "@ + kind_name + ", not an Array or a Dictionary"@)
    } else if count == 0 {
        Err("'"@ + expression_text + "' is empty"@)
    } else {
        Ok(())
    }
}

impl OptionsExpression {
    /// Whether the value the expression gave, of type `t` with `count`
    /// elements (or entries), can give the options; if not, the message.
    pub fn check_value(&self, t: VariantType, kind_name: &str, count: usize) -> (r: Result<(), String>)
        ensures
            match r {
                Ok(()) => options_check_of(self@, t, kind_name@, count as nat) == Ok::<(), Seq<char>>(()),
                Err(m) => options_check_of(self@, t, kind_name@, count as nat) == Err::<(), Seq<char>>(m@),
            },
    {
        let text = self.expression.get_text();
        if t != VariantType::Array && t != VariantType::Dictionary {
            let mut m = concat3("'", text, "' is ");
            m.append(kind_name);
            m.append(", not an Array or a Dictionary");
            return Err(m);
        }
        if count == 0 {
            return Err(concat3("'", text, "' is empty"));
        }
        Ok(())
    }

    /// Reads the expression that gives the options; `compile` answers for a
    /// source the error the engine's compiler reports, or none.
    pub fn parse<F: Fn(&str) -> Option<String>>(raw_args: &str, _context: &ParseContext, compile: &F) -> (r:
        Result<Self, String>)
        requires
            compiler_ready(*compile),
        ensures
            forall|errors: spec_fn(Seq<char>) -> Option<Seq<char>>|
                #[trigger] answers_compile(*compile, errors) ==> crate::text::result_view(r)
                    == options_expression_of(raw_args@, errors),
    {
        let source = trim_str(raw_args);
        if source.unicode_len() == 0 {
            return Err(string_of("expected an Array or a Dictionary expression"));
        }
        match Expression::compile(source, compile) {
            Ok(expression) => Ok(OptionsExpression { expression }),
            Err(e) => Err(e),
        }
    }
}

} // verus!
