//! Attributes that check or correct the property's value.

pub mod max_value;
pub mod min_value;
pub mod require;

use vstd::prelude::*;
use vstd::string::*;

use crate::attributes::ParseContext;
use crate::expression::{answers_compile, compiler_ready};
use crate::attributes::meta::condition::condition_of;
use crate::expressions::number_expression::number_expression_of;
use crate::text::{str_eq, string_of};
use crate::variant_type::VariantType;
use max_value::MaxValue;
use min_value::MinValue;
use require::Require;

verus! {

/// An attribute that checks or corrects the property's value.
pub enum ValidatorAttribute {
    MinValue(MinValue),
    MaxValue(MaxValue),
    Require(Require),
}

/// What a validator holds, by its kind: the text of its expression.
pub enum ValidatorView {
    MinValue(Seq<char>),
    MaxValue(Seq<char>),
    Require(Seq<char>),
}

impl View for ValidatorAttribute {
    type V = ValidatorView;

    open spec fn view(&self) -> ValidatorView {
        match self {
            ValidatorAttribute::MinValue(a) => ValidatorView::MinValue(a@),
            ValidatorAttribute::MaxValue(a) => ValidatorView::MaxValue(a@),
            ValidatorAttribute::Require(a) => ValidatorView::Require(a@),
        }
    }
}

/// The keys of the validators.
pub open spec fn is_validator_key(key: Seq<char>) -> bool {
    key == "min_value"@ || key == "max_value"@ || key == "require"@
}

/// What the validator that `key` names reads from `raw_args` on a property of
/// type `t`; `errors` tells what the engine's compiler reports for an
/// expression's source.
pub open spec fn validator_of(
    key: Seq<char>,
    raw_args: Seq<char>,
    t: VariantType,
    errors: spec_fn(Seq<char>) -> Option<Seq<char>>,
) -> Result<ValidatorView, Seq<char>> {
    if key == "min_value"@ {
        match number_expression_of(raw_args, t, errors) {
            Ok(e) => Ok(ValidatorView::MinValue(e)),
            Err(m) => Err(m),
        }
    } else if key == "max_value"@ {
        match number_expression_of(raw_args, t, errors) {
            Ok(e) => Ok(ValidatorView::MaxValue(e)),
            Err(m) => Err(m),
        }
    } else if key == "require"@ {
        match condition_of(raw_args, errors) {
            Ok(e) => Ok(ValidatorView::Require(e)),
            Err(m) => Err(m),
        }
    } else {
        Err("unknown attribute"@)
    }
}

/// The key that names a validator.
pub open spec fn validator_key(v: ValidatorView) -> Seq<char> {
    match v {
        ValidatorView::MinValue(_) => "min_value"@,
        ValidatorView::MaxValue(_) => "max_value"@,
        ValidatorView::Require(_) => "require"@,
    }
}

impl ValidatorAttribute {
    /// Reads the validator that `key` names; `compile` answers for a source
    /// the error the engine's compiler reports, or none.
    pub fn parse<F: Fn(&str) -> Option<String>>(key: &str, raw_args: &str, context: &ParseContext, compile: &F) -> (r:
        Result<Self, String>)
        requires
            compiler_ready(*compile),
        ensures
            forall|errors: spec_fn(Seq<char>) -> Option<Seq<char>>|
                #[trigger] answers_compile(*compile, errors) ==> crate::text::result_view(r)
                    == validator_of(key@, raw_args@, context.variant_type, errors),
            r matches Ok(v) ==> (key@ == "min_value"@ <==> v is MinValue) && (key@ == "max_value"@
                <==> v is MaxValue) && (key@ == "require"@ <==> v is Require),
    {
        proof {
            lemma_validator_keys_differ();
        }
        if str_eq(key, min_value::KEY) {
            match MinValue::parse(raw_args, context, compile) {
                Ok(a) => Ok(ValidatorAttribute::MinValue(a)),
                Err(m) => Err(m),
            }
        } else if str_eq(key, max_value::KEY) {
            match MaxValue::parse(raw_args, context, compile) {
                Ok(a) => Ok(ValidatorAttribute::MaxValue(a)),
                Err(m) => Err(m),
            }
        } else if str_eq(key, require::KEY) {
            match Require::parse(raw_args, context, compile) {
                Ok(a) => Ok(ValidatorAttribute::Require(a)),
                Err(m) => Err(m),
            }
        } else {
            Err(string_of("unknown attribute"))
        }
    }

    /// Whether `key` names a validator.
    pub fn is_known_key(key: &str) -> (r: bool)
        ensures
            r == is_validator_key(key@),
    {
        str_eq(key, min_value::KEY) || str_eq(key, max_value::KEY) || str_eq(key, require::KEY)
    }

    /// The key that names this validator.
    pub fn get_key(&self) -> (r: &'static str)
        ensures
            r@ == validator_key(self@),
    {
        match self {
            ValidatorAttribute::MinValue(_) => min_value::KEY,
            ValidatorAttribute::MaxValue(_) => max_value::KEY,
            ValidatorAttribute::Require(_) => require::KEY,
        }
    }
}

/// The key fixes the kind of validator: `min_value` reads a lower bound,
/// `max_value` an upper bound, `require` a condition, and each names itself
/// by the key it was read under.
pub proof fn lemma_the_key_fixes_the_validator(
    key: Seq<char>,
    raw_args: Seq<char>,
    t: VariantType,
    errors: spec_fn(Seq<char>) -> Option<Seq<char>>,
)
    ensures
        validator_of(key, raw_args, t, errors) matches Ok(v) ==> ((key == "min_value"@ <==> v is MinValue)
            && (key == "max_value"@ <==> v is MaxValue) && (key == "require"@ <==> v is Require)),
        validator_key(ValidatorView::MinValue(raw_args)) == "min_value"@,
        validator_key(ValidatorView::MaxValue(raw_args)) == "max_value"@,
        validator_key(ValidatorView::Require(raw_args)) == "require"@,
{
    lemma_validator_keys_differ();
}

/// The three keys are different words.
proof fn lemma_validator_keys_differ()
    ensures
        "min_value"@ != "max_value"@,
        "min_value"@ != "require"@,
        "max_value"@ != "require"@,
{
    reveal_strlit("min_value");
    reveal_strlit("max_value");
    reveal_strlit("require");
    assert("min_value"@[1] != "max_value"@[1]);
    assert("min_value"@.len() != "require"@.len());
    assert("max_value"@.len() != "require"@.len());
}

} // verus!
