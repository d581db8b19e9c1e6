//! `require`: a condition that the property's value must meet.

use vstd::prelude::*;
use vstd::string::*;

use crate::attributes::ParseContext;
use crate::expression::{answers_compile, compiler_ready};
use crate::attributes::meta::condition::{condition_of, condition_result_view, Condition};
use crate::text::concat3;

verus! {

pub const KEY: &'static str = "require";

/// A condition that the property must meet, with the message shown when it
/// does not.
pub struct Require {
    pub condition: Condition,
}

impl View for Require {
    type V = Seq<char>;

    open spec fn view(&self) -> Seq<char> {
        self.condition@
    }
}

impl Require {
    /// Reads the condition.
    pub fn parse<F: Fn(&str) -> Option<String>>(raw_args: &str, context: &ParseContext, compile: &F) -> (r:
        Result<Self, String>)
        requires
            compiler_ready(*compile),
        ensures
            forall|errors: spec_fn(Seq<char>) -> Option<Seq<char>>|
                #[trigger] answers_compile(*compile, errors) ==> condition_result_view(r)
                    == condition_of(raw_args@, errors),
    {
        match Condition::parse(raw_args, context, compile) {
            Ok(condition) => Ok(Require { condition }),
            Err(m) => Err(m),
        }
    }

    /// Whether the property is valid, given whether the condition holds.
    pub fn is_satisfied(&self, satisfied: bool) -> (r: bool)
        ensures
            r == satisfied,
    {
        satisfied
    }

    /// The message shown when the property does not meet the condition.
    pub fn get_message(&self, property_name: &str) -> (r: String)
        ensures
            r@ == property_name@ + " is not valid: "@ + self@,
    {
        concat3(property_name, " is not valid: ", self.condition.expression.get_text())
    }
}

} // verus!
