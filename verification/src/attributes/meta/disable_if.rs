//! `disable_if`: the property cannot be edited while a condition holds.

use vstd::prelude::*;

use crate::attributes::ParseContext;
use crate::expression::{answers_compile, compiler_ready};
use crate::attributes::meta::condition::{condition_of, condition_result_view, Condition};

verus! {

pub const KEY: &'static str = "disable_if";

/// Keeps the property from being edited while the condition holds.
pub struct DisableIf {
    pub condition: Condition,
}

impl View for DisableIf {
    type V = Seq<char>;

    open spec fn view(&self) -> Seq<char> {
        self.condition@
    }
}

impl DisableIf {
    /// Reads the condition.
    pub fn parse<F: Fn(&str) -> Option<String>>(raw_args: &str, context: &ParseContext, compile: &F) -> (r:
        Result<Self, String>)
        requires
            compiler_ready(*compile),
        ensures
            forall|errors: spec_fn(Seq<char>) -> Option<Seq<char>>|
                #[trigger] answers_compile(*compile, errors) ==> condition_result_view(r)
                    == condition_of(raw_args@, errors),
    {
        match Condition::parse(raw_args, context, compile) {
            Ok(condition) => Ok(DisableIf { condition }),
            Err(m) => Err(m),
        }
    }

    /// Whether the property can be edited, given whether the condition holds.
    pub fn is_enabled(&self, satisfied: bool) -> (r: bool)
        ensures
            r == !satisfied,
    {
        !satisfied
    }
}

} // verus!
