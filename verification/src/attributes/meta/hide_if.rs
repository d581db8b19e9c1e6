//! `hide_if`: the property is hidden while a condition holds.

use vstd::prelude::*;

use crate::attributes::ParseContext;
use crate::expression::{answers_compile, compiler_ready};
use crate::attributes::meta::condition::{condition_of, condition_result_view, Condition};

verus! {

pub const KEY: &'static str = "hide_if";

/// Hides the property while the condition holds.
pub struct HideIf {
    pub condition: Condition,
}

impl View for HideIf {
    type V = Seq<char>;

    open spec fn view(&self) -> Seq<char> {
        self.condition@
    }
}

impl HideIf {
    /// Reads the condition.
    pub fn parse<F: Fn(&str) -> Option<String>>(raw_args: &str, context: &ParseContext, compile: &F) -> (r:
        Result<Self, String>)
        requires
            compiler_ready(*compile),
        ensures
            forall|errors: spec_fn(Seq<char>) -> Option<Seq<char>>|
                #[trigger] answers_compile(*compile, errors) ==> condition_result_view(r)
                    == condition_of(raw_args@, errors),
    {
        match Condition::parse(raw_args, context, compile) {
            Ok(condition) => Ok(HideIf { condition }),
            Err(m) => Err(m),
        }
    }

    /// Whether the property is shown, given whether the condition holds.
    pub fn is_visible(&self, satisfied: bool) -> (r: bool)
        ensures
            r == !satisfied,
    {
        !satisfied
    }
}

} // verus!
